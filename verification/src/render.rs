//! Texts that the library composes: joined lists, and the blocks that report
//! the results of commands to the generation backend.

use crate::message::{FsResult, Message, MessageView, ResultView};
use vstd::prelude::*;
use vstd::string::StringExecFns;

verus! {

/// The texts of `parts`, in order, with `separator` between each two.
pub open spec fn joined(parts: Seq<Seq<char>>, separator: Seq<char>) -> Seq<char>
    decreases parts.len(),
{
    if parts.len() == 0 {
        Seq::empty()
    } else if parts.len() == 1 {
        parts[0]
    } else {
        joined(parts.drop_last(), separator) + separator + parts.last()
    }
}

/// The text that stands for a truth value: `true` or `false`.
pub open spec fn truth_text(value: bool) -> Seq<char> {
    if value {
        "true"@
    } else {
        "false"@
    }
}

/// The line that reports a piece of text under the name `name`, or nothing
/// where there is no such text.
pub open spec fn detail_line(name: Seq<char>, value: Option<Seq<char>>) -> Seq<char> {
    match value {
        Some(text) => "\n    <"@ + name + ">"@ + text + "</"@ + name + ">"@,
        None => Seq::empty(),
    }
}

/// The block that reports one result.
pub open spec fn result_block(result: ResultView) -> Seq<char> {
    "  <result>\n    <operation>"@ + result.operation + "</operation>\n    <path>"@ + result.path
        + "</path>\n    <success>"@ + truth_text(result.success) + "</success>"@ + detail_line(
        "data"@,
        result.data,
    ) + detail_line("error"@, result.error) + "\n  </result>"@
}

/// The block that reports the results of one message, marked with the role of
/// the message.
pub open spec fn results_block(role: Seq<char>, results: Seq<ResultView>) -> Seq<char> {
    "<command-results role=\""@ + role + "\">\n"@ + joined(
        results.map_values(|result: ResultView| result_block(result)),
        "\n"@,
    ) + "\n</command-results>"@
}

/// The block of a message, if the message carries results.
pub open spec fn message_block(message: MessageView) -> Option<Seq<char>> {
    match message.fs_results {
        Some(results) => Some(results_block(message.role, results)),
        None => None,
    }
}

/// The two newest messages of `history`, the newest first; none where the
/// history has fewer than two.
pub open spec fn newest_two(history: Seq<MessageView>) -> Seq<MessageView> {
    if history.len() > 1 {
        seq![history[history.len() - 1], history[history.len() - 2]]
    } else {
        Seq::empty()
    }
}

/// The report on the commands that were run last: the blocks of the two newest
/// messages, the newest first. It is empty where the history has fewer than
/// two messages, and where neither of the two carries results.
pub open spec fn recent_results(history: Seq<MessageView>) -> Seq<char> {
    joined(newest_two(history).filter_map(|message: MessageView| message_block(message)), "\n"@)
}

/// The text that the standard `Debug` formatting gives for a list of strings
/// that hold `items`.
pub uninterp spec fn debug_listing(items: Seq<Seq<char>>) -> Seq<char>;

/// The list `items` as `{:?}` formats it. The formatting is that of the
/// standard library and is not spelled out here: the contract only gives its
/// result a name, as a function of what the strings hold.
#[verifier::external_body]
pub(crate) fn listing(items: &Vec<String>) -> (text: String)
    ensures
        text@ == debug_listing(items.deep_view()),
{
    format!("{:?}", items)
}

/// The texts of `parts`, in order, with `separator` between each two.
pub fn join(parts: &Vec<String>, separator: &str) -> (text: String)
    ensures
        text@ == joined(parts.deep_view(), separator@),
{
    let mut text = String::new();
    let mut i: usize = 0;
    while i < parts.len()
        invariant
            i <= parts.len(),
            text@ == joined(parts.deep_view().take(i as int), separator@),
        decreases parts.len() - i,
    {
        let ghost before = parts.deep_view().take(i as int);
        let ghost after = parts.deep_view().take(i + 1);
        assert(after.drop_last() =~= before);
        if i > 0 {
            text.append(separator);
        }
        text.append(parts[i].as_str());
        i += 1;
    }
    assert(parts.deep_view().take(i as int) =~= parts.deep_view());
    text
}

/// Appends the line that reports `value` under the name `name`, if there is a value.
fn push_detail(text: &mut String, name: &str, value: &Option<String>)
    ensures
        final(text)@ == old(text)@ + detail_line(name@, value.deep_view()),
{
    match value {
        Some(inner) => {
            text.append("\n    <");
            text.append(name);
            text.append(">");
            text.append(inner.as_str());
            text.append("</");
            text.append(name);
            text.append(">");
        },
        None => {},
    }
}

/// The block that reports `result`.
pub fn render_result(result: &FsResult) -> (text: String)
    ensures
        text@ == result_block(result@),
{
    let mut text = "  <result>\n    <operation>".to_owned();
    text.append(result.operation.as_str());
    text.append("</operation>\n    <path>");
    text.append(result.path.as_str());
    text.append("</path>\n    <success>");
    if result.success {
        text.append("true");
    } else {
        text.append("false");
    }
    text.append("</success>");
    push_detail(&mut text, "data", &result.data);
    push_detail(&mut text, "error", &result.error);
    text.append("\n  </result>");
    text
}

/// The block that reports `results`, marked with `role`.
pub fn render_results(role: &str, results: &Vec<FsResult>) -> (text: String)
    ensures
        text@ == results_block(role@, results.deep_view()),
{
    let ghost blocks = results.deep_view().map_values(|result: ResultView| result_block(result));
    let mut rendered: Vec<String> = Vec::new();
    let mut i: usize = 0;
    while i < results.len()
        invariant
            i <= results.len(),
            blocks == results.deep_view().map_values(|result: ResultView| result_block(result)),
            rendered.deep_view() == blocks.take(i as int),
        decreases results.len() - i,
    {
        let ghost before = rendered.deep_view();
        let block = render_result(&results[i]);
        rendered.push(block);
        assert(rendered.deep_view() =~= before.push(block@));
        i += 1;
    }
    assert(blocks.take(i as int) =~= blocks);
    let mut text = "<command-results role=\"".to_owned();
    text.append(role);
    text.append("\">\n");
    text.append(join(&rendered, "\n").as_str());
    text.append("\n</command-results>");
    text
}

/// The report on the commands that were run last, for the generation backend.
pub fn render_recent(history: &Vec<Message>) -> (text: String)
    ensures
        text@ == recent_results(history.deep_view()),
{
    let ghost reader = |message: MessageView| message_block(message);
    let ghost two = newest_two(history.deep_view());
    let mut rendered: Vec<String> = Vec::new();
    if history.len() > 1 {
        let n = history.len();
        let newest = &history[n - 1];
        let before = &history[n - 2];
        proof {
            reveal_with_fuel(Seq::filter_map, 3);
        }
        if let Some(results) = &newest.fs_results {
            rendered.push(render_results(newest.role.as_str(), results));
        }
        if let Some(results) = &before.fs_results {
            rendered.push(render_results(before.role.as_str(), results));
        }
        assert(rendered.deep_view() =~= two.filter_map(reader));
    }
    join(&rendered, "\n")
}

} // verus!
