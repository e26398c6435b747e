//! Filesystem commands written into the text of a message.
//!
//! A command block starts at the marker `<fs-command>` and runs to the next
//! such marker, or to the end of the text. What counts of a block is what
//! stands before its first `</fs-command>`; a block without one is skipped.
//! Inside, a field is written `<name>value</name>`. A block needs the fields
//! `operation` and `path`; `content`, `old_text` and `new_text` are read
//! where they are there. A block that lacks a needed field is skipped, and
//! the blocks after it are still read.

use crate::message::{CommandView, FsCommand};
use crate::text::{
    chars_of, contains, find, find_in, lemma_contains_is_found, lemma_find_from,
    lemma_first_is_found, occurs_at, piece,
};
use vstd::prelude::*;

verus! {

/// The marker that starts a command block.
pub open spec fn block_begin() -> Seq<char> {
    "<fs-command>"@
}

/// The marker that ends what is read of a command block.
pub open spec fn block_end() -> Seq<char> {
    "</fs-command>"@
}

/// The tag that opens the field `name`.
pub open spec fn open_tag(name: Seq<char>) -> Seq<char> {
    seq!['<'] + name + seq!['>']
}

/// The tag that closes the field `name`.
pub open spec fn close_tag(name: Seq<char>) -> Seq<char> {
    seq!['<', '/'] + name + seq!['>']
}

/// The value of the field `name` in `xml`: what stands between the first
/// opening tag and the first closing tag. The field is absent where either tag
/// is missing, and where the closing tag starts before the opening tag has ended.
pub open spec fn field(xml: Seq<char>, name: Seq<char>) -> Option<Seq<char>> {
    match (find(xml, open_tag(name)), find(xml, close_tag(name))) {
        (Some(start), Some(end)) => if start + open_tag(name).len() <= end {
            Some(xml.subrange(start + open_tag(name).len(), end))
        } else {
            None
        },
        _ => None,
    }
}

/// The command that the fields of `xml` spell, if the two needed fields are there.
pub open spec fn fields_command(xml: Seq<char>) -> Option<CommandView> {
    match (field(xml, "operation"@), field(xml, "path"@)) {
        (Some(operation), Some(path)) => Some(
            CommandView {
                operation,
                path,
                content: field(xml, "content"@),
                old_text: field(xml, "old_text"@),
                new_text: field(xml, "new_text"@),
            },
        ),
        _ => None,
    }
}

/// The command of a block, if the block is well formed: it has an end marker,
/// and before it the two needed fields.
pub open spec fn block_command(block: Seq<char>) -> Option<CommandView> {
    match find(block, block_end()) {
        Some(end) => fields_command(block.subrange(0, end)),
        None => None,
    }
}

/// What follows a begin marker, up to the next begin marker or the end.
pub open spec fn block_body(rest: Seq<char>) -> Seq<char> {
    match find(rest, block_begin()) {
        Some(next) => rest.take(next),
        None => rest,
    }
}

/// The blocks of `text`, from left to right.
pub open spec fn blocks(text: Seq<char>) -> Seq<Seq<char>>
    decreases text.len(),
    via blocks_terminates
{
    match find(text, block_begin()) {
        Some(at) => {
            let rest = text.skip(at + block_begin().len());
            seq![block_body(rest)] + blocks(rest)
        },
        None => Seq::empty(),
    }
}

#[via_fn]
proof fn blocks_terminates(text: Seq<char>) {
    reveal_strlit("<fs-command>");
    lemma_find_from(text, block_begin(), 0);
}

/// The commands of the well-formed blocks of `text`, from left to right.
pub open spec fn commands_in(text: Seq<char>) -> Seq<CommandView> {
    blocks(text).filter_map(|block: Seq<char>| block_command(block))
}

/// Whether a block is well formed: whether it spells a command.
pub open spec fn well_formed(block: Seq<char>) -> bool {
    block_command(block) is Some
}

/// The commands that `blocks` spell are those of the well-formed ones among
/// them, one for each, in their order.
pub proof fn lemma_commands_of_blocks(blocks: Seq<Seq<char>>)
    ensures
        blocks.filter_map(|block: Seq<char>| block_command(block)) == blocks.filter(
            |block: Seq<char>| well_formed(block),
        ).map_values(|block: Seq<char>| block_command(block).unwrap()),
    decreases blocks.len(),
{
    reveal(Seq::filter);
    let reader = |block: Seq<char>| block_command(block);
    let good = |block: Seq<char>| well_formed(block);
    let command = |block: Seq<char>| block_command(block).unwrap();
    if blocks.len() > 0 {
        let rest = blocks.drop_last();
        lemma_commands_of_blocks(rest);
        if well_formed(blocks.last()) {
            assert(rest.filter(good).push(blocks.last()).map_values(command) =~= rest.filter(
                good,
            ).map_values(command) + seq![command(blocks.last())]);
        }
    } else {
        assert(blocks.filter(good).map_values(command) =~= Seq::empty());
    }
}

/// A text with `k` well-formed blocks holds exactly `k` commands, whatever
/// malformed blocks stand between them: the commands of the well-formed
/// blocks, from left to right.
pub proof fn lemma_one_command_per_block(text: Seq<char>)
    ensures
        commands_in(text) == blocks(text).filter(|block: Seq<char>| well_formed(block)).map_values(
            |block: Seq<char>| block_command(block).unwrap(),
        ),
        commands_in(text).len() == blocks(text).filter(
            |block: Seq<char>| well_formed(block),
        ).len(),
{
    lemma_commands_of_blocks(blocks(text));
}

/// The text that starts with `lead` and goes on with the blocks `bodies`, each
/// behind a begin marker.
pub open spec fn composed(lead: Seq<char>, bodies: Seq<Seq<char>>) -> Seq<char>
    decreases bodies.len(),
{
    if bodies.len() == 0 {
        lead
    } else {
        lead + block_begin() + composed(bodies[0], bodies.drop_first())
    }
}

/// Behind a text that holds no begin marker, the first begin marker is the
/// one that is put there: none starts earlier, not even one that would run
/// over from the text into the marker.
pub proof fn lemma_first_marker(lead: Seq<char>, rest: Seq<char>)
    requires
        !contains(lead, block_begin()),
    ensures
        find(lead + block_begin() + rest, block_begin()) == Some(lead.len() as int),
{
    reveal_strlit("<fs-command>");
    let marker = block_begin();
    let text = lead + marker + rest;
    let at = lead.len() as int;
    assert(text.subrange(at, at + marker.len()) =~= marker);
    assert forall|j: int| 0 <= j < at implies !occurs_at(text, marker, j) by {
        if occurs_at(text, marker, j) {
            let found = text.subrange(j, j + marker.len());
            if j + marker.len() <= at {
                assert(lead.subrange(j, j + marker.len()) =~= found);
                assert(occurs_at(lead, marker, j));
            } else {
                let k = at - j;
                assert(found[k] == text[at]);
                assert(text[at] == marker[0]);
                assert(marker[k] != marker[0]);
            }
        }
    }
    lemma_first_is_found(text, marker, 0, at);
}

/// The blocks of a text that was put together from blocks are those blocks,
/// as long as neither what leads the text nor any block holds a begin marker.
pub proof fn lemma_blocks_of_composed(lead: Seq<char>, bodies: Seq<Seq<char>>)
    requires
        !contains(lead, block_begin()),
        forall|i: int| 0 <= i < bodies.len() ==> !contains(#[trigger] bodies[i], block_begin()),
    ensures
        blocks(composed(lead, bodies)) == bodies,
    decreases bodies.len(),
{
    let marker = block_begin();
    if bodies.len() == 0 {
        lemma_contains_is_found(lead, marker);
        assert(blocks(lead) =~= bodies);
    } else {
        let first = bodies[0];
        let others = bodies.drop_first();
        let rest = composed(first, others);
        let text = lead + marker + rest;
        lemma_first_marker(lead, rest);
        assert(text.skip((lead.len() + marker.len()) as int) =~= rest);
        assert forall|i: int| 0 <= i < others.len() implies !contains(
            #[trigger] others[i],
            marker,
        ) by {
            assert(others[i] == bodies[i + 1]);
        }
        lemma_blocks_of_composed(first, others);
        if others.len() == 0 {
            lemma_contains_is_found(first, marker);
        } else {
            lemma_first_marker(first, composed(others[0], others.drop_first()));
            assert(rest.take(first.len() as int) =~= first);
        }
        assert(block_body(rest) == first);
        assert(seq![first] + others =~= bodies);
    }
}

/// A text that was put together from `k` well-formed blocks and any number of
/// malformed ones holds exactly `k` commands: those of the well-formed
/// blocks, from left to right.
pub proof fn lemma_commands_of_composed(lead: Seq<char>, bodies: Seq<Seq<char>>)
    requires
        !contains(lead, block_begin()),
        forall|i: int| 0 <= i < bodies.len() ==> !contains(#[trigger] bodies[i], block_begin()),
    ensures
        commands_in(composed(lead, bodies)) == bodies.filter(
            |block: Seq<char>| well_formed(block),
        ).map_values(|block: Seq<char>| block_command(block).unwrap()),
        commands_in(composed(lead, bodies)).len() == bodies.filter(
            |block: Seq<char>| well_formed(block),
        ).len(),
{
    lemma_blocks_of_composed(lead, bodies);
    lemma_commands_of_blocks(bodies);
}

/// The characters of the tag that opens (or, with `closing`, closes) the field `name`.
fn tag_chars(name: &str, closing: bool) -> (tag: Vec<char>)
    ensures
        tag@ == if closing {
            close_tag(name@)
        } else {
            open_tag(name@)
        },
{
    let letters = chars_of(name);
    let mut tag: Vec<char> = Vec::new();
    tag.push('<');
    if closing {
        tag.push('/');
    }
    let ghost head = tag@;
    let mut i: usize = 0;
    while i < letters.len()
        invariant
            i <= letters.len(),
            tag@ == head + letters@.take(i as int),
        decreases letters.len() - i,
    {
        tag.push(letters[i]);
        i += 1;
    }
    tag.push('>');
    tag
}

/// The field `name` of the window `[lo, hi)` of `source`, whose characters are `chars`.
fn field_in(source: &str, chars: &Vec<char>, lo: usize, hi: usize, name: &str) -> (value: Option<
    String,
>)
    requires
        chars@ == source@,
        lo <= hi <= chars.len(),
    ensures
        value.deep_view() == field(chars@.subrange(lo as int, hi as int), name@),
{
    let opening = tag_chars(name, false);
    let closing = tag_chars(name, true);
    match (find_in(chars, &opening, lo, hi), find_in(chars, &closing, lo, hi)) {
        (Some(start), Some(end)) => {
            if end - lo >= opening.len() && start <= end - opening.len() {
                Some(piece(source, start + opening.len(), end))
            } else {
                None
            }
        },
        _ => None,
    }
}

/// The value of the field `tag` in `xml`: what stands between the first
/// `<tag>` and the first `</tag>`, if both are there in that order.
pub fn extract_tag_content(xml: &str, tag: &str) -> (value: Option<String>)
    ensures
        value.deep_view() == field(xml@, tag@),
{
    let chars = chars_of(xml);
    assert(chars@.subrange(0, chars@.len() as int) =~= xml@);
    field_in(xml, &chars, 0, chars.len(), tag)
}

/// The command of the block that is the window `[lo, hi)` of `source`.
fn block_in(source: &str, chars: &Vec<char>, lo: usize, hi: usize) -> (command: Option<FsCommand>)
    requires
        chars@ == source@,
        lo <= hi <= chars.len(),
    ensures
        command.deep_view() == block_command(chars@.subrange(lo as int, hi as int)),
{
    let marker = chars_of("</fs-command>");
    let ghost block = chars@.subrange(lo as int, hi as int);
    match find_in(chars, &marker, lo, hi) {
        Some(end) => {
            assert(block.subrange(0, end - lo) =~= chars@.subrange(lo as int, end as int));
            let operation = field_in(source, chars, lo, end, "operation");
            let path = field_in(source, chars, lo, end, "path");
            match (operation, path) {
                (Some(operation), Some(path)) => Some(
                    FsCommand {
                        operation,
                        path,
                        content: field_in(source, chars, lo, end, "content"),
                        old_text: field_in(source, chars, lo, end, "old_text"),
                        new_text: field_in(source, chars, lo, end, "new_text"),
                    },
                ),
                _ => None,
            }
        },
        None => None,
    }
}

/// The commands written into `response`: one for each well-formed block, in
/// the order of the blocks. Malformed blocks are passed over. Where there is
/// no command at all the result is `None`, never an empty list.
pub fn parse_fs_commands(response: &str) -> (found: Option<Vec<FsCommand>>)
    ensures
        match found {
            Some(commands) => commands.len() > 0 && commands.deep_view() == commands_in(
                response@,
            ),
            None => commands_in(response@).len() == 0,
        },
{
    let chars = chars_of(response);
    let marker = chars_of("<fs-command>");
    let ghost text = response@;
    let ghost reader = |block: Seq<char>| block_command(block);
    let ghost mut done: Seq<Seq<char>> = Seq::empty();
    let mut commands: Vec<FsCommand> = Vec::new();
    let mut pos: usize = 0;
    proof {
        assert(text.skip(0) =~= text);
    }
    loop
        invariant
            chars@ == text,
            text == response@,
            marker@ == block_begin(),
            reader == (|block: Seq<char>| block_command(block)),
            pos <= chars.len(),
            blocks(text) == done + blocks(text.skip(pos as int)),
            commands.deep_view() == done.filter_map(reader),
        ensures
            commands.deep_view() == commands_in(text),
        decreases chars.len() - pos,
    {
        let ghost tail = text.skip(pos as int);
        proof {
            reveal_strlit("<fs-command>");
            lemma_find_from(tail, block_begin(), 0);
        }
        match find_in(&chars, &marker, pos, chars.len()) {
            Some(at) => {
                let start = at + marker.len();
                let ghost rest = tail.skip(at - pos + block_begin().len());
                assert(rest =~= chars@.subrange(start as int, chars@.len() as int));
                proof {
                    lemma_find_from(rest, block_begin(), 0);
                }
                let end = match find_in(&chars, &marker, start, chars.len()) {
                    Some(next) => next,
                    None => chars.len(),
                };
                let ghost body = block_body(rest);
                assert(body =~= chars@.subrange(start as int, end as int));
                let command = block_in(response, &chars, start, end);
                proof {
                    assert(done.push(body).drop_last() =~= done);
                }
                if let Some(command) = command {
                    commands.push(command);
                }
                proof {
                    done = done.push(body);
                }
                pos = start;
            },
            None => break ,
        }
    }
    if commands.len() == 0 {
        None
    } else {
        Some(commands)
    }
}

} // verus!
