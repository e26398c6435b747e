//! Putting the conversation together from the store.
//!
//! Every message names the one before it, and the session knows the id of the
//! newest. The history is found by walking back from there, record by record,
//! until a message names no parent. A record does not hold its own id: what
//! is loaded gets the id it was asked for under. The walk itself loads
//! nothing: it says which record it wants next, and takes what was loaded.

use crate::message::{Message, MessageView};
use crate::session::State;
use vstd::prelude::*;

verus! {

/// A walk back through the conversation: the id of the record that is wanted
/// next, and the messages found so far, newest first.
#[derive(Debug, PartialEq, Eq)]
pub struct HistoryWalk {
    next: Option<String>,
    gathered: Vec<Message>,
}

/// What a `HistoryWalk` holds, as sequences.
pub struct WalkView {
    pub next: Option<Seq<char>>,
    pub gathered: Seq<MessageView>,
}

impl WalkView {
    /// The walk that starts at `head`.
    pub open spec fn begin(head: Option<Seq<char>>) -> WalkView {
        WalkView { next: head, gathered: Seq::empty() }
    }

    /// The walk after `record` has been loaded for the id that was wanted: the
    /// record is kept under that id, and its parent is wanted next. A walk
    /// that wants nothing passes the record over.
    pub open spec fn accept(self, record: MessageView) -> WalkView {
        match self.next {
            Some(id) => WalkView {
                next: record.parent,
                gathered: self.gathered.push(record.with_id(id)),
            },
            None => self,
        }
    }

    /// The messages found so far, oldest first.
    pub open spec fn history(self) -> Seq<MessageView> {
        self.gathered.reverse()
    }
}

impl DeepView for HistoryWalk {
    type V = WalkView;

    closed spec fn deep_view(&self) -> WalkView {
        WalkView { next: self.next.deep_view(), gathered: self.gathered.deep_view() }
    }
}

impl View for HistoryWalk {
    type V = WalkView;

    open spec fn view(&self) -> WalkView {
        self.deep_view()
    }
}

/// The history that a walk ends with when every record it wants is loaded
/// from `records`. There is none where a wanted record is missing, and none
/// where the walk has not come to an end after `fuel` records.
pub open spec fn assembled(
    records: Map<Seq<char>, MessageView>,
    walk: WalkView,
    fuel: nat,
) -> Option<Seq<MessageView>>
    decreases fuel,
{
    match walk.next {
        None => Some(walk.history()),
        Some(id) => if fuel > 0 && records.contains_key(id) {
            assembled(records, walk.accept(records[id]), (fuel - 1) as nat)
        } else {
            None
        },
    }
}

/// `records` holds `messages` under `ids`, and they were saved in the order
/// of a conversation: the first names no parent, and each of the others names
/// the one before it.
pub open spec fn chained(
    records: Map<Seq<char>, MessageView>,
    ids: Seq<Seq<char>>,
    messages: Seq<MessageView>,
) -> bool {
    &&& ids.len() == messages.len()
    &&& forall|i: int|
        0 <= i < ids.len() ==> records.contains_key(#[trigger] ids[i]) && records[ids[i]]
            == messages[i]
    &&& forall|i: int|
        0 <= i < ids.len() ==> (#[trigger] messages[i]).parent == if i == 0 {
            None
        } else {
            Some(ids[i - 1])
        }
}

/// `messages`, each under its id from `ids`.
pub open spec fn stamped(ids: Seq<Seq<char>>, messages: Seq<MessageView>) -> Seq<MessageView> {
    Seq::new(messages.len(), |i: int| messages[i].with_id(ids[i]))
}

proof fn lemma_walk_back(
    records: Map<Seq<char>, MessageView>,
    ids: Seq<Seq<char>>,
    messages: Seq<MessageView>,
    k: int,
    gathered: Seq<MessageView>,
)
    requires
        chained(records, ids, messages),
        0 <= k < ids.len(),
    ensures
        assembled(records, WalkView { next: Some(ids[k]), gathered }, (k + 1) as nat) == Some(
            stamped(ids, messages).take(k + 1) + gathered.reverse(),
        ),
    decreases k,
{
    let walk = WalkView { next: Some(ids[k]), gathered };
    let all = stamped(ids, messages);
    let after = walk.accept(records[ids[k]]);
    assert(records.contains_key(ids[k]) && records[ids[k]] == messages[k]);
    assert(after.gathered == gathered.push(all[k]));
    assert(gathered.push(all[k]).reverse() =~= seq![all[k]] + gathered.reverse());
    if k == 0 {
        assert(after.next is None);
        assert(all.take(1) =~= seq![all[0]]);
        assert(assembled(records, after, 0) == Some(after.history()));
    } else {
        assert(after.next == Some(ids[k - 1]));
        lemma_walk_back(records, ids, messages, k - 1, after.gathered);
        assert(all.take(k + 1) =~= all.take(k) + seq![all[k]]);
        assert(all.take(k) + (seq![all[k]] + gathered.reverse()) =~= all.take(k + 1)
            + gathered.reverse());
    }
}

/// Where `n` messages were saved in the order of a conversation, the walk
/// from the id of the last of them ends with exactly those `n` messages,
/// oldest first, each under its id. So the first names no parent, and each of
/// the others names as its parent the id of the one before it.
pub proof fn lemma_assembles_chain(
    records: Map<Seq<char>, MessageView>,
    ids: Seq<Seq<char>>,
    messages: Seq<MessageView>,
)
    requires
        chained(records, ids, messages),
        ids.len() > 0,
    ensures
        assembled(records, WalkView::begin(Some(ids.last())), ids.len()) == Some(
            stamped(ids, messages),
        ),
        stamped(ids, messages).len() == ids.len(),
        stamped(ids, messages)[0].parent is None,
        forall|i: int|
            0 < i < ids.len() ==> (#[trigger] stamped(ids, messages)[i]).parent == stamped(
                ids,
                messages,
            )[i - 1].id,
{
    let n = ids.len() as int;
    let all = stamped(ids, messages);
    lemma_walk_back(records, ids, messages, n - 1, Seq::empty());
    assert(all.take(n) + Seq::<MessageView>::empty().reverse() =~= all);
    assert forall|i: int| 0 < i < n implies (#[trigger] all[i]).parent == all[i - 1].id by {
        assert(messages[i].parent == Some(ids[i - 1]));
    }
    assert(messages[0].parent is None);
}

/// The walk of a session without messages ends at once, with an empty history.
pub proof fn lemma_assembles_nothing(records: Map<Seq<char>, MessageView>, fuel: nat)
    ensures
        assembled(records, WalkView::begin(None), fuel) == Some(Seq::<MessageView>::empty()),
{
    assert(Seq::<MessageView>::empty().reverse() =~= Seq::<MessageView>::empty());
}

impl State {
    /// Starts the walk through the history of the session, at its newest message.
    pub fn get_message_history(&self) -> (walk: HistoryWalk)
        ensures
            walk@ == WalkView::begin(self@.head),
    {
        let walk = HistoryWalk { next: self.head.clone(), gathered: Vec::new() };
        assert(walk.gathered.deep_view() =~= Seq::empty());
        walk
    }
}

impl HistoryWalk {
    /// The id of the record that is to be loaded next; `None` when the walk
    /// has come to its end.
    pub fn wanted(&self) -> (id: Option<&String>)
        ensures
            id.deep_view() == self@.next,
    {
        self.next.as_ref()
    }

    /// Takes the record that was loaded for the id that was wanted.
    pub fn accept(self, record: Message) -> (walk: Self)
        ensures
            walk@ == self@.accept(record@),
    {
        let HistoryWalk { next, mut gathered } = self;
        match next {
            Some(id) => {
                let ghost before = gathered.deep_view();
                let parent = record.parent.clone();
                let message = record.with_id(id);
                gathered.push(message);
                assert(gathered.deep_view() =~= before.push(message@));
                HistoryWalk { next: parent, gathered }
            },
            None => HistoryWalk { next: None, gathered },
        }
    }

    /// The messages found, oldest first.
    pub fn finish(self) -> (history: Vec<Message>)
        ensures
            history.deep_view() == self@.history(),
    {
        let ghost all = self.gathered.deep_view();
        let mut rest = self.gathered;
        let mut history: Vec<Message> = Vec::new();
        while rest.len() > 0
            invariant
                rest.len() <= all.len(),
                rest.deep_view() == all.take(rest.len() as int),
                history.len() == all.len() - rest.len(),
                forall|i: int|
                    0 <= i < history.len() ==> #[trigger] history.deep_view()[i] == all[all.len()
                        - 1 - i],
            decreases rest.len(),
        {
            let ghost before = history.deep_view();
            let ghost left = rest.deep_view();
            let message = rest.pop().unwrap();
            assert(message@ == left[left.len() - 1]);
            history.push(message);
            assert(history.deep_view() =~= before.push(message@));
        }
        history
    }
}

} // verus!
