//! Per-conversation dialogue state and the conversation state store.
//!
//! A conversation is always in exactly one state; a conversation never seen
//! before is in `OnWaiting`.  The store has pure get/replace semantics with
//! last-writer-wins: it performs no compare-and-swap, so two racing
//! replacements of the same conversation end in whichever write lands last.
//! Callers that need causal order must serialize their calls per
//! conversation themselves.
use crate::pagination::spec_total_pages;
use crate::records::{clone_messages, models_of, Message, MessageModel};
use vstd::prelude::*;

verus! {

/// Ghost model of a [`State`].
#[verifier::ext_equal]
pub enum StateModel {
    OnWaiting,
    Send,
    WaitQuestion,
    ViewingMessages { messages: Seq<MessageModel>, current_page: int },
    ViewingSingleMessage { message: MessageModel, back_page: int },
}

/// Dialogue state of one conversation.
///
/// `ViewingMessages` holds an ordered snapshot of the conversation owner's
/// records and the page currently shown; `ViewingSingleMessage` remembers
/// the page that was active when the record was opened, so that going back
/// can restore it.
#[derive(Debug)]
pub enum State {
    OnWaiting,
    Send,
    WaitQuestion,
    ViewingMessages { messages: Vec<Message>, current_page: usize },
    ViewingSingleMessage { message: Message, back_page: usize },
}

impl View for State {
    type V = StateModel;

    open spec fn view(&self) -> StateModel {
        match self {
            State::OnWaiting => StateModel::OnWaiting,
            State::Send => StateModel::Send,
            State::WaitQuestion => StateModel::WaitQuestion,
            State::ViewingMessages { messages, current_page } => StateModel::ViewingMessages {
                messages: models_of(messages@),
                current_page: *current_page as int,
            },
            State::ViewingSingleMessage { message, back_page } => {
                StateModel::ViewingSingleMessage { message: message@, back_page: *back_page as int }
            },
        }
    }
}

impl Clone for State {
    fn clone(&self) -> (r: Self)
        ensures
            r@ == self@,
    {
        match self {
            State::OnWaiting => State::OnWaiting,
            State::Send => State::Send,
            State::WaitQuestion => State::WaitQuestion,
            State::ViewingMessages { messages, current_page } => State::ViewingMessages {
                messages: clone_messages(messages),
                current_page: *current_page,
            },
            State::ViewingSingleMessage { message, back_page } => State::ViewingSingleMessage {
                message: message.clone(),
                back_page: *back_page,
            },
        }
    }
}

impl Default for State {
    /// A conversation starts out waiting for input.
    fn default() -> (r: Self)
        ensures
            r@ == StateModel::OnWaiting,
    {
        State::OnWaiting
    }
}

/// The state-machine invariant: a list view always shows a page within
/// `[0, totalPages - 1]` for its own snapshot.
pub open spec fn state_wf(s: StateModel) -> bool {
    s matches StateModel::ViewingMessages { messages, current_page } ==> 0 <= current_page
        < spec_total_pages(messages.len())
}

/// First-match lookup in an association list of conversation states.
pub open spec fn seq_lookup(s: Seq<(i64, StateModel)>, id: i64) -> Option<StateModel>
    decreases s.len(),
{
    if s.len() == 0 {
        None
    } else if s[0].0 == id {
        Some(s[0].1)
    } else {
        seq_lookup(s.drop_first(), id)
    }
}

/// The conversation state store: owns the current dialogue state of every
/// conversation.  Absence is not an error — an unknown conversation reads
/// as `OnWaiting`.  `replace` is last-writer-wins (no compare-and-swap).
pub struct StateStore {
    entries: Vec<(i64, State)>,
}

impl StateStore {
    /// The stored state of `id`, if the conversation has been written to.
    pub closed spec fn spec_get(&self, id: i64) -> Option<StateModel> {
        seq_lookup(entry_models(self.entries@), id)
    }

    /// The state a read of `id` yields: the stored one, or `OnWaiting`.
    pub open spec fn spec_state(&self, id: i64) -> StateModel {
        match self.spec_get(id) {
            Some(s) => s,
            None => StateModel::OnWaiting,
        }
    }

    pub fn new() -> (r: Self)
        ensures
            forall|id: i64| r.spec_get(id) is None,
    {
        let entries: Vec<(i64, State)> = Vec::new();
        proof {
            assert(entry_models(entries@) =~= Seq::<(i64, StateModel)>::empty());
        }
        StateStore { entries }
    }

    /// Read the current state of a conversation; `OnWaiting` if absent.
    pub fn get(&self, id: i64) -> (r: State)
        ensures
            r@ == self.spec_state(id),
    {
        let ghost ms = entry_models(self.entries@);
        let mut i: usize = 0;
        while i < self.entries.len()
            invariant
                i <= self.entries@.len(),
                ms == entry_models(self.entries@),
                forall|j: int| 0 <= j < i ==> ms[j].0 != id,
            decreases self.entries@.len() - i,
        {
            if self.entries[i].0 == id {
                proof {
                    lemma_seq_lookup_skip(ms, id, i as int);
                    assert(ms.skip(i as int)[0] == ms[i as int]);
                }
                return self.entries[i].1.clone();
            }
            i += 1;
        }
        proof {
            lemma_seq_lookup_skip(ms, id, i as int);
            assert(ms.skip(i as int) =~= Seq::<(i64, StateModel)>::empty());
        }
        State::OnWaiting
    }

    /// Overwrite the state of a conversation; last writer wins.
    pub fn replace(&mut self, id: i64, state: State)
        ensures
            final(self).spec_get(id) == Some(state@),
            forall|other: i64|
                other != id ==> final(self).spec_get(other) == old(self).spec_get(other),
    {
        let ghost ms = entry_models(self.entries@);
        proof {
            assert(ms == entry_models(old(self).entries@));
        }
        let mut i: usize = 0;
        while i < self.entries.len()
            invariant
                i <= self.entries@.len(),
                ms == entry_models(self.entries@),
                ms == entry_models(old(self).entries@),
                forall|j: int| 0 <= j < i ==> ms[j].0 != id,
            decreases self.entries@.len() - i,
        {
            if self.entries[i].0 == id {
                let ghost sm = state@;
                proof {
                    assert(ms[i as int].0 == id);
                }
                self.entries.set(i, (id, state));
                proof {
                    assert(entry_models(self.entries@) =~= ms.update(i as int, (id, sm)));
                    lemma_seq_lookup_update(ms, i as int, id, sm, id);
                    assert(self.spec_get(id) == Some(sm));
                    assert forall|x: i64| x != id implies self.spec_get(x) == old(
                        self,
                    ).spec_get(x) by {
                        lemma_seq_lookup_update(ms, i as int, id, sm, x);
                    }
                }
                return ;
            }
            i += 1;
        }
        let ghost sm = state@;
        self.entries.push((id, state));
        proof {
            assert(entry_models(self.entries@) =~= ms.push((id, sm)));
            lemma_seq_lookup_push(ms, id, sm, id);
            assert(self.spec_get(id) == Some(sm));
            assert forall|x: i64| x != id implies self.spec_get(x) == old(self).spec_get(x) by {
                lemma_seq_lookup_push(ms, id, sm, x);
            }
        }
    }
}

/// Models of the stored entries.
pub open spec fn entry_models(entries: Seq<(i64, State)>) -> Seq<(i64, StateModel)> {
    entries.map_values(|e: (i64, State)| (e.0, e.1@))
}

/// Skipping entries whose key does not match leaves the lookup unchanged.
proof fn lemma_seq_lookup_skip(s: Seq<(i64, StateModel)>, id: i64, i: int)
    requires
        0 <= i <= s.len(),
        forall|j: int| 0 <= j < i ==> s[j].0 != id,
    ensures
        seq_lookup(s, id) == seq_lookup(s.skip(i), id),
    decreases i,
{
    if i > 0 {
        assert(s.len() > 0);
        assert(s[0].0 != id);
        lemma_seq_lookup_skip(s.drop_first(), id, i - 1);
        assert(s.drop_first().skip(i - 1) =~= s.skip(i));
    } else {
        assert(s.skip(0) =~= s);
    }
}

/// Overwriting the first entry that holds `id` rewrites the lookup at `id`
/// and nothing else.
proof fn lemma_seq_lookup_update(
    s: Seq<(i64, StateModel)>,
    i: int,
    id: i64,
    v: StateModel,
    x: i64,
)
    requires
        0 <= i < s.len(),
        s[i].0 == id,
        forall|j: int| 0 <= j < i ==> s[j].0 != id,
    ensures
        seq_lookup(s.update(i, (id, v)), x) == if x == id {
            Some(v)
        } else {
            seq_lookup(s, x)
        },
    decreases i,
{
    let u = s.update(i, (id, v));
    if i == 0 {
        if x == id {
        } else {
            assert(u.drop_first() =~= s.drop_first());
        }
    } else {
        assert(u[0] == s[0]);
        if s[0].0 == x {
        } else {
            assert(u.drop_first() =~= s.drop_first().update(i - 1, (id, v)));
            lemma_seq_lookup_update(s.drop_first(), i - 1, id, v, x);
        }
    }
}

/// Appending an entry for a key not yet present adds exactly that lookup.
proof fn lemma_seq_lookup_push(s: Seq<(i64, StateModel)>, id: i64, v: StateModel, x: i64)
    requires
        forall|j: int| 0 <= j < s.len() ==> s[j].0 != id,
    ensures
        seq_lookup(s.push((id, v)), x) == if x == id {
            Some(v)
        } else {
            seq_lookup(s, x)
        },
    decreases s.len(),
{
    let p = s.push((id, v));
    assert(p.len() == s.len() + 1);
    if s.len() == 0 {
        assert(p[0] == (id, v));
        if x == id {
            assert(seq_lookup(p, x) == Some(v));
        } else {
            assert(p[0].0 != x);
            assert(p.drop_first() =~= Seq::<(i64, StateModel)>::empty());
            assert(seq_lookup(p, x) == seq_lookup(p.drop_first(), x));
            assert(seq_lookup(p.drop_first(), x) is None);
            assert(seq_lookup(s, x) is None);
        }
    } else {
        assert(p[0] == s[0]);
        assert(s[0].0 != id);
        if s[0].0 == x {
            assert(seq_lookup(p, x) == Some(p[0].1));
            assert(seq_lookup(s, x) == Some(s[0].1));
        } else {
            assert(p.drop_first() =~= s.drop_first().push((id, v)));
            lemma_seq_lookup_push(s.drop_first(), id, v, x);
            assert(seq_lookup(p, x) == seq_lookup(s.drop_first().push((id, v)), x));
            assert(seq_lookup(s, x) == seq_lookup(s.drop_first(), x));
        }
    }
}

} // verus!
