//! The callback router: resolves an opaque payload string to a handler.
//!
//! Resolution order is fixed: the three prefix families (`page_<uint>`,
//! `msg_<id>`, `back_to_page_<uint>`) are checked first, in that order, and
//! only then the exact-match registry of literal tokens.  Prefix families
//! therefore take precedence over exact entries even for their own spelled-
//! out keys.  An unmatched payload resolves to no handler; that is not an
//! error.
use crate::text::{has_prefix, spec_has_prefix, str_eq};
use vstd::prelude::*;
use vstd::string::*;

verus! {

/// The handlers a callback payload can resolve to.
#[derive(Clone, Copy, Debug, PartialEq, Eq, Structural)]
pub enum HandlerKind {
    FaqSend,
    Q1,
    BackToMenu,
    MyRequests,
    AllMessages,
    MessageHandler,
    BackToPageHandler,
}

/// First-match lookup in the exact-entry registry.
pub open spec fn exact_lookup(
    entries: Seq<(Seq<char>, HandlerKind)>,
    payload: Seq<char>,
) -> Option<HandlerKind>
    decreases entries.len(),
{
    if entries.len() == 0 {
        None
    } else if entries[0].0 == payload {
        Some(entries[0].1)
    } else {
        exact_lookup(entries.drop_first(), payload)
    }
}

/// Full resolution: prefix families first, in fixed order, then the exact
/// registry.
pub open spec fn spec_resolve(
    entries: Seq<(Seq<char>, HandlerKind)>,
    payload: Seq<char>,
) -> Option<HandlerKind> {
    if spec_has_prefix(payload, "page_"@) {
        Some(HandlerKind::AllMessages)
    } else if spec_has_prefix(payload, "msg_"@) {
        Some(HandlerKind::MessageHandler)
    } else if spec_has_prefix(payload, "back_to_page_"@) {
        Some(HandlerKind::BackToPageHandler)
    } else {
        exact_lookup(entries, payload)
    }
}

/// The registry the factory is built with.
pub open spec fn spec_default_entries() -> Seq<(Seq<char>, HandlerKind)> {
    seq![
        ("faq"@, HandlerKind::FaqSend),
        ("profits"@, HandlerKind::Q1),
        ("back_to_faq"@, HandlerKind::FaqSend),
        ("all_requests"@, HandlerKind::AllMessages),
        ("my_requests"@, HandlerKind::MyRequests),
        ("back_to_menu"@, HandlerKind::BackToMenu),
        ("msg_"@, HandlerKind::MessageHandler),
        ("back_to_page_"@, HandlerKind::BackToPageHandler),
    ]
}

/// The immutable handler registry: exact literal tokens, each bound to one
/// handler.  Built once at construction; safe to share read-only.
pub struct CallbackHandlerFactory {
    entries: Vec<(String, HandlerKind)>,
}

impl CallbackHandlerFactory {
    /// The registry's exact entries, in registration order.
    pub closed spec fn spec_entries(&self) -> Seq<(Seq<char>, HandlerKind)> {
        self.entries@.map_values(|e: (String, HandlerKind)| (e.0@, e.1))
    }

    /// At most one exact entry per key.
    pub open spec fn wf(&self) -> bool {
        forall|i: int, j: int|
            0 <= i < j < self.spec_entries().len() ==> self.spec_entries()[i].0
                != self.spec_entries()[j].0
    }

    /// Build the fixed registry of literal tokens.
    pub fn new() -> (r: Self)
        ensures
            r.spec_entries() == spec_default_entries(),
            r.wf(),
    {
        let mut entries: Vec<(String, HandlerKind)> = Vec::new();
        entries.push((String::from_str("faq"), HandlerKind::FaqSend));
        entries.push((String::from_str("profits"), HandlerKind::Q1));
        entries.push((String::from_str("back_to_faq"), HandlerKind::FaqSend));
        entries.push((String::from_str("all_requests"), HandlerKind::AllMessages));
        entries.push((String::from_str("my_requests"), HandlerKind::MyRequests));
        entries.push((String::from_str("back_to_menu"), HandlerKind::BackToMenu));
        entries.push((String::from_str("msg_"), HandlerKind::MessageHandler));
        entries.push((String::from_str("back_to_page_"), HandlerKind::BackToPageHandler));
        let r = CallbackHandlerFactory { entries };
        proof {
            assert(r.spec_entries() =~= spec_default_entries());
            reveal_strlit("faq");
            reveal_strlit("profits");
            reveal_strlit("back_to_faq");
            reveal_strlit("all_requests");
            reveal_strlit("my_requests");
            reveal_strlit("back_to_menu");
            reveal_strlit("msg_");
            reveal_strlit("back_to_page_");
            assert forall|i: int, j: int|
                0 <= i < j < spec_default_entries().len() implies spec_default_entries()[i].0
                != spec_default_entries()[j].0 by {
                let a = spec_default_entries()[i].0;
                let b = spec_default_entries()[j].0;
                if a.len() == b.len() {
                    assert(a[0] != b[0]);
                }
            }
        }
        r
    }

    /// Exact-match lookup only, with no prefix handling.
    pub fn get_handler(&self, callback_data: &str) -> (r: Option<HandlerKind>)
        ensures
            r == exact_lookup(self.spec_entries(), callback_data@),
    {
        let ghost es = self.spec_entries();
        let mut i: usize = 0;
        while i < self.entries.len()
            invariant
                i <= self.entries@.len(),
                es == self.spec_entries(),
                forall|j: int| 0 <= j < i ==> es[j].0 != callback_data@,
            decreases self.entries@.len() - i,
        {
            if str_eq(self.entries[i].0.as_str(), callback_data) {
                proof {
                    lemma_exact_lookup_skip(es, callback_data@, i as int);
                    assert(es.skip(i as int)[0] == es[i as int]);
                }
                return Some(self.entries[i].1);
            }
            i += 1;
        }
        proof {
            lemma_exact_lookup_skip(es, callback_data@, i as int);
            assert(es.skip(i as int) =~= Seq::<(Seq<char>, HandlerKind)>::empty());
        }
        None
    }

    /// Resolve a payload, honouring prefix-family precedence.
    pub fn resolve(&self, payload: &str) -> (r: Option<HandlerKind>)
        ensures
            r == spec_resolve(self.spec_entries(), payload@),
    {
        if has_prefix(payload, "page_") {
            Some(HandlerKind::AllMessages)
        } else if has_prefix(payload, "msg_") {
            Some(HandlerKind::MessageHandler)
        } else if has_prefix(payload, "back_to_page_") {
            Some(HandlerKind::BackToPageHandler)
        } else {
            self.get_handler(payload)
        }
    }
}

proof fn lemma_exact_lookup_skip(entries: Seq<(Seq<char>, HandlerKind)>, payload: Seq<char>, i: int)
    requires
        0 <= i <= entries.len(),
        forall|j: int| 0 <= j < i ==> entries[j].0 != payload,
    ensures
        exact_lookup(entries, payload) == exact_lookup(entries.skip(i), payload),
    decreases i,
{
    if i > 0 {
        lemma_exact_lookup_skip(entries.drop_first(), payload, i - 1);
        assert(entries.drop_first().skip(i - 1) =~= entries.skip(i));
    } else {
        assert(entries.skip(0) =~= entries);
    }
}

/// Prefix families take precedence over exact lookup for their own
/// prefixes: `page_3` resolves to the pagination handler even when the
/// registry holds an exact entry literally named `page_3`, bound to any
/// handler at all.
pub proof fn lemma_prefix_family_precedence(
    entries: Seq<(Seq<char>, HandlerKind)>,
    shadowed: HandlerKind,
)
    ensures
        spec_resolve(entries.push(("page_3"@, shadowed)), "page_3"@) == Some(
            HandlerKind::AllMessages,
        ),
        spec_resolve(entries, "page_3"@) == Some(HandlerKind::AllMessages),
{
    reveal_strlit("page_3");
    reveal_strlit("page_");
    assert("page_3"@.subrange(0, 5) =~= "page_"@);
}

} // verus!
