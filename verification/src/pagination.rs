//! The pagination engine: a pure function from an ordered snapshot and a
//! requested page to the visible window.  The page size is fixed at ten
//! records; the page count is never zero (an empty list still has one,
//! empty, page) and the requested page is clamped into range rather than
//! rejected.
use crate::records::{models_of, Message, MessageModel};
use vstd::prelude::*;

verus! {

/// Fixed number of records shown per page.
pub const ITEMS_PER_PAGE: usize = 10;

/// `max(1, ceil(len / 10))`.
pub open spec fn spec_total_pages(len: nat) -> nat {
    if len == 0 {
        1
    } else {
        ((len - 1) / (ITEMS_PER_PAGE as int) + 1) as nat
    }
}

/// The requested page clamped into `[0, spec_total_pages(len) - 1]`.
pub open spec fn spec_effective_page(requested: nat, len: nat) -> nat {
    if requested < spec_total_pages(len) {
        requested
    } else {
        (spec_total_pages(len) - 1) as nat
    }
}

/// First record index of the effective page.
pub open spec fn spec_window_start(requested: nat, len: nat) -> nat {
    spec_effective_page(requested, len) * ITEMS_PER_PAGE as nat
}

/// One-past-last record index of the effective page.
pub open spec fn spec_window_end(requested: nat, len: nat) -> nat {
    let end = spec_window_start(requested, len) + ITEMS_PER_PAGE as nat;
    if end <= len {
        end
    } else {
        len
    }
}

/// The records visible on the effective page, in snapshot order.
pub open spec fn spec_window(msgs: Seq<MessageModel>, requested: nat) -> Seq<MessageModel> {
    msgs.subrange(
        spec_window_start(requested, msgs.len()) as int,
        spec_window_end(requested, msgs.len()) as int,
    )
}

/// The window starts at or before the end of the list, so `spec_window` is a
/// well-formed subrange.
pub proof fn lemma_window_in_bounds(requested: nat, len: nat)
    ensures
        spec_window_start(requested, len) <= spec_window_end(requested, len) <= len,
{
    lemma_effective_page_in_range(requested, len);
    let eff = spec_effective_page(requested, len);
    let total = spec_total_pages(len);
    if len == 0 {
        assert(spec_window_start(requested, len) == 0);
    } else {
        assert(eff <= (len - 1) / 10);
        assert(eff * 10 <= (len - 1) / 10 * 10) by (nonlinear_arith)
            requires
                eff <= (len - 1) / 10,
        ;
        assert((len - 1) / 10 * 10 <= len - 1) by (nonlinear_arith)
            requires
                len >= 1,
        ;
    }
}

/// Total page count, as the engine computes it.
pub fn total_pages(len: usize) -> (r: usize)
    ensures
        r == spec_total_pages(len as nat),
{
    if len == 0 {
        1
    } else {
        (len - 1) / ITEMS_PER_PAGE + 1
    }
}

/// Clamp a requested page into the valid range for a list of `len` records.
pub fn effective_page(requested: usize, len: usize) -> (r: usize)
    ensures
        r == spec_effective_page(requested as nat, len as nat),
{
    let total = total_pages(len);
    if requested < total {
        requested
    } else {
        total - 1
    }
}

/// The visible window of the effective page, as a fresh snapshot.
pub fn page_window(msgs: &Vec<Message>, requested: usize) -> (r: Vec<Message>)
    ensures
        models_of(r@) == spec_window(models_of(msgs@), requested as nat),
{
    proof {
        lemma_window_in_bounds(requested as nat, msgs@.len());
    }
    let len = msgs.len();
    let eff = effective_page(requested, len);
    let start = eff * ITEMS_PER_PAGE;
    let end = if len - start < ITEMS_PER_PAGE {
        len
    } else {
        start + ITEMS_PER_PAGE
    };
    let mut out: Vec<Message> = Vec::new();
    let mut i: usize = start;
    while i < end
        invariant
            start <= i <= end,
            end <= msgs@.len(),
            out@.len() == i - start,
            forall|j: int| 0 <= j < out@.len() ==> out@[j]@ == msgs@[start + j]@,
        decreases end - i,
    {
        out.push(msgs[i].clone());
        i += 1;
    }
    proof {
        assert(models_of(out@) =~= spec_window(models_of(msgs@), requested as nat));
    }
    out
}

/// The effective page always lies within `[0, totalPages - 1]`.
pub proof fn lemma_effective_page_in_range(requested: nat, len: nat)
    ensures
        spec_effective_page(requested, len) < spec_total_pages(len),
        spec_total_pages(len) >= 1,
{
}

/// Clamping is monotone and idempotent: clamping the request to the last
/// page first does not change the effective page.
pub proof fn lemma_effective_page_clamp(requested: nat, len: nat)
    ensures
        spec_effective_page(requested, len) == spec_effective_page(
            spec_effective_page(requested, len),
            len,
        ),
        spec_effective_page(requested, len) == if requested
            < spec_total_pages(len) {
            requested
        } else {
            (spec_total_pages(len) - 1) as nat
        },
{
}

} // verus!
