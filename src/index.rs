use vstd::prelude::*;

use crate::model::{BlockReference, Decision, Edge, Log, ProposerSlotState};

verus! {

/// The status of the first decision at or after position `i` that names `r`,
/// or `Undecided` when none does.
pub open spec fn status_from(ds: Seq<Decision>, r: BlockReference, i: int) -> ProposerSlotState
    decreases ds.len() - i,
{
    if i < 0 || i >= ds.len() {
        ProposerSlotState::Undecided
    } else if ds[i].block.same_as(r) {
        ds[i].status
    } else {
        status_from(ds, r, i + 1)
    }
}

/// The status of block `r` after the decisions `ds`: that of the earliest decision
/// that names it, `Undecided` when none does.
pub open spec fn spec_status_of(ds: Seq<Decision>, r: BlockReference) -> ProposerSlotState {
    status_from(ds, r, 0)
}

/// The edge list cites the pair `a`, `b` in one direction or the other.
pub open spec fn cites(es: Seq<Edge>, a: Seq<char>, b: Seq<char>) -> bool {
    exists|k: int|
        0 <= k < es.len() && ((es[k].0@ == a && es[k].1@ == b) || (es[k].0@ == b && es[k].1@ == a))
}

/// The edges that a rationale cites as evidence, if it cites any.
pub open spec fn log_cites(log: Log, a: Seq<char>, b: Seq<char>) -> bool {
    match log {
        Log::DirectDecision(f) => cites(f.supporting_edges@, a, b),
        Log::IndirectDecision(f) => cites(f.edges@, a, b),
        _ => false,
    }
}

/// The edge between the blocks labelled `a` and `b` supports the most recent decision.
pub open spec fn spec_is_supporting_edge(ds: Seq<Decision>, a: Seq<char>, b: Seq<char>) -> bool {
    ds.len() > 0 && log_cites(ds.last().log, a, b)
}

/// The anchor label of the most recent decision, when it was reached indirectly.
pub open spec fn spec_anchor_label(ds: Seq<Decision>) -> Option<Seq<char>> {
    if ds.len() == 0 {
        None
    } else {
        match ds.last().log {
            Log::IndirectDecision(f) => Some(f.anchor@),
            _ => None,
        }
    }
}

/// The view of an optional label.
pub open spec fn label_view(o: Option<String>) -> Option<Seq<char>> {
    match o {
        Some(s) => Some(s@),
        None => None,
    }
}

/// Looks up the status of block `r`: the earliest decision that names it wins.
pub fn status_of(ds: &[Decision], r: &BlockReference) -> (s: ProposerSlotState)
    ensures
        s == spec_status_of(ds@, *r),
        (forall|j: int| 0 <= j < ds@.len() ==> !ds@[j].block.same_as(*r)) ==> s
            == ProposerSlotState::Undecided,
{
    let mut i: usize = 0;
    while i < ds.len()
        invariant
            i <= ds@.len(),
            status_from(ds@, *r, 0) == status_from(ds@, *r, i as int),
            forall|j: int| 0 <= j < i ==> !ds@[j].block.same_as(*r),
        decreases ds@.len() - i,
    {
        if ds[i].block == *r {
            return ds[i].status;
        }
        i = i + 1;
    }
    ProposerSlotState::Undecided
}

/// Whether `es` cites the pair `a`, `b` in either direction.
fn edges_cite(es: &Vec<Edge>, a: &String, b: &String) -> (r: bool)
    ensures
        r == cites(es@, a@, b@),
{
    let mut k: usize = 0;
    while k < es.len()
        invariant
            k <= es@.len(),
            forall|m: int|
                0 <= m < k ==> !((es@[m].0@ == a@ && es@[m].1@ == b@) || (es@[m].0@ == b@
                    && es@[m].1@ == a@)),
        decreases es@.len() - k,
    {
        let e = &es[k];
        if (e.0 == *a && e.1 == *b) || (e.0 == *b && e.1 == *a) {
            return true;
        }
        k = k + 1;
    }
    false
}

/// Whether the edge between the blocks labelled `a` and `b` is cited, in either
/// direction, by the most recent decision's certificate or anchor chain.
pub fn is_supporting_edge(ds: &[Decision], a: &String, b: &String) -> (r: bool)
    ensures
        r == spec_is_supporting_edge(ds@, a@, b@),
{
    if ds.len() == 0 {
        return false;
    }
    match &ds[ds.len() - 1].log {
        Log::DirectDecision(f) => edges_cite(&f.supporting_edges, a, b),
        Log::IndirectDecision(f) => edges_cite(&f.edges, a, b),
        _ => false,
    }
}

/// The anchor of the most recent decision, when that decision was indirect.
pub fn anchor_label(ds: &[Decision]) -> (r: Option<String>)
    ensures
        label_view(r) == spec_anchor_label(ds@),
{
    if ds.len() == 0 {
        return None;
    }
    match &ds[ds.len() - 1].log {
        Log::IndirectDecision(f) => Some(f.anchor.clone()),
        _ => None,
    }
}

} // verus!
