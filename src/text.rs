use vstd::prelude::*;

use crate::model::{Edge, Log, ProposerSlotState};

verus! {

/// What `{:?}` renders for a string: the text quoted, with its special characters escaped.
pub uninterp spec fn debug_str(s: Seq<char>) -> Seq<char>;

/// Relies on the `Debug` impl of `str` (through `String`): the rendering depends
/// on the characters alone.
#[verifier::external_body]
pub(crate) fn quoted(s: &String) -> (r: String)
    ensures
        r@ == debug_str(s@),
{
    format!("{:?}", s)
}

/// The parts separated by `", "`.
pub open spec fn joined(parts: Seq<Seq<char>>) -> Seq<char>
    decreases parts.len(),
{
    if parts.len() == 0 {
        Seq::empty()
    } else if parts.len() == 1 {
        parts[0]
    } else {
        joined(parts.drop_last()) + ", "@ + parts.last()
    }
}

/// The parts as a bracketed list, as `{:?}` renders a vector.
pub open spec fn list_text(parts: Seq<Seq<char>>) -> Seq<char> {
    "["@ + joined(parts) + "]"@
}

/// An edge as `{:?}` renders a pair of strings.
pub open spec fn edge_text(e: Edge) -> Seq<char> {
    "("@ + debug_str(e.0@) + ", "@ + debug_str(e.1@) + ")"@
}

pub open spec fn label_texts(ls: Seq<String>) -> Seq<Seq<char>> {
    ls.map_values(|l: String| debug_str(l@))
}

pub open spec fn edge_texts(es: Seq<Edge>) -> Seq<Seq<char>> {
    es.map_values(|e: Edge| edge_text(e))
}

/// The human-readable rendering of a rationale.
pub open spec fn log_text(log: Log) -> Seq<char> {
    match log {
        Log::IncompleteWave => "IncompleteWave"@,
        Log::DirectDecision(f) => "DirectDecision, certificate blocks: "@ + list_text(
            label_texts(f.certificate_blocks@),
        ),
        Log::IndirectDecision(f) => "IndirectDecision, anchor: "@ + f.anchor@ + ", edges: "@
            + list_text(edge_texts(f.edges@)),
        Log::Error => "Error"@,
        Log::UnableToDecide => "UnableToDecide"@,
    }
}

/// The name of a status.
pub open spec fn status_text(s: ProposerSlotState) -> Seq<char> {
    match s {
        ProposerSlotState::Commit => "Commit"@,
        ProposerSlotState::Skip => "Skip"@,
        ProposerSlotState::Undecided => "Undecided"@,
    }
}

/// Renders the name of a status.
pub fn show_status(s: ProposerSlotState) -> (r: String)
    ensures
        r@ == status_text(s),
{
    match s {
        ProposerSlotState::Commit => String::from_str("Commit"),
        ProposerSlotState::Skip => String::from_str("Skip"),
        ProposerSlotState::Undecided => String::from_str("Undecided"),
    }
}

/// Renders labels as a bracketed list of quoted strings.
fn show_labels(ls: &Vec<String>) -> (r: String)
    ensures
        r@ == list_text(label_texts(ls@)),
{
    let mut out = String::from_str("[");
    let mut i: usize = 0;
    while i < ls.len()
        invariant
            i <= ls@.len(),
            out@ == "["@ + joined(label_texts(ls@).take(i as int)),
        decreases ls@.len() - i,
    {
        let q = quoted(&ls[i]);
        if i > 0 {
            out.append(", ");
        }
        out.append(q.as_str());
        proof {
            let ps = label_texts(ls@);
            assert(ps.take(i + 1).drop_last() =~= ps.take(i as int));
        }
        i = i + 1;
    }
    proof {
        assert(label_texts(ls@).take(ls@.len() as int) =~= label_texts(ls@));
    }
    out.append("]");
    out
}

/// Renders edges as a bracketed list of pairs of quoted strings.
fn show_edges(es: &Vec<Edge>) -> (r: String)
    ensures
        r@ == list_text(edge_texts(es@)),
{
    let mut out = String::from_str("[");
    let mut i: usize = 0;
    while i < es.len()
        invariant
            i <= es@.len(),
            out@ == "["@ + joined(edge_texts(es@).take(i as int)),
        decreases es@.len() - i,
    {
        let mut t = String::from_str("(");
        let a = quoted(&es[i].0);
        let b = quoted(&es[i].1);
        t.append(a.as_str());
        t.append(", ");
        t.append(b.as_str());
        t.append(")");
        if i > 0 {
            out.append(", ");
        }
        out.append(t.as_str());
        proof {
            let ps = edge_texts(es@);
            assert(ps.take(i + 1).drop_last() =~= ps.take(i as int));
        }
        i = i + 1;
    }
    proof {
        assert(edge_texts(es@).take(es@.len() as int) =~= edge_texts(es@));
    }
    out.append("]");
    out
}

/// Renders a decision's rationale: the variant name, with the certificate blocks of a
/// direct decision, or the anchor and edges of an indirect one.
pub fn show_log(log: &Log) -> (r: String)
    ensures
        r@ == log_text(*log),
{
    match log {
        Log::IncompleteWave => String::from_str("IncompleteWave"),
        Log::DirectDecision(f) => {
            let mut out = String::from_str("DirectDecision, certificate blocks: ");
            let ls = show_labels(&f.certificate_blocks);
            out.append(ls.as_str());
            out
        },
        Log::IndirectDecision(f) => {
            let mut out = String::from_str("IndirectDecision, anchor: ");
            out.append(f.anchor.as_str());
            out.append(", edges: ");
            let es = show_edges(&f.edges);
            out.append(es.as_str());
            out
        },
        Log::Error => String::from_str("Error"),
        Log::UnableToDecide => String::from_str("UnableToDecide"),
    }
}

} // verus!
