use vstd::prelude::*;

verus! {

/// Identity of a block: the proposing authority, the round, and a display label.
#[derive(Clone, Debug)]
pub struct BlockReference {
    pub authority: i64,
    pub round: i64,
    pub label: String,
}

impl BlockReference {
    /// Two references name the same block when all three fields agree.
    pub open spec fn same_as(self, other: BlockReference) -> bool {
        &&& self.authority == other.authority
        &&& self.round == other.round
        &&& self.label@ == other.label@
    }

    /// The proposer slot that the block occupies.
    pub open spec fn slot(self) -> (i64, i64) {
        (self.round, self.authority)
    }
}

impl PartialEq for BlockReference {
    fn eq(&self, other: &BlockReference) -> (r: bool) {
        self.authority == other.authority && self.round == other.round && self.label == other.label
    }
}

impl vstd::std_specs::cmp::PartialEqSpecImpl for BlockReference {
    open spec fn obeys_eq_spec() -> bool {
        true
    }

    open spec fn eq_spec(&self, other: &BlockReference) -> bool {
        self.same_as(*other)
    }
}

/// The verdict on a proposer slot.
#[derive(Clone, Copy, Debug, PartialEq, Eq, Structural)]
pub enum ProposerSlotState {
    Commit,
    Skip,
    Undecided,
}

/// A proposed block and the blocks it causally depends on.
#[derive(Clone, Debug)]
pub struct StatementBlock {
    pub reference: BlockReference,
    pub parents: Vec<BlockReference>,
}

/// A causal edge cited in a decision, as a pair of block labels.
pub type Edge = (String, String);

/// Evidence of a decision reached by direct certification.
#[derive(Clone, Debug)]
pub struct DirectDecisionFields {
    pub certificate_blocks: Vec<String>,
    pub supporting_edges: Vec<Edge>,
}

/// Evidence of a decision reached through an anchor block.
#[derive(Clone, Debug)]
pub struct IndirectDecisionFields {
    pub anchor: String,
    pub edges: Vec<Edge>,
}

/// Why a decision was taken.
#[derive(Clone, Debug)]
pub enum Log {
    IncompleteWave,
    DirectDecision(DirectDecisionFields),
    IndirectDecision(IndirectDecisionFields),
    Error,
    UnableToDecide,
}

/// A decision on a proposer slot: its status, the block it concerns, and its log.
#[derive(Clone, Debug)]
pub struct Decision {
    pub status: ProposerSlotState,
    pub block: BlockReference,
    pub log: Log,
}

} // verus!
