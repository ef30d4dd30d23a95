use vstd::prelude::*;

use crate::model::{Decision, StatementBlock};

verus! {

/// The blocks of one trace step, at most one per proposer slot `(round, authority)`,
/// kept in the order in which their slots were first filled.
pub struct BlockStore {
    blocks: Vec<StatementBlock>,
}

/// No two blocks occupy the same slot.
pub open spec fn slots_unique(bs: Seq<StatementBlock>) -> bool {
    forall|i: int, j: int|
        0 <= i < bs.len() && 0 <= j < bs.len() && i != j ==> bs[i].reference.slot()
            != bs[j].reference.slot()
}

impl View for BlockStore {
    type V = Seq<StatementBlock>;

    closed spec fn view(&self) -> Seq<StatementBlock> {
        self.blocks@
    }
}

impl BlockStore {
    pub open spec fn wf(&self) -> bool {
        slots_unique(self@)
    }

    /// An empty store.
    pub fn new() -> (s: BlockStore)
        ensures
            s@ == Seq::<StatementBlock>::empty(),
            s.wf(),
    {
        BlockStore { blocks: Vec::new() }
    }

    /// Puts `block` in its slot, replacing the block that held that slot before.
    pub fn insert(&mut self, block: StatementBlock)
        requires
            old(self).wf(),
        ensures
            final(self).wf(),
            forall|i: int|
                0 <= i < old(self)@.len() && old(self)@[i].reference.slot() == block.reference.slot()
                    ==> final(self)@ == old(self)@.update(i, block),
            (forall|i: int|
                0 <= i < old(self)@.len() ==> old(self)@[i].reference.slot()
                    != block.reference.slot()) ==> final(self)@ == old(self)@.push(block),
    {
        let mut i: usize = 0;
        while i < self.blocks.len()
            invariant
                self.blocks == old(self).blocks,
                slots_unique(self.blocks@),
                i <= self.blocks@.len(),
                forall|j: int| 0 <= j < i ==> self.blocks@[j].reference.slot() != block.reference.slot(),
            decreases self.blocks@.len() - i,
        {
            let r = &self.blocks[i].reference;
            if r.round == block.reference.round && r.authority == block.reference.authority {
                self.blocks.set(i, block);
                proof {
                    assert(old(self).blocks@[i as int].reference.slot() == block.reference.slot());
                    assert(self.blocks@ =~= old(self).blocks@.update(i as int, block));
                }
                return;
            }
            i = i + 1;
        }
        self.blocks.push(block);
    }

    /// The blocks, in slot order of first insertion.
    pub fn blocks(&self) -> (r: &Vec<StatementBlock>)
        ensures
            r@ == self@,
    {
        &self.blocks
    }

    /// The number of filled slots.
    pub fn len(&self) -> (n: usize)
        ensures
            n == self@.len(),
    {
        self.blocks.len()
    }
}

/// One step of a trace: the decisions taken so far, oldest first, and the blocks.
pub struct State {
    pub decisions: Vec<Decision>,
    pub blocks: BlockStore,
}

} // verus!
