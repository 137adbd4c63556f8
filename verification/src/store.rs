//! The in-memory block store: the authoritative contents of every block that
//! has been written this session.
//!
//! The store maps a logical block address to the 4096-byte block most
//! recently written for it. Entries are created or overwritten by writes and
//! never removed; an absent address means "unwritten, reads as all zeros".

use std::collections::HashMap;
use vstd::prelude::*;

use crate::codec::BLOCK_LEN;

verus! {

broadcast use vstd::std_specs::hash::group_hash_axioms;

/// The block store. Its view is the map from each written logical block
/// address to the bytes most recently stored for it.
pub struct BlockStore {
    blocks: HashMap<u64, Vec<u8>>,
}

impl View for BlockStore {
    type V = Map<u64, Seq<u8>>;

    closed spec fn view(&self) -> Map<u64, Seq<u8>> {
        Map::new(
            |lba: u64| self.blocks@.contains_key(lba),
            |lba: u64| self.blocks@[lba]@,
        )
    }
}

impl BlockStore {
    /// Every stored block holds exactly one block's worth of bytes.
    pub open spec fn wf(&self) -> bool {
        forall|lba: u64| #[trigger] self@.contains_key(lba) ==> self@[lba].len() == BLOCK_LEN
    }

    /// Creates an empty store: no address has been written.
    pub fn new() -> (s: BlockStore)
        ensures
            s@ == Map::<u64, Seq<u8>>::empty(),
            s.wf(),
    {
        let s = BlockStore { blocks: HashMap::new() };
        proof {
            assert(s@ =~= Map::<u64, Seq<u8>>::empty());
        }
        s
    }

    /// Looks a block up. `None` means the address was never written; that is
    /// not an error, the caller treats it as a zero-filled block.
    pub fn get(&self, lba: u64) -> (r: Option<&Vec<u8>>)
        ensures
            match r {
                Some(block) => self@.contains_key(lba) && block@ == self@[lba],
                None => !self@.contains_key(lba),
            },
    {
        self.blocks.get(&lba)
    }

    /// Inserts or overwrites the block for an address, unconditionally. The
    /// store grows without bound: nothing is ever evicted.
    pub fn put(&mut self, lba: u64, block: Vec<u8>)
        requires
            old(self).wf(),
            block@.len() == BLOCK_LEN,
        ensures
            final(self)@ == old(self)@.insert(lba, block@),
            final(self).wf(),
    {
        let ghost prior = self@;
        self.blocks.insert(lba, block);
        proof {
            assert(self@ =~= prior.insert(lba, block@));
        }
    }
}

} // verus!
