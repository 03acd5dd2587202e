//! The chain: an append-only sequence of records, each linked to the digest
//! of the one before it and sealed by the proof-of-work search.
use crate::block::Block;
use vstd::prelude::*;

verus! {

/// Default number of leading zero digits a digest must have.
pub const DEFAULT_DIFFICULTY: usize = 2;

/// Default number of attempts a search may fail before its last one.
pub const DEFAULT_ATTEMPT_CAP: u64 = 100;

/// The record `mined` is what the search makes of `before` under this
/// configuration: the same fields, the nonce where the search stops, and
/// the digest at that nonce.
pub open spec fn mined_from(before: Block, mined: Block, difficulty: nat, attempt_cap: nat) -> bool {
    &&& mined.index == before.index
    &&& mined.previous_hash@ == before.previous_hash@
    &&& mined.timestamp == before.timestamp
    &&& mined.data@ == before.data@
    &&& mined.nonce == before.search_end(before.nonce as nat, difficulty, attempt_cap)
    &&& mined.hash@ == mined.digest_at(mined.nonce as nat)
    &&& mined.hash@.len() == 64
}

/// A chain of records, starting with the genesis record.
pub struct Blockchain {
    chain: Vec<Block>,
    difficulty: usize,
    attempt_cap: u64,
}

impl View for Blockchain {
    type V = Seq<Block>;

    /// The records, in order of appending.
    closed spec fn view(&self) -> Seq<Block> {
        self.chain@
    }
}

impl Blockchain {
    /// The difficulty every record of this chain is mined with.
    pub closed spec fn spec_difficulty(&self) -> nat {
        self.difficulty as nat
    }

    /// The attempt cap every record of this chain is mined with.
    pub closed spec fn spec_attempt_cap(&self) -> nat {
        self.attempt_cap as nat
    }

    /// The chain holds a genesis record at index 0 with an empty
    /// predecessor digest, each later record holds the digest of the one
    /// before it, and each stored digest is the digest of its record's
    /// fields.
    pub closed spec fn wf(&self) -> bool {
        &&& self.chain@.len() >= 1
        &&& self.chain@[0].index == 0
        &&& self.chain@[0].previous_hash@ == Seq::<char>::empty()
        &&& self.chain@[0].data@ == "Genesis Block"@
        &&& forall|i: int|
            1 <= i < self.chain@.len() ==> (#[trigger] self.chain@[i]).previous_hash@
                == self.chain@[i - 1].hash@
        &&& forall|i: int|
            0 <= i < self.chain@.len() ==> (#[trigger] self.chain@[i]).hash@
                == self.chain@[i].digest_at(self.chain@[i].nonce as nat)
        &&& forall|i: int| 0 <= i < self.chain@.len() ==> (#[trigger] self.chain@[i]).hash@.len() == 64
    }

    /// A chain whose only record is the genesis record, created now and
    /// mined with `difficulty` and `attempt_cap`.
    pub fn new(difficulty: usize, attempt_cap: u64) -> (c: Blockchain)
        ensures
            c.wf(),
            c.spec_difficulty() == difficulty,
            c.spec_attempt_cap() == attempt_cap,
            c@.len() == 1,
            c@[0].index == 0,
            c@[0].previous_hash@ == Seq::<char>::empty(),
            c@[0].data@ == "Genesis Block"@,
            c@[0].nonce == c@[0].search_end(0, difficulty as nat, attempt_cap as nat),
            c@[0].hash@ == c@[0].digest_at(c@[0].nonce as nat),
            c@[0].hash@.len() == 64,
    {
        let mut genesis = Block::new(0, String::new(), String::from_str("Genesis Block"));
        let _ = genesis.mine_block(difficulty, attempt_cap);
        let chain = vec![genesis];
        Blockchain { chain, difficulty, attempt_cap }
    }

    /// Links `new_block` to the current last record, mines it and appends
    /// it. Its index is kept as given.
    pub fn add_block(&mut self, new_block: Block)
        requires
            old(self).wf(),
            new_block.nonce + old(self).spec_attempt_cap() <= u64::MAX,
        ensures
            final(self).wf(),
            final(self).spec_difficulty() == old(self).spec_difficulty(),
            final(self).spec_attempt_cap() == old(self).spec_attempt_cap(),
            final(self)@.len() == old(self)@.len() + 1,
            final(self)@.drop_last() == old(self)@,
            final(self)@.last().previous_hash@ == old(self)@.last().hash@,
            forall|i: int|
                1 <= i < final(self)@.len() ==> (#[trigger] final(self)@[i]).previous_hash@
                    == final(self)@[i - 1].hash@,
            mined_from(
                Block { previous_hash: final(self)@.last().previous_hash, ..new_block },
                final(self)@.last(),
                old(self).spec_difficulty(),
                old(self).spec_attempt_cap(),
            ),
    {
        let mut new_block = new_block;
        let last = self.chain.len() - 1;
        new_block.previous_hash = self.chain[last].hash.clone();
        let _ = new_block.mine_block(self.difficulty, self.attempt_cap);
        self.chain.push(new_block);
        assert(self.chain@.drop_last() =~= old(self).chain@);
    }

    /// The records, in order of appending.
    pub fn blocks(&self) -> (r: &Vec<Block>)
        ensures
            r@ == self@,
    {
        &self.chain
    }

    /// The difficulty every record of this chain is mined with.
    pub fn difficulty(&self) -> (r: usize)
        ensures
            r == self.spec_difficulty(),
    {
        self.difficulty
    }

    /// The attempt cap every record of this chain is mined with.
    pub fn attempt_cap(&self) -> (r: u64)
        ensures
            r == self.spec_attempt_cap(),
    {
        self.attempt_cap
    }

    /// The number of records.
    pub fn get_total_blocks(&self) -> (n: usize)
        ensures
            n == self@.len(),
    {
        self.chain.len()
    }
}

/// Every record after the first holds the digest of the record before it.
pub proof fn lemma_linkage(c: &Blockchain)
    requires
        c.wf(),
    ensures
        forall|i: int| 1 <= i < c@.len() ==> (#[trigger] c@[i]).previous_hash@ == c@[i - 1].hash@,
{
}

/// The first record of a chain is the genesis record: index 0, an empty
/// predecessor digest and the genesis payload.
pub proof fn lemma_genesis(c: &Blockchain)
    requires
        c.wf(),
    ensures
        c@.len() >= 1,
        c@[0].index == 0,
        c@[0].previous_hash@ == Seq::<char>::empty(),
        c@[0].data@ == "Genesis Block"@,
{
}

/// Every stored digest is the digest of its record's fields at its nonce,
/// so recomputing it gives the stored value back, and it is 64 characters
/// long.
pub proof fn lemma_digests_reproduce(c: &Blockchain)
    requires
        c.wf(),
    ensures
        forall|i: int| 0 <= i < c@.len() ==> (#[trigger] c@[i]).hash@ == c@[i].digest_at(c@[i].nonce as nat),
        forall|i: int| 0 <= i < c@.len() ==> (#[trigger] c@[i]).hash@.len() == 64,
{
}

} // verus!
