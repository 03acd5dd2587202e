//! A record of the chain, its digest and the proof-of-work search that
//! seals it.
use crate::encoding::{decimal, lower_hex, push_decimal, sha256, sha256_of, to_lower_hex};
use vstd::prelude::*;
use vstd::utf8::encode_utf8;

verus! {

/// How a proof-of-work search ended.
#[derive(Debug, Clone, Copy, PartialEq, Eq, Structural)]
pub enum MineOutcome {
    /// A digest with the required leading zeros was found.
    Found,
    /// The attempt cap ran out; the last digest computed stays in place.
    GaveUp,
}

/// The canonical text of a record: its fields written one after the other,
/// integers in decimal, with no delimiters.
pub open spec fn canonical_form(
    index: nat,
    previous_hash: Seq<char>,
    timestamp: nat,
    data: Seq<char>,
    nonce: nat,
) -> Seq<char> {
    decimal(index) + previous_hash + decimal(timestamp) + data + decimal(nonce)
}

/// The digest of a record with these fields: the lowercase hexadecimal
/// SHA-256 digest of the UTF-8 bytes of its canonical text.
pub open spec fn digest_of(
    index: nat,
    previous_hash: Seq<char>,
    timestamp: nat,
    data: Seq<char>,
    nonce: nat,
) -> Seq<char> {
    lower_hex(sha256_of(encode_utf8(canonical_form(index, previous_hash, timestamp, data, nonce))))
}

/// A digest meets a difficulty when it is non-empty and its first
/// `difficulty` characters are all `'0'`.
pub open spec fn has_leading_zeros(hash: Seq<char>, difficulty: nat) -> bool {
    &&& hash.len() > 0
    &&& difficulty <= hash.len()
    &&& forall|i: int| 0 <= i < difficulty ==> hash[i] == '0'
}

/// The nonce at which a search over a record with these fields stops when
/// it starts at `nonce` with `remaining` more attempts allowed after the
/// first: the first nonce whose digest meets `difficulty`, or the last one
/// allowed.
pub open spec fn search_stop(
    index: nat,
    previous_hash: Seq<char>,
    timestamp: nat,
    data: Seq<char>,
    nonce: nat,
    difficulty: nat,
    remaining: nat,
) -> nat
    decreases remaining,
{
    if has_leading_zeros(digest_of(index, previous_hash, timestamp, data, nonce), difficulty)
        || remaining == 0 {
        nonce
    } else {
        search_stop(index, previous_hash, timestamp, data, nonce + 1, difficulty, (remaining - 1) as nat)
    }
}

/// Tells whether `hash` meets `difficulty`.
pub fn meets_difficulty(hash: &String, difficulty: usize) -> (r: bool)
    ensures
        r == has_leading_zeros(hash@, difficulty as nat),
{
    let s = hash.as_str();
    let n = s.unicode_len();
    if n == 0 || difficulty > n {
        return false;
    }
    let mut i: usize = 0;
    while i < difficulty
        invariant
            difficulty <= n == s@.len(),
            s@ == hash@,
            i <= difficulty,
            forall|j: int| 0 <= j < i ==> s@[j] == '0',
        decreases difficulty - i,
    {
        if s.get_char(i) != '0' {
            return false;
        }
        i = i + 1;
    }
    true
}

/// Relies on std's `SystemTime::now` and `duration_since(UNIX_EPOCH)`: the
/// current wall-clock time in whole seconds since the Unix epoch, or `None`
/// when the clock reads earlier than the epoch.
#[verifier::external_body]
fn seconds_since_epoch() -> (r: Option<u64>) {
    std::time::SystemTime::now().duration_since(std::time::UNIX_EPOCH).ok().map(|d| d.as_secs())
}

/// A record of the chain.
pub struct Block {
    /// Position in the chain; 0 is the genesis record.
    pub index: u32,
    /// Digest of the record before this one; empty for the genesis record.
    pub previous_hash: String,
    /// Creation time, in seconds since the Unix epoch.
    pub timestamp: u64,
    /// Opaque payload.
    pub data: String,
    /// Counter varied by the proof-of-work search.
    pub nonce: u64,
    /// Digest at the nonce where the search stopped; empty before mining.
    pub hash: String,
}

impl Block {
    /// The digest of this record's fields, with `nonce` in place of its own.
    pub open spec fn digest_at(&self, nonce: nat) -> Seq<char> {
        digest_of(self.index as nat, self.previous_hash@, self.timestamp as nat, self.data@, nonce)
    }

    /// The nonce at which a search over this record that starts at
    /// `nonce`, with `remaining` more attempts allowed after the first,
    /// stops.
    pub open spec fn search_end(&self, nonce: nat, difficulty: nat, remaining: nat) -> nat {
        search_stop(
            self.index as nat,
            self.previous_hash@,
            self.timestamp as nat,
            self.data@,
            nonce,
            difficulty,
            remaining,
        )
    }

    /// The search stops within the allowed range, every nonce before the
    /// stopping one fails, and it stops early only on a digest that meets
    /// the difficulty.
    pub proof fn lemma_search_end(&self, nonce: nat, difficulty: nat, remaining: nat)
        ensures
            nonce <= self.search_end(nonce, difficulty, remaining) <= nonce + remaining,
            forall|n: nat|
                nonce <= n < self.search_end(nonce, difficulty, remaining) ==> !has_leading_zeros(
                    #[trigger] self.digest_at(n),
                    difficulty,
                ),
            self.search_end(nonce, difficulty, remaining) < nonce + remaining ==> has_leading_zeros(
                self.digest_at(self.search_end(nonce, difficulty, remaining)),
                difficulty,
            ),
        decreases remaining,
    {
        if !has_leading_zeros(self.digest_at(nonce), difficulty) && remaining > 0 {
            self.lemma_search_end(nonce + 1, difficulty, (remaining - 1) as nat);
        }
    }

    /// A record created now, with nonce 0 and an empty digest. A clock that
    /// reads before the Unix epoch gives the timestamp 0.
    pub fn new(index: u32, previous_hash: String, data: String) -> (b: Block)
        ensures
            b.index == index,
            b.previous_hash@ == previous_hash@,
            b.data@ == data@,
            b.nonce == 0,
            b.hash@ == Seq::<char>::empty(),
    {
        let timestamp = match seconds_since_epoch() {
            Some(t) => t,
            None => 0,
        };
        Block::with_timestamp(index, previous_hash, data, timestamp)
    }

    /// A record created at `timestamp`, with nonce 0 and an empty digest.
    pub fn with_timestamp(index: u32, previous_hash: String, data: String, timestamp: u64) -> (b:
        Block)
        ensures
            b.index == index,
            b.previous_hash@ == previous_hash@,
            b.timestamp == timestamp,
            b.data@ == data@,
            b.nonce == 0,
            b.hash@ == Seq::<char>::empty(),
    {
        Block { index, previous_hash, timestamp, data, nonce: 0, hash: String::new() }
    }

    /// The digest of this record's current fields.
    pub fn calculate_hash(&self) -> (r: String)
        ensures
            r@ == self.digest_at(self.nonce as nat),
            r@.len() == 64,
    {
        let mut text = String::new();
        push_decimal(&mut text, self.index as u64);
        text.append(self.previous_hash.as_str());
        push_decimal(&mut text, self.timestamp);
        text.append(self.data.as_str());
        push_decimal(&mut text, self.nonce);
        assert(text@ =~= canonical_form(
            self.index as nat,
            self.previous_hash@,
            self.timestamp as nat,
            self.data@,
            self.nonce as nat,
        ));
        let digest = sha256(text.as_str().as_bytes());
        to_lower_hex(digest.as_slice())
    }
    /// Runs the proof-of-work search: computes the digest at the current
    /// nonce and stores it; stops on a digest that meets `difficulty`, or
    /// gives up once `attempt_cap + 1` attempts have failed; otherwise moves
    /// to the next nonce and tries again. On giving up the last digest stays
    /// in place.
    pub fn mine_block(&mut self, difficulty: usize, attempt_cap: u64) -> (r: MineOutcome)
        requires
            old(self).nonce + attempt_cap <= u64::MAX,
        ensures
            final(self).index == old(self).index,
            final(self).previous_hash@ == old(self).previous_hash@,
            final(self).timestamp == old(self).timestamp,
            final(self).data@ == old(self).data@,
            final(self).nonce == old(self).search_end(
                old(self).nonce as nat,
                difficulty as nat,
                attempt_cap as nat,
            ),
            final(self).hash@ == final(self).digest_at(final(self).nonce as nat),
            final(self).hash@.len() == 64,
            old(self).nonce <= final(self).nonce <= old(self).nonce + attempt_cap,
            forall|n: nat|
                old(self).nonce <= n < final(self).nonce ==> !has_leading_zeros(
                    #[trigger] old(self).digest_at(n),
                    difficulty as nat,
                ),
            r == MineOutcome::Found <==> has_leading_zeros(final(self).hash@, difficulty as nat),
            r == MineOutcome::GaveUp ==> final(self).nonce == old(self).nonce + attempt_cap,
            difficulty == 0 ==> r == MineOutcome::Found && final(self).nonce == old(self).nonce,
            difficulty > 64 ==> r == MineOutcome::GaveUp,
    {
        proof {
            old(self).lemma_search_end(old(self).nonce as nat, difficulty as nat, attempt_cap as nat);
        }
        let mut attempts: u64 = 0;
        loop
            invariant
                self.index == old(self).index,
                self.previous_hash@ == old(self).previous_hash@,
                self.timestamp == old(self).timestamp,
                self.data@ == old(self).data@,
                attempts <= attempt_cap,
                self.hash@.len() == 64 || attempts == 0,
                difficulty == 0 ==> attempts == 0,
                self.nonce == old(self).nonce + attempts,
                old(self).nonce + attempt_cap <= u64::MAX,
                old(self).search_end(old(self).nonce as nat, difficulty as nat, attempt_cap as nat)
                    == old(self).search_end(
                    self.nonce as nat,
                    difficulty as nat,
                    (attempt_cap - attempts) as nat,
                ),
                forall|n: nat|
                    old(self).nonce <= n < self.nonce ==> !has_leading_zeros(
                        #[trigger] old(self).digest_at(n),
                        difficulty as nat,
                    ),
            decreases attempt_cap - attempts,
        {
            self.hash = self.calculate_hash();
            if meets_difficulty(&self.hash, difficulty) {
                return MineOutcome::Found;
            }
            if attempts >= attempt_cap {
                return MineOutcome::GaveUp;
            }
            attempts = attempts + 1;
            self.nonce = self.nonce + 1;
        }
    }
}

/// The digest is a function of the fields alone: two records that agree on
/// index, predecessor digest, creation time, payload and nonce have the same
/// digest, whatever else they hold.
pub proof fn lemma_digest_deterministic(a: Block, b: Block)
    requires
        a.index == b.index,
        a.previous_hash@ == b.previous_hash@,
        a.timestamp == b.timestamp,
        a.data@ == b.data@,
        a.nonce == b.nonce,
    ensures
        a.digest_at(a.nonce as nat) == b.digest_at(b.nonce as nat),
{
}

} // verus!
