//! The registry's storage: a map from the bytes of a claim to its owner and the block in
//! which it was last written.
use vstd::prelude::*;
use crate::claim::{Claim, MAX_CLAIM_LENGTH, claim_bytes, bounded_as_slice, bytes_equal};

verus! {

/// An account, as the runtime identifies it.
pub type AccountId = u64;

/// The number of a block.
pub type BlockNumber = u64;

/// What is recorded of a claim: its owner and the block in which it was recorded.
pub type Proof = (AccountId, BlockNumber);

struct Entry {
    claim: Claim,
    owner: AccountId,
    block: BlockNumber,
}

spec fn entry_key(e: Entry) -> Seq<u8> {
    claim_bytes(e.claim)
}

/// The claims on record, each with its owner and block. No two entries hold the same bytes.
pub struct ProofStore {
    entries: Vec<Entry>,
    map: Ghost<Map<Seq<u8>, Proof>>,
}

impl View for ProofStore {
    type V = Map<Seq<u8>, Proof>;

    closed spec fn view(&self) -> Map<Seq<u8>, Proof> {
        self.map@
    }
}

impl ProofStore {
    /// The entries hold distinct claims, and the map is exactly what they record.
    pub closed spec fn wf(&self) -> bool {
        &&& forall|i: int, j: int|
            0 <= i < j < self.entries@.len() ==> entry_key(#[trigger] self.entries@[i])
                != entry_key(#[trigger] self.entries@[j])
        &&& forall|i: int|
            0 <= i < self.entries@.len() ==> {
                let e = #[trigger] self.entries@[i];
                &&& self.map@.contains_key(entry_key(e))
                &&& self.map@[entry_key(e)] == (e.owner, e.block)
            }
        &&& forall|k: Seq<u8>|
            #[trigger] self.map@.contains_key(k) ==> exists|i: int|
                0 <= i < self.entries@.len() && entry_key(#[trigger] self.entries@[i]) == k
        &&& forall|k: Seq<u8>| #[trigger] self.map@.contains_key(k) ==> k.len() <= MAX_CLAIM_LENGTH
    }

    /// Every claim on record is at most `MAX_CLAIM_LENGTH` bytes long.
    pub proof fn lemma_keys_bounded(&self)
        requires
            self.wf(),
        ensures
            forall|k: Seq<u8>| #[trigger] self@.contains_key(k) ==> k.len() <= MAX_CLAIM_LENGTH,
    {
    }

    /// An empty store.
    pub fn new() -> (r: ProofStore)
        ensures
            r.wf(),
            r@ == Map::<Seq<u8>, Proof>::empty(),
    {
        ProofStore { entries: Vec::new(), map: Ghost(Map::empty()) }
    }

    /// The index of the entry that holds `key`, if any.
    fn find(&self, key: &[u8]) -> (r: Option<usize>)
        requires
            self.wf(),
        ensures
            match r {
                Some(i) => i < self.entries@.len() && entry_key(self.entries@[i as int]) == key@,
                None => !self@.contains_key(key@),
            },
    {
        let mut i: usize = 0;
        while i < self.entries.len()
            invariant
                self.wf(),
                i <= self.entries@.len(),
                forall|j: int| 0 <= j < i ==> entry_key(#[trigger] self.entries@[j]) != key@,
            decreases self.entries@.len() - i,
        {
            if bytes_equal(bounded_as_slice(&self.entries[i].claim), key) {
                return Some(i);
            }
            i = i + 1;
        }
        proof {
            if self@.contains_key(key@) {
                let j = choose|j: int| 0 <= j < self.entries@.len() && entry_key(#[trigger] self.entries@[j]) == key@;
                assert(entry_key(self.entries@[j]) != key@);
            }
        }
        None
    }

    /// Whether `claim` is on record.
    pub fn contains_key(&self, claim: &Claim) -> (r: bool)
        requires
            self.wf(),
        ensures
            r == self@.contains_key(claim_bytes(*claim)),
    {
        self.find(bounded_as_slice(claim)).is_some()
    }

    /// The owner and block recorded for `claim`, if it is on record.
    pub fn get(&self, claim: &Claim) -> (r: Option<Proof>)
        requires
            self.wf(),
        ensures
            r == (if self@.contains_key(claim_bytes(*claim)) {
                Some(self@[claim_bytes(*claim)])
            } else {
                None
            }),
    {
        match self.find(bounded_as_slice(claim)) {
            Some(i) => {
                let e = &self.entries[i];
                Some((e.owner, e.block))
            },
            None => None,
        }
    }

    /// Records `proof` for `claim`, replacing what was recorded for the same bytes.
    pub fn insert(&mut self, claim: Claim, proof: Proof)
        requires
            old(self).wf(),
        ensures
            final(self).wf(),
            final(self)@ == old(self)@.insert(claim_bytes(claim), proof),
    {
        let ghost key = claim_bytes(claim);
        let found = self.find(bounded_as_slice(&claim));
        let entry = Entry { claim, owner: proof.0, block: proof.1 };
        match found {
            Some(i) => {
                self.entries.set(i, entry);
                proof {
                    self.map@ = self.map@.insert(key, proof);
                    assert forall|k: Seq<u8>| #[trigger] self.map@.contains_key(k) implies exists|j: int|
                        0 <= j < self.entries@.len() && entry_key(#[trigger] self.entries@[j]) == k by {
                        if k == key {
                            assert(entry_key(self.entries@[i as int]) == k);
                        } else {
                            let j = choose|j: int| 0 <= j < old(self).entries@.len() && entry_key(#[trigger] old(self).entries@[j]) == k;
                            assert(entry_key(self.entries@[j]) == k);
                        }
                    }
                }
            },
            None => {
                self.entries.push(entry);
                proof {
                    self.map@ = self.map@.insert(key, proof);
                    let n = self.entries@.len() - 1;
                    assert forall|k: Seq<u8>| #[trigger] self.map@.contains_key(k) implies exists|j: int|
                        0 <= j < self.entries@.len() && entry_key(#[trigger] self.entries@[j]) == k by {
                        if k == key {
                            assert(entry_key(self.entries@[n]) == k);
                        } else {
                            let j = choose|j: int| 0 <= j < old(self).entries@.len() && entry_key(#[trigger] old(self).entries@[j]) == k;
                            assert(entry_key(self.entries@[j]) == k);
                        }
                    }
                }
            },
        }
    }

    /// Removes what is recorded for `claim`, if anything.
    pub fn remove(&mut self, claim: &Claim)
        requires
            old(self).wf(),
        ensures
            final(self).wf(),
            final(self)@ == old(self)@.remove(claim_bytes(*claim)),
    {
        let ghost key = claim_bytes(*claim);
        match self.find(bounded_as_slice(claim)) {
            Some(i) => {
                let _ = self.entries.remove(i);
                proof {
                    self.map@ = self.map@.remove(key);
                    let old_e = old(self).entries@;
                    assert forall|a: int| 0 <= a < self.entries@.len() implies
                        #[trigger] self.entries@[a] == old_e[if a < i { a } else { a + 1 }] by {}
                    assert forall|k: Seq<u8>| #[trigger] self.map@.contains_key(k) implies exists|j: int|
                        0 <= j < self.entries@.len() && entry_key(#[trigger] self.entries@[j]) == k by {
                        let j = choose|j: int| 0 <= j < old_e.len() && entry_key(#[trigger] old_e[j]) == k;
                        assert(j != i);
                        if j < i {
                            assert(entry_key(self.entries@[j]) == k);
                        } else {
                            assert(entry_key(self.entries@[j - 1]) == k);
                        }
                    }
                    assert forall|a: int, b: int| 0 <= a < b < self.entries@.len() implies
                        entry_key(#[trigger] self.entries@[a]) != entry_key(#[trigger] self.entries@[b]) by {
                        let a2 = if a < i { a } else { a + 1 };
                        let b2 = if b < i { b } else { b + 1 };
                        assert(self.entries@[a] == old_e[a2]);
                        assert(self.entries@[b] == old_e[b2]);
                    }
                    assert forall|a: int| 0 <= a < self.entries@.len() implies {
                        let e = #[trigger] self.entries@[a];
                        &&& self.map@.contains_key(entry_key(e))
                        &&& self.map@[entry_key(e)] == (e.owner, e.block)
                    } by {
                        let a2 = if a < i { a } else { a + 1 };
                        assert(self.entries@[a] == old_e[a2]);
                        assert(entry_key(old_e[a2]) != entry_key(old_e[i as int]));
                    }
                }
            },
            None => {
                proof {
                    assert(self.map@ =~= self.map@.remove(key));
                }
            },
        }
    }
}

} // verus!
