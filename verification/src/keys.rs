//! Public authority keys and the local key custody.
//!
//! A key is modelled by its raw bytes. The custody holds the keys the
//! local node can sign with; the slot claimer only ever asks whether a
//! given authority key is held, so the custody's view is the set of held
//! key byte strings.

use vstd::prelude::*;

verus! {

/// An authority's public key, as raw bytes.
#[derive(Clone, Debug, PartialEq, Eq)]
pub struct PublicKey {
    pub bytes: Vec<u8>,
}

impl View for PublicKey {
    type V = Seq<u8>;

    open spec fn view(&self) -> Seq<u8> {
        self.bytes@
    }
}

impl PublicKey {
    pub fn new(bytes: Vec<u8>) -> (r: PublicKey)
        ensures
            r@ == bytes@,
    {
        PublicKey { bytes }
    }

    /// Byte-for-byte equality of two keys.
    pub fn key_eq(&self, other: &PublicKey) -> (r: bool)
        ensures
            r == (self@ == other@),
    {
        if self.bytes.len() != other.bytes.len() {
            assert(self@.len() != other@.len());
            return false;
        }
        let n = self.bytes.len();
        let mut i: usize = 0;
        while i < n
            invariant
                n == self.bytes.len(),
                n == other.bytes.len(),
                i <= n,
                forall|j: int| 0 <= j < i ==> self.bytes@[j] == other.bytes@[j],
            decreases n - i,
        {
            if self.bytes[i] != other.bytes[i] {
                return false;
            }
            i = i + 1;
        }
        assert(self@ =~= other@);
        true
    }
}

/// An authority list by its mathematical value: each key as its bytes,
/// in order.
pub open spec fn keys_view(keys: Seq<PublicKey>) -> Seq<Seq<u8>> {
    keys.map_values(|k: PublicKey| k@)
}

/// The set of keys the local node holds and can sign with.
#[derive(Clone, Debug)]
pub struct KeyCustody {
    pub keys: Vec<PublicKey>,
}

impl View for KeyCustody {
    type V = Set<Seq<u8>>;

    open spec fn view(&self) -> Set<Seq<u8>> {
        Set::new(|s: Seq<u8>| exists|i: int| 0 <= i < self.keys@.len() && self.keys@[i]@ == s)
    }
}

impl KeyCustody {
    pub fn new(keys: Vec<PublicKey>) -> (r: KeyCustody)
        ensures
            r == (KeyCustody { keys }),
    {
        KeyCustody { keys }
    }

    /// Whether `key` is among the held keys.
    pub fn holds(&self, key: &PublicKey) -> (r: bool)
        ensures
            r == self@.contains(key@),
    {
        let n = self.keys.len();
        let mut i: usize = 0;
        while i < n
            invariant
                n == self.keys.len(),
                i <= n,
                forall|j: int| 0 <= j < i ==> self.keys@[j]@ != key@,
            decreases n - i,
        {
            if self.keys[i].key_eq(key) {
                assert(self@.contains(key@));
                return true;
            }
            i = i + 1;
        }
        assert(!self@.contains(key@));
        false
    }
}

} // verus!
