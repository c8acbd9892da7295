//! Content hashes.

use vstd::prelude::*;

verus! {

/// A 32-byte content hash: a state root, a transaction hash or a receipt id.
#[derive(Clone, Copy, Debug, PartialEq, Eq, Hash)]
pub struct CryptoHash(pub [u8; 32]);

impl View for CryptoHash {
    type V = Seq<u8>;

    open spec fn view(&self) -> Seq<u8> {
        self.0@
    }
}

impl DeepView for CryptoHash {
    type V = Seq<u8>;

    open spec fn deep_view(&self) -> Seq<u8> {
        self@
    }
}

/// The all-zero hash, as a sequence of bytes.
pub open spec fn zero_hash() -> Seq<u8> {
    Seq::new(32, |i: int| 0u8)
}

impl Default for CryptoHash {
    fn default() -> (r: Self)
        ensures
            r@ == zero_hash(),
    {
        let r = CryptoHash([0u8; 32]);
        assert(r@ =~= zero_hash());
        r
    }
}

} // verus!
