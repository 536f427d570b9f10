//! The hash algorithm interface.

use vstd::prelude::*;
use crate::alg_id::HashAlgId;

verus! {

/// A hashing algorithm.
///
/// Implementations describe their behaviour through the three spec
/// functions; the built-in algorithms define them, and the provider relies
/// on nothing else.
pub trait HashAlgorithm: Send + Sync {
    /// The numeric identifier of the algorithm.
    spec fn spec_id(&self) -> u8;

    /// The digest of `data`.
    spec fn spec_hash(&self, data: Seq<u8>) -> Seq<u8>;

    /// The digest of `data` with `prefix` in front of it.
    spec fn spec_hash_prefixed(&self, prefix: Seq<u8>, data: Seq<u8>) -> Seq<u8>;

    /// Returns the hash algorithm identifier.
    fn id(&self) -> (r: HashAlgId)
        ensures
            r@ == self.spec_id(),
    ;

    /// Computes the hash of the provided data.
    fn hash(&self, data: &[u8]) -> (r: crate::hash::Hash)
        ensures
            r@ == self.spec_hash(data@),
    ;

    /// Computes the hash of the provided data with a prefix.
    fn hash_prefixed(&self, prefix: &[u8], data: &[u8]) -> (r: crate::hash::Hash)
        ensures
            r@ == self.spec_hash_prefixed(prefix@, data@),
    ;
}

/// A boxed algorithm is the algorithm it holds.
impl<T: ?Sized + HashAlgorithm> HashAlgorithm for Box<T> {
    open spec fn spec_id(&self) -> u8 {
        (**self).spec_id()
    }

    open spec fn spec_hash(&self, data: Seq<u8>) -> Seq<u8> {
        (**self).spec_hash(data)
    }

    open spec fn spec_hash_prefixed(&self, prefix: Seq<u8>, data: Seq<u8>) -> Seq<u8> {
        (**self).spec_hash_prefixed(prefix, data)
    }

    fn id(&self) -> (r: HashAlgId) {
        (**self).id()
    }

    fn hash(&self, data: &[u8]) -> (r: crate::hash::Hash) {
        (**self).hash(data)
    }

    fn hash_prefixed(&self, prefix: &[u8], data: &[u8]) -> (r: crate::hash::Hash) {
        (**self).hash_prefixed(prefix, data)
    }
}

} // verus!
