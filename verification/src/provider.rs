//! The hash provider: a registry of hash algorithms by identifier.

use vstd::prelude::*;
use std::collections::HashMap;
use crate::alg_id::{HashAlgId, HashProviderError};
use crate::algorithm::HashAlgorithm;
use crate::digests::{Blake2s, Blake3, Keccak256, Sha256};
use crate::poseidon2::sponge::Poseidon2;

verus! {

/// The registered algorithms, keyed by the numeric identifier.
///
/// Verus does not carry the specifications of `HashMap` over to maps whose
/// values are trait objects, so the map is held here, opaque, and described
/// by [`table_alg_ids`].
#[verifier::external_body]
pub struct AlgorithmTable {
    algs: HashMap<u8, Box<dyn HashAlgorithm>>,
}

/// What the specifications know of an algorithm: the identifier it reports,
/// its digest function and its prefixed digest function.
pub type AlgorithmModel = (u8, spec_fn(Seq<u8>) -> Seq<u8>, spec_fn(Seq<u8>, Seq<u8>) -> Seq<u8>);

/// The model of the algorithm `a`.
pub open spec fn model_of<A: ?Sized + HashAlgorithm>(a: &A) -> AlgorithmModel {
    (
        a.spec_id(),
        |data: Seq<u8>| a.spec_hash(data),
        |prefix: Seq<u8>, data: Seq<u8>| a.spec_hash_prefixed(prefix, data),
    )
}

/// What the table holds: for each key under which an algorithm is
/// registered, the model of the registered algorithm.
pub uninterp spec fn table_alg_ids(t: AlgorithmTable) -> Map<u8, AlgorithmModel>;

/// No registrations at all.
pub open spec fn no_algorithms() -> Map<u8, AlgorithmModel> {
    Map::empty()
}

/// `HashMap::new`: the table starts empty.
#[verifier::external_body]
fn table_new() -> (table: AlgorithmTable)
    ensures
        table_alg_ids(table) == no_algorithms(),
{
    AlgorithmTable { algs: HashMap::new() }
}

/// `HashMap::insert`: `alg`, boxed, is registered under `id`, replacing any
/// earlier entry under `id`, and every other entry is kept. The contract
/// claims exactly that, over the models of the algorithms.
#[verifier::external_body]
fn table_insert<A: HashAlgorithm + 'static>(t: &mut AlgorithmTable, id: u8, alg: A)
    ensures
        table_alg_ids(*final(t)) == table_alg_ids(*old(t)).insert(id, model_of(&alg)),
{
    t.algs.insert(id, Box::new(alg));
}

/// `HashMap::get`: the algorithm registered under `id`, or the error that
/// names `id` when there is none. The contract claims that the entry is
/// found exactly when `id` is a key, and that the algorithm found is the one
/// recorded for that key.
///
/// The `Option` that `HashMap::get` returns is turned into the `Result` here
/// because Verus keeps what it knows of a `&dyn` value only while the value
/// is not put into a new enum.
#[verifier::external_body]
fn table_get<'a>(t: &'a AlgorithmTable, id: &HashAlgId) -> (r: Result<
    &'a dyn HashAlgorithm,
    HashProviderError,
>)
    ensures
        r is Ok <==> table_alg_ids(*t).contains_key(id@),
        r matches Ok(a) ==> model_of(a) == table_alg_ids(*t)[id@],
        r matches Err(e) ==> e.0 == *id,
{
    t.algs.get(&id.as_u8()).map(|alg| &**alg).ok_or(HashProviderError(*id))
}

/// Hash provider.
pub struct HashProvider {
    algs: AlgorithmTable,
}

/// The identifiers registered in the default provider: the five built-in
/// algorithms.
pub open spec fn default_algorithms() -> Set<u8> {
    set![1u8, 2u8, 3u8, 4u8, 5u8]
}

/// The default registrations: each built-in algorithm under its own
/// identifier.
pub open spec fn default_alg_ids() -> Map<u8, u8> {
    map![1u8 => 1u8, 2u8 => 2u8, 3u8 => 3u8, 4u8 => 4u8, 5u8 => 5u8]
}

impl HashProvider {
    /// For each identifier under which an algorithm is registered, the model
    /// of the registered algorithm.
    pub closed spec fn registry(&self) -> Map<u8, AlgorithmModel> {
        table_alg_ids(self.algs)
    }

    /// For each identifier under which an algorithm is registered, the
    /// identifier that the registered algorithm reports.
    pub closed spec fn alg_ids(&self) -> Map<u8, u8> {
        self.registry().map_values(|m: AlgorithmModel| m.0)
    }

    /// The identifiers under which an algorithm is registered.
    pub open spec fn algorithms(&self) -> Set<u8> {
        self.alg_ids().dom()
    }

    /// Sets a hash algorithm.
    ///
    /// This can be used to add or override implementations of hash algorithms.
    /// Any algorithm is accepted, a `Box<dyn HashAlgorithm>` among them.
    pub fn set_algorithm<A: HashAlgorithm + 'static>(&mut self, id: HashAlgId, algorithm: A)
        ensures
            final(self).registry() == old(self).registry().insert(id@, model_of(&algorithm)),
            final(self).alg_ids() == old(self).alg_ids().insert(id@, algorithm.spec_id()),
    {
        table_insert(&mut self.algs, id.as_u8(), algorithm);
        assert(self.alg_ids() =~= old(self).alg_ids().insert(id@, algorithm.spec_id()));
    }

    /// Returns the hash algorithm with the given identifier, or an error if the
    /// hash algorithm does not exist.
    pub fn get(&self, id: &HashAlgId) -> (r: Result<&dyn HashAlgorithm, HashProviderError>)
        ensures
            r is Ok <==> self.algorithms().contains(id@),
            r matches Ok(a) ==> model_of(a) == self.registry()[id@],
            r matches Ok(a) ==> a.spec_id() == self.alg_ids()[id@],
            r matches Err(e) ==> e.0 == *id,
    {
        table_get(&self.algs, id)
    }
}

impl Default for HashProvider {
    fn default() -> (r: Self)
        ensures
            r.registry().dom() == default_algorithms(),
            r.registry()[1] == model_of(&Sha256 {}),
            r.registry()[2] == model_of(&Blake3 {}),
            r.registry()[3] == model_of(&Keccak256 {}),
            r.registry()[4] == model_of(&Blake2s {}),
            r.registry()[5] == model_of(&Poseidon2 {}),
            r.alg_ids() == default_alg_ids(),
            r.algorithms() == default_algorithms(),
    {
        let mut algs = table_new();
        table_insert(&mut algs, 1, Sha256 {});
        table_insert(&mut algs, 2, Blake3 {});
        table_insert(&mut algs, 3, Keccak256 {});
        table_insert(&mut algs, 4, Blake2s {});
        table_insert(&mut algs, 5, Poseidon2 {});
        let r = Self { algs };
        assert(r.registry().dom() =~= default_algorithms());
        assert(r.alg_ids() =~= default_alg_ids());
        assert(r.algorithms() =~= default_algorithms());
        r
    }
}

} // verus!
