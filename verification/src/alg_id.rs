//! Hash algorithm identifiers.

use vstd::prelude::*;

verus! {

/// Lower-case hexadecimal digits.
pub const HEX_DIGITS: [char; 16] = [
    '0', '1', '2', '3', '4', '5', '6', '7', '8', '9', 'a', 'b', 'c', 'd', 'e', 'f',
];

/// A hash algorithm identifier.
#[derive(Debug, Clone, Copy, PartialEq, Eq, Hash, Structural)]
pub struct HashAlgId(u8);

impl View for HashAlgId {
    type V = u8;

    closed spec fn view(&self) -> u8 {
        self.0
    }
}

/// Identifiers are determined by their numeric value.
pub broadcast proof fn lemma_alg_id_view_injective(a: HashAlgId, b: HashAlgId)
    ensures
        #[trigger] (a@) == #[trigger] (b@) <==> a == b,
{
}

/// The two-digit lower-case hexadecimal rendering of `id`.
pub open spec fn hex_u8(id: u8) -> Seq<char> {
    seq![HEX_DIGITS@[(id / 16) as int], HEX_DIGITS@[(id % 16) as int]]
}

/// Appends one character to a string (`String::push`).
#[verifier::external_body]
fn string_push(s: &mut String, c: char)
    ensures
        final(s)@ == old(s)@.push(c),
{
    s.push(c);
}

impl HashAlgId {
    /// SHA-256 hash algorithm.
    #[allow(non_snake_case)]
    pub fn SHA256() -> (r: Self)
        ensures
            r@ == 1,
    {
        Self(1)
    }

    /// BLAKE3 hash algorithm.
    #[allow(non_snake_case)]
    pub fn BLAKE3() -> (r: Self)
        ensures
            r@ == 2,
    {
        Self(2)
    }

    /// Keccak-256 hash algorithm.
    #[allow(non_snake_case)]
    pub fn KECCAK256() -> (r: Self)
        ensures
            r@ == 3,
    {
        Self(3)
    }

    /// BLAKE2S hash algorithm.
    #[allow(non_snake_case)]
    pub fn BLAKE2S() -> (r: Self)
        ensures
            r@ == 4,
    {
        Self(4)
    }

    /// POSEIDON2 hash algorithm.
    #[allow(non_snake_case)]
    pub fn POSEIDON2() -> (r: Self)
        ensures
            r@ == 5,
    {
        Self(5)
    }

    /// Creates a new hash algorithm identifier.
    ///
    /// The range 0-127 is reserved for the built-in algorithms.
    ///
    /// # Arguments
    ///
    /// * id - Unique identifier for the hash algorithm.
    pub fn new(id: u8) -> (r: Self)
        requires
            id >= 128,
        ensures
            r@ == id,
    {
        Self(id)
    }

    /// The identifier with the given value, as deserialization reads it:
    /// any value is accepted.
    pub fn from_u8(id: u8) -> (r: Self)
        ensures
            r@ == id,
    {
        Self(id)
    }

    /// Returns the id as a `u8`.
    pub fn as_u8(&self) -> (r: u8)
        ensures
            r == self@,
    {
        self.0
    }

    /// Renders the id as two lower-case hexadecimal digits, as its `Display`
    /// form does.
    pub fn to_string(&self) -> (r: String)
        ensures
            r@ == hex_u8(self@),
    {
        let mut s = String::new();
        string_push(&mut s, HEX_DIGITS[(self.0 / 16) as usize]);
        string_push(&mut s, HEX_DIGITS[(self.0 % 16) as usize]);
        assert(s@ =~= hex_u8(self@));
        s
    }
}

/// Identifiers of the built-in algorithms, 1 through 5.
pub open spec fn builtin_ids() -> Set<u8> {
    set![1u8, 2u8, 3u8, 4u8, 5u8]
}

/// An identifier made by `new` never collides with a built-in one.
pub proof fn lemma_new_id_not_builtin(id: HashAlgId)
    requires
        id@ >= 128,
    ensures
        !builtin_ids().contains(id@),
{
}

/// An error for [`HashProvider`](crate::HashProvider): the unknown identifier.
#[derive(Debug, Clone, Copy, PartialEq, Eq)]
pub struct HashProviderError(pub HashAlgId);

impl HashProviderError {
    /// The error message, as its `Display` form renders it.
    pub fn to_string(&self) -> (r: String)
        ensures
            r@ == "unknown hash algorithm id: "@ + hex_u8(self.0@),
    {
        let mut s = String::from_str("unknown hash algorithm id: ");
        let hex = self.0.to_string();
        s.append(hex.as_str());
        s
    }
}

} // verus!
