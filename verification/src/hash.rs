//! Hash values.

use vstd::prelude::*;
use crate::alg_id::HashAlgId;

verus! {

/// Maximum length of a hash value.
pub const MAX_LEN: usize = 64;

/// The message of the error returned for a value longer than [`MAX_LEN`].
pub const TOO_LONG: &'static str = "hash value must be at most 64 bytes";

/// A hash value.
///
/// To avoid heap allocation the bytes live in a fixed-size array; 64 bytes
/// are enough for the supported algorithms. Bytes past the length are zero.
#[derive(Debug, Clone, Copy, Eq, Hash)]
pub struct Hash {
    value: [u8; MAX_LEN],
    len: usize,
}

impl View for Hash {
    type V = Seq<u8>;

    /// The bytes of the hash value.
    closed spec fn view(&self) -> Seq<u8> {
        self.value@.subrange(0, self.len as int)
    }
}

impl Hash {
    /// The length is at most [`MAX_LEN`] and the unused bytes are zero.
    #[verifier::type_invariant]
    spec fn inv(self) -> bool {
        &&& self.len <= MAX_LEN
        &&& forall|i: int| self.len <= i < MAX_LEN ==> self.value@[i] == 0
    }

    /// The length is in range and the unused bytes are zero; every hash value
    /// made by this library is canonical.
    pub closed spec fn is_canonical(self) -> bool {
        self.inv()
    }

    /// A canonical hash value holds at most [`MAX_LEN`] bytes.
    pub proof fn lemma_canonical_len(h: Hash)
        requires
            h.is_canonical(),
        ensures
            h@.len() <= MAX_LEN,
    {
    }

    /// Two canonical hash values with the same bytes are the same value.
    pub proof fn lemma_canonical_unique(a: Hash, b: Hash)
        requires
            a.is_canonical(),
            b.is_canonical(),
            a@ == b@,
        ensures
            a == b,
    {
        broadcast use vstd::array::group_array_axioms;
        assert(a.len == a@.len());
        assert(a.value@ =~= b.value@) by {
            assert forall|i: int| 0 <= i < MAX_LEN implies a.value@[i] == b.value@[i] by {
                if i < a.len {
                    assert(a.value@[i] == a@[i]);
                }
            }
        }
        assert(a.value == b.value);
    }

    /// Creates a new hash value.
    ///
    /// The value is at most 64 bytes long.
    pub(crate) fn new(value: &[u8]) -> (r: Self)
        requires
            value@.len() <= MAX_LEN,
        ensures
            r@ == value@,
            r.is_canonical(),
    {
        let mut bytes = [0u8; MAX_LEN];
        let n = value.len();
        for i in 0..n
            invariant
                n == value@.len(),
                n <= MAX_LEN,
                bytes@.len() == MAX_LEN,
                forall|j: int| 0 <= j < i ==> #[trigger] bytes@[j] == value@[j],
                forall|j: int| i <= j < MAX_LEN ==> #[trigger] bytes@[j] == 0,
        {
            bytes[i] = value[i];
        }
        let r = Self { value: bytes, len: n };
        assert(r@ =~= value@);
        r
    }

    /// Returns a byte slice of the hash value.
    pub fn as_bytes(&self) -> (r: &[u8])
        ensures
            r@ == self@,
            r@.len() <= MAX_LEN,
            self.is_canonical(),
    {
        proof {
            use_type_invariant(self);
        }
        vstd::slice::slice_subrange(self.value.as_slice(), 0, self.len)
    }

    /// Reads a hash value from a sequence of bytes, as its deserializer
    /// does: the bytes are taken one by one, and the sequence is refused
    /// with the length reached so far once it exceeds [`MAX_LEN`].
    pub fn from_byte_seq(bytes: &[u8]) -> (r: Result<Self, usize>)
        ensures
            bytes@.len() <= MAX_LEN <==> r is Ok,
            r matches Ok(h) ==> h@ == bytes@,
            r matches Err(n) ==> n == MAX_LEN,
    {
        let mut value = [0u8; MAX_LEN];
        let mut len: usize = 0;
        while len < bytes.len()
            invariant
                len <= bytes@.len(),
                len <= MAX_LEN,
                value@.len() == MAX_LEN,
                forall|j: int| 0 <= j < len ==> #[trigger] value@[j] == bytes@[j],
                forall|j: int| len <= j < MAX_LEN ==> #[trigger] value@[j] == 0,
            decreases bytes@.len() - len,
        {
            if len >= MAX_LEN {
                return Err(len);
            }
            value[len] = bytes[len];
            len += 1;
        }
        let r = Self { value, len };
        assert(r@ =~= bytes@);
        Ok(r)
    }

    /// Whether two hash values hold the same bytes.
    pub fn bytes_eq(&self, other: &Self) -> (r: bool)
        ensures
            r == (self@ == other@),
    {
        proof {
            use_type_invariant(self);
            use_type_invariant(other);
        }
        if self.len != other.len {
            assert(self@.len() != other@.len());
            return false;
        }
        let mut i: usize = 0;
        while i < self.len
            invariant
                self.len == other.len,
                self.len <= MAX_LEN,
                i <= self.len,
                forall|j: int| 0 <= j < i ==> self.value@[j] == other.value@[j],
            decreases self.len - i,
        {
            if self.value[i] != other.value[i] {
                assert(self@[i as int] != other@[i as int]);
                return false;
            }
            i += 1;
        }
        assert(self@ =~= other@);
        true
    }
}

impl Default for Hash {
    fn default() -> (r: Self)
        ensures
            r@ == Seq::<u8>::empty(),
    {
        let r = Self { value: [0u8; MAX_LEN], len: 0 };
        assert(r@ =~= Seq::<u8>::empty());
        r
    }
}

impl PartialEq for Hash {
    fn eq(&self, other: &Self) -> (r: bool)
        ensures
            r == (self@ == other@),
    {
        self.bytes_eq(other)
    }
}

impl vstd::std_specs::cmp::PartialEqSpecImpl for Hash {
    open spec fn obeys_eq_spec() -> bool {
        true
    }

    open spec fn eq_spec(&self, other: &Self) -> bool {
        self@ == other@
    }
}

impl TryFrom<Vec<u8>> for Hash {
    type Error = &'static str;

    fn try_from(value: Vec<u8>) -> (r: Result<Self, Self::Error>)
        ensures
            value@.len() <= MAX_LEN <==> r is Ok,
            r matches Ok(h) ==> h@ == value@,
            r matches Err(e) ==> e == TOO_LONG,
    {
        if value.len() > MAX_LEN {
            return Err(TOO_LONG);
        }
        let h = Self::new(value.as_slice());
        proof {
            use_type_invariant(&h);
            Self::lemma_canonical_unique(h, choose|g: Hash| g@ == value@ && g.is_canonical());
        }
        Ok(h)
    }
}

/// The hash value holding the bytes of `value`, when there are at most
/// [`MAX_LEN`] of them.
pub open spec fn hash_from_bytes(value: Seq<u8>) -> Result<Hash, &'static str> {
    if value.len() <= MAX_LEN {
        Ok(choose|h: Hash| h@ == value && h.is_canonical())
    } else {
        Err(TOO_LONG)
    }
}

impl vstd::std_specs::convert::TryFromSpecImpl<Vec<u8>> for Hash {
    open spec fn obeys_try_from_spec() -> bool {
        true
    }

    open spec fn try_from_spec(v: Vec<u8>) -> Result<Self, Self::Error> {
        hash_from_bytes(v@)
    }
}

impl vstd::std_specs::convert::FromSpecImpl<Hash> for Vec<u8> {
    /// A vector is not determined by its elements alone, so `from` states its
    /// result through its own postcondition instead.
    open spec fn obeys_from_spec() -> bool {
        false
    }

    open spec fn from_spec(v: Hash) -> Self {
        arbitrary()
    }
}

impl From<Hash> for Vec<u8> {
    fn from(value: Hash) -> (r: Self)
        ensures
            r@ == value@,
    {
        vstd::slice::slice_to_vec(value.as_bytes())
    }
}

/// A typed hash value.
#[derive(Debug, Clone, PartialEq, Eq, Hash)]
pub struct TypedHash {
    /// The algorithm of the hash.
    pub alg: HashAlgId,
    /// The hash value.
    pub value: Hash,
}

} // verus!
