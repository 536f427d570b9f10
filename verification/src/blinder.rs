//! Hash blinders and blinded pre-images.

use vstd::prelude::*;
use crate::m31::P;
use crate::poseidon2::model::le_byte;

verus! {

/// The little-endian `u32` stored in bytes `4 * k .. 4 * k + 4` of `bytes`.
pub open spec fn le_word(bytes: Seq<u8>, k: int) -> int {
    bytes[4 * k] + 256 * bytes[4 * k + 1] + 65536 * bytes[4 * k + 2] + 16777216 * bytes[4 * k + 3]
}

/// The little-endian encoding of a sequence of words.
pub open spec fn le_words(words: Seq<u32>) -> Seq<u8> {
    Seq::new(4 * words.len(), |i: int| le_byte(words[i / 4], i % 4))
}

/// Whether the 16 bytes, read as four little-endian `u32` words, are four
/// canonical M31 field elements.
pub open spec fn is_m31_blinder(bytes: Seq<u8>) -> bool {
    &&& bytes.len() == 16
    &&& forall|k: int| 0 <= k < 4 ==> #[trigger] le_word(bytes, k) < P
}

/// Reading back the little-endian bytes of a word gives the word.
pub proof fn lemma_le_word_of_le_bytes(w: u32)
    ensures
        le_byte(w, 0) + 256 * le_byte(w, 1) + 65536 * le_byte(w, 2) + 16777216 * le_byte(w, 3) == w,
{
    assert((w % 256) + 256 * ((w / 256) % 256) + 65536 * ((w / 65536) % 256) + 16777216 * (w / 16777216) == w) by (bit_vector);
}

/// Word `k` of the little-endian encoding of `words` is `words[k]`.
pub proof fn lemma_le_words_word(words: Seq<u32>, k: int)
    requires
        0 <= k < words.len(),
    ensures
        le_word(le_words(words), k) == words[k],
{
    let b = le_words(words);
    assert((4 * k) / 4 == k && (4 * k) % 4 == 0);
    assert((4 * k + 1) / 4 == k && (4 * k + 1) % 4 == 1);
    assert((4 * k + 2) / 4 == k && (4 * k + 2) % 4 == 2);
    assert((4 * k + 3) / 4 == k && (4 * k + 3) % 4 == 3);
    lemma_le_word_of_le_bytes(words[k]);
}

/// Fills a 16-byte buffer from the thread-local generator
/// (`rand::Rng::fill` on `rand::rng()`). Nothing is claimed of the bytes.
#[verifier::external_body]
fn random_bytes() -> (r: [u8; 16]) {
    let mut bytes = [0u8; 16];
    rand::Rng::fill(&mut rand::rng(), &mut bytes);
    bytes
}

/// A hash blinder.
#[derive(Clone)]
pub struct Blinder([u8; 16]);

impl View for Blinder {
    type V = Seq<u8>;

    closed spec fn view(&self) -> Seq<u8> {
        self.0@
    }
}

impl Blinder {
    /// A blinder holding the given bytes.
    pub fn from_bytes(bytes: [u8; 16]) -> (r: Self)
        ensures
            r@ == bytes@,
    {
        Blinder(bytes)
    }

    /// Returns the blinder as a byte slice.
    pub fn as_bytes(&self) -> (r: &[u8])
        ensures
            r@ == self@,
            r@.len() == 16,
    {
        self.0.as_slice()
    }

    /// Generates a blinder of 16 uniformly random bytes.
    pub fn random() -> (r: Self)
        ensures
            r@.len() == 16,
    {
        Blinder(random_bytes())
    }
}

/// Builds a blinder whose 16 bytes form 4 valid M31 field elements.
///
/// BLAKE2s interprets its input as little-endian u32 words. When the VM
/// backend uses M31 arithmetic (modulus 2^31 - 1), each such word must be
/// strictly less than 2^31 - 1. Words are offered one at a time; a word that
/// is not a field element is rejected, so that sampling uniform words until
/// four are accepted yields a blinder without statistical bias.
pub struct M31BlinderSampler {
    words: [u32; 4],
    filled: usize,
}

/// The little-endian bytes of four words.
fn encode_le_words(words: [u32; 4]) -> (r: [u8; 16])
    ensures
        r@ == le_words(words@),
{
    let mut out = [0u8; 16];
    for i in 0..4
        invariant
            out@.len() == 16,
            words@.len() == 4,
            forall|j: int| 0 <= j < 4 * i ==> #[trigger] out@[j] == le_words(words@)[j],
    {
        let w = words[i];
        out[4 * i] = (w % 256) as u8;
        out[4 * i + 1] = ((w / 256) % 256) as u8;
        out[4 * i + 2] = ((w / 65536) % 256) as u8;
        out[4 * i + 3] = (w / 16777216) as u8;
        assert forall|j: int| 0 <= j < 4 * i + 4 implies #[trigger] out@[j] == le_words(words@)[j] by {
            if j >= 4 * i {
                assert(j / 4 == i as int);
            }
        }
    }
    assert(out@ =~= le_words(words@));
    out
}

impl M31BlinderSampler {
    /// The words accepted so far, in order.
    pub closed spec fn accepted(&self) -> Seq<u32> {
        self.words@.take(self.filled as int)
    }

    /// Fewer than four words are accepted, and each is a field element.
    pub closed spec fn wf(&self) -> bool {
        &&& self.filled < 4
        &&& forall|k: int| 0 <= k < self.filled ==> #[trigger] self.words@[k] < P
    }

    /// A well-formed sampler has accepted fewer than four words, and each of
    /// them is a field element.
    pub proof fn lemma_wf(&self)
        requires
            self.wf(),
        ensures
            self.accepted().len() < 4,
            forall|k: int| 0 <= k < self.accepted().len() ==> #[trigger] self.accepted()[k] < P,
    {
    }

    /// A sampler that has accepted no word yet.
    pub fn new() -> (r: Self)
        ensures
            r.wf(),
            r.accepted() == Seq::<u32>::empty(),
    {
        let r = Self { words: [0u32; 4], filled: 0 };
        assert(r.accepted() =~= Seq::<u32>::empty());
        r
    }

    /// Offers a random word. A word that is not a canonical field element is
    /// rejected and the state is unchanged; an accepted word is appended,
    /// and the fourth accepted word completes the blinder, which is returned.
    pub fn offer(&mut self, v: u32) -> (r: Option<Blinder>)
        requires
            old(self).wf(),
        ensures
            v >= P ==> r is None && *final(self) == *old(self),
            v < P && old(self).accepted().len() < 3 ==> {
                &&& r is None
                &&& final(self).wf()
                &&& final(self).accepted() == old(self).accepted().push(v)
            },
            v < P && old(self).accepted().len() == 3 ==> (r matches Some(b) && b@ == le_words(
                old(self).accepted().push(v),
            ) && is_m31_blinder(b@)),
    {
        if v >= P {
            return None;
        }
        let ghost old_words = self.accepted();
        let i = self.filled;
        self.words[i] = v;
        assert(self.words@.take(i + 1) =~= old_words.push(v));
        if i == 3 {
            let bytes = encode_le_words(self.words);
            assert(self.words@ =~= old_words.push(v));
            assert forall|k: int| 0 <= k < 4 implies #[trigger] le_word(bytes@, k) < P by {
                lemma_le_words_word(self.words@, k);
            }
            Some(Blinder(bytes))
        } else {
            self.filled = i + 1;
            None
        }
    }
}

/// A blinded pre-image of a hash.
#[derive(Clone)]
pub struct Blinded<T> {
    data: T,
    blinder: Blinder,
}

impl<T> Blinded<T> {
    /// The data being blinded.
    pub closed spec fn spec_data(&self) -> T {
        self.data
    }

    /// The bytes of the blinder.
    pub closed spec fn spec_blinder(&self) -> Seq<u8> {
        self.blinder@
    }

    /// Creates a new blinded pre-image with a random blinder.
    pub fn new(data: T) -> (r: Self)
        ensures
            r.spec_data() == data,
            r.spec_blinder().len() == 16,
    {
        Self { data, blinder: Blinder::random() }
    }

    /// A blinded pre-image with the given blinder.
    pub fn with_blinder(data: T, blinder: Blinder) -> (r: Self)
        ensures
            r.spec_data() == data,
            r.spec_blinder() == blinder@,
    {
        Self { data, blinder }
    }

    /// Returns the data.
    pub fn data(&self) -> (r: &T)
        ensures
            *r == self.spec_data(),
    {
        &self.data
    }

    /// Returns the blinder.
    pub fn blinder(&self) -> (r: &Blinder)
        ensures
            r@ == self.spec_blinder(),
    {
        &self.blinder
    }
}

} // verus!
