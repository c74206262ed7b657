//! Content fingerprints: the BLAKE3 digest of a file's bytes, in hexadecimal.

use vstd::prelude::*;

verus! {

/// Number of characters in a fingerprint.
pub const FINGERPRINT_LEN: usize = 64;

#[verifier::external_type_specification]
#[verifier::external_body]
pub struct ExHasher(blake3::Hasher);

/// The bytes that a `blake3::Hasher` has been fed since it was made, in order.
pub uninterp spec fn hasher_input(hasher: blake3::Hasher) -> Seq<u8>;

/// Whether a `blake3::Hasher` is in default mode, with no key, no
/// key-derivation context and no input offset: one that `Hasher::new` made
/// and that has only been fed since.
pub uninterp spec fn hasher_is_plain(hasher: blake3::Hasher) -> bool;

/// The BLAKE3 digest of `input` in default mode, as `blake3::Hash::to_hex`
/// renders it.
pub uninterp spec fn blake3_hex(input: Seq<u8>) -> Seq<char>;

/// Whether `c` is one of the digits that lowercase hexadecimal is written in.
pub open spec fn is_lower_hex(c: char) -> bool {
    ('0' <= c && c <= '9') || ('a' <= c && c <= 'f')
}

/// Whether `s` has the shape of a fingerprint: sixty-four lowercase
/// hexadecimal digits.
pub open spec fn is_fingerprint(s: Seq<char>) -> bool {
    &&& s.len() == FINGERPRINT_LEN
    &&& forall|i: int| 0 <= i < s.len() ==> is_lower_hex(#[trigger] s[i])
}

/// `blake3::Hasher::new`: a hasher in default mode that has seen no input.
#[verifier::external_body]
fn hasher_new() -> (hasher: blake3::Hasher)
    ensures
        hasher_input(hasher) == Seq::<u8>::empty(),
        hasher_is_plain(hasher),
{
    blake3::Hasher::new()
}

/// `blake3::Hasher::update`, on a hasher in default mode: appends `input` to
/// what the hasher has seen and leaves its mode as it is. Feeding a hasher
/// piecewise is the same as feeding it the concatenation. Only a hasher with
/// an input offset can refuse input, so the call returns.
#[verifier::external_body]
fn hasher_update(hasher: &mut blake3::Hasher, input: &[u8])
    requires
        hasher_is_plain(*old(hasher)),
    ensures
        hasher_input(*final(hasher)) == hasher_input(*old(hasher)) + input@,
        hasher_is_plain(*final(hasher)),
    no_unwind
{
    hasher.update(input);
}

/// `blake3::Hasher::finalize` followed by `blake3::Hash::to_hex`, on a
/// hasher in default mode: the digest of everything the hasher has seen,
/// which in that mode depends on those bytes alone, rendered as two
/// lowercase hexadecimal digits for each of the thirty-two bytes of output.
/// The hasher is left as it was.
#[verifier::external_body]
fn hasher_finalize_hex(hasher: &blake3::Hasher) -> (hex: String)
    requires
        hasher_is_plain(*hasher),
    ensures
        hex@ == blake3_hex(hasher_input(*hasher)),
        is_fingerprint(hex@),
{
    hasher.finalize().to_hex().to_string()
}

/// The bytes of `blocks`, one block after another with nothing in between.
pub open spec fn joined(blocks: Seq<Seq<u8>>) -> Seq<u8>
    decreases blocks.len(),
{
    if blocks.len() == 0 {
        Seq::empty()
    } else {
        joined(blocks.drop_last()) + blocks.last()
    }
}

/// The fingerprint of content that was read as `blocks`.
pub open spec fn fingerprint_of(blocks: Seq<Seq<u8>>) -> Seq<char> {
    blake3_hex(joined(blocks))
}

/// The blocks of `blocks` as sequences of bytes.
pub open spec fn block_bytes(blocks: Seq<Vec<u8>>) -> Seq<Seq<u8>> {
    Seq::new(blocks.len(), |i: int| blocks[i]@)
}

/// A running fingerprint, for content that is read one block at a time.
pub struct Fingerprinter {
    hasher: blake3::Hasher,
}

impl Fingerprinter {
    #[verifier::type_invariant]
    spec fn plain(self) -> bool {
        hasher_is_plain(self.hasher)
    }

    /// The bytes taken in so far.
    pub closed spec fn input(&self) -> Seq<u8> {
        hasher_input(self.hasher)
    }

    /// A fingerprinter that has taken in nothing.
    pub fn new() -> (fp: Fingerprinter)
        ensures
            fp.input() == Seq::<u8>::empty(),
    {
        Fingerprinter { hasher: hasher_new() }
    }

    /// Takes in the next block of the content.
    pub fn update(&mut self, block: &[u8])
        ensures
            final(self).input() == old(self).input() + block@,
    {
        proof {
            use_type_invariant(&*self);
        }
        hasher_update(&mut self.hasher, block);
    }

    /// The fingerprint of what has been taken in.
    pub fn finish(&self) -> (hex: String)
        ensures
            hex@ == blake3_hex(self.input()),
            is_fingerprint(hex@),
    {
        proof {
            use_type_invariant(self);
        }
        hasher_finalize_hex(&self.hasher)
    }
}

/// Computes the fingerprint of content given as the blocks in which it was
/// read.
pub fn fingerprint(blocks: &Vec<Vec<u8>>) -> (hex: String)
    ensures
        hex@ == fingerprint_of(block_bytes(blocks@)),
        is_fingerprint(hex@),
{
    let mut fp = Fingerprinter::new();
    let ghost all = block_bytes(blocks@);
    let mut i: usize = 0;
    while i < blocks.len()
        invariant
            i <= blocks.len(),
            all == block_bytes(blocks@),
            fp.input() == joined(all.take(i as int)),
        decreases blocks.len() - i,
    {
        proof {
            let next = all.take(i + 1);
            assert(next.drop_last() =~= all.take(i as int));
            assert(next.last() == blocks@[i as int]@);
        }
        fp.update(blocks[i].as_slice());
        i += 1;
    }
    proof {
        assert(all.take(i as int) =~= all);
    }
    fp.finish()
}

/// The same bytes have the same fingerprint, however often it is computed
/// and in whatever blocks the bytes were read.
pub proof fn fingerprint_stable(first: Seq<Seq<u8>>, second: Seq<Seq<u8>>)
    requires
        joined(first) == joined(second),
    ensures
        fingerprint_of(first) == fingerprint_of(second),
{
}

} // verus!
