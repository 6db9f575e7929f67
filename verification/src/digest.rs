//! Digests of executable images.
//!
//! Program-data accounts are allocated larger than the executable they hold
//! and padded with zero bytes, so an image is hashed only after its trailing
//! zero bytes have been removed. Two images are the same program exactly when
//! their digests are equal.

use vstd::prelude::*;

verus! {

/// Number of characters in a digest: thirty-two bytes, two hex digits each.
pub const DIGEST_HEX_LEN: usize = 64;

/// The buffer is not empty and its last byte is zero.
pub open spec fn ends_in_zero(bytes: Seq<u8>) -> bool {
    bytes.len() > 0 && bytes.last() == 0u8
}

/// Every byte of the buffer is zero. An empty buffer qualifies.
pub open spec fn all_zero(bytes: Seq<u8>) -> bool {
    forall|i: int| 0 <= i < bytes.len() ==> bytes[i] == 0u8
}

/// The buffer without its trailing run of zero bytes. Zero bytes in front of
/// or between other bytes stay where they are.
pub open spec fn normalized(bytes: Seq<u8>) -> Seq<u8>
    decreases bytes.len(),
{
    if ends_in_zero(bytes) {
        normalized(bytes.drop_last())
    } else {
        bytes
    }
}

/// `short` is `long` cut just behind its last non-zero byte: a prefix of
/// `long` that does not end in zero and is followed by zero bytes only.
pub open spec fn is_normal_form_of(short: Seq<u8>, long: Seq<u8>) -> bool {
    &&& short.len() <= long.len()
    &&& short == long.take(short.len() as int)
    &&& !ends_in_zero(short)
    &&& forall|i: int| short.len() <= i < long.len() ==> long[i] == 0u8
}

/// A character that `0123456789abcdef` holds.
pub open spec fn is_lower_hex_digit(c: char) -> bool {
    ('0' <= c && c <= '9') || ('a' <= c && c <= 'f')
}

/// The text that `sha256::digest` returns for a byte slice: the SHA-256 hash
/// of the bytes, written as lower-case hex digits.
pub uninterp spec fn sha256_hex(bytes: Seq<u8>) -> Seq<char>;

/// The digest of an image: the SHA-256 text of its normalized bytes.
pub open spec fn binary_digest(bytes: Seq<u8>) -> Seq<char> {
    sha256_hex(normalized(bytes))
}

/// `normalized` yields the one normal form of a buffer.
pub proof fn lemma_normalized_is_normal_form(bytes: Seq<u8>)
    ensures
        is_normal_form_of(normalized(bytes), bytes),
    decreases bytes.len(),
{
    if ends_in_zero(bytes) {
        let shorter = bytes.drop_last();
        lemma_normalized_is_normal_form(shorter);
        let n = normalized(shorter);
        assert(n == bytes.take(n.len() as int)) by {
            assert(shorter.take(n.len() as int) =~= bytes.take(n.len() as int));
        }
        assert forall|i: int| n.len() <= i < bytes.len() implies bytes[i] == 0u8 by {
            if i < shorter.len() {
                assert(shorter[i] == bytes[i]);
            }
        }
    } else {
        assert(bytes.take(bytes.len() as int) =~= bytes);
    }
}

/// A buffer has no normal form but the one that `normalized` yields.
pub proof fn lemma_normal_form_is_unique(short: Seq<u8>, long: Seq<u8>)
    requires
        is_normal_form_of(short, long),
    ensures
        short == normalized(long),
    decreases long.len(),
{
    if ends_in_zero(long) {
        if short.len() == long.len() {
            assert(short =~= long);
        } else {
            let shorter = long.drop_last();
            assert(short =~= shorter.take(short.len() as int));
            assert forall|i: int| short.len() <= i < shorter.len() implies shorter[i] == 0u8 by {
                assert(shorter[i] == long[i]);
            }
            lemma_normal_form_is_unique(short, shorter);
        }
    } else {
        if short.len() < long.len() {
            assert(long[long.len() - 1] == 0u8);
        }
        assert(short =~= long);
    }
}

/// Normalization is idempotent, and a buffer that does not end in zero is
/// its own normal form.
pub proof fn lemma_normalized_idempotent(bytes: Seq<u8>)
    ensures
        normalized(normalized(bytes)) == normalized(bytes),
        !ends_in_zero(normalized(bytes)),
        !ends_in_zero(bytes) ==> normalized(bytes) == bytes,
{
    lemma_normalized_is_normal_form(bytes);
}

/// Zero bytes appended to a buffer do not change its normal form.
pub proof fn lemma_normalized_ignores_zero_suffix(bytes: Seq<u8>, zeros: Seq<u8>)
    requires
        all_zero(zeros),
    ensures
        normalized(bytes + zeros) == normalized(bytes),
    decreases zeros.len(),
{
    if zeros.len() == 0 {
        assert(bytes + zeros =~= bytes);
    } else {
        let padded = bytes + zeros;
        assert(padded.last() == zeros.last());
        assert(padded.drop_last() =~= bytes + zeros.drop_last());
        lemma_normalized_ignores_zero_suffix(bytes, zeros.drop_last());
    }
}

/// Zero padding behind an image does not change its digest.
pub proof fn lemma_digest_ignores_zero_padding(bytes: Seq<u8>, zeros: Seq<u8>)
    requires
        all_zero(zeros),
    ensures
        binary_digest(bytes + zeros) == binary_digest(bytes),
{
    lemma_normalized_ignores_zero_suffix(bytes, zeros);
}

/// A buffer of zero bytes has the digest of the empty buffer.
pub proof fn lemma_all_zero_digest(bytes: Seq<u8>)
    requires
        all_zero(bytes),
    ensures
        normalized(bytes) == Seq::<u8>::empty(),
        binary_digest(bytes) == binary_digest(Seq::<u8>::empty()),
{
    let empty = Seq::<u8>::empty();
    lemma_normalized_ignores_zero_suffix(empty, bytes);
    assert(empty + bytes =~= bytes);
}

/// Removes the trailing run of zero bytes from a buffer.
pub fn strip_trailing_zeros(program_data: Vec<u8>) -> (stripped: Vec<u8>)
    ensures
        stripped@ == normalized(program_data@),
        is_normal_form_of(stripped@, program_data@),
{
    let mut buffer = program_data;
    let mut end: usize = buffer.len();
    assert(buffer@.take(end as int) =~= program_data@);
    while end > 0 && buffer[end - 1] == 0
        invariant
            end <= buffer.len(),
            buffer@ == program_data@,
            normalized(buffer@.take(end as int)) == normalized(program_data@),
        decreases end,
    {
        proof {
            let kept = buffer@.take(end as int);
            assert(ends_in_zero(kept));
            assert(kept.drop_last() =~= buffer@.take(end - 1));
        }
        end = end - 1;
    }
    proof {
        let kept = buffer@.take(end as int);
        assert(!ends_in_zero(kept));
        assert(kept =~= buffer@.subrange(0, end as int));
        lemma_normalized_is_normal_form(program_data@);
    }
    buffer.truncate(end);
    buffer
}

/// Calls `sha256::digest` on the bytes. The crate hashes them with SHA-256
/// and hex-encodes the thirty-two bytes of the hash in lower case, so the
/// text depends on the bytes alone and is sixty-four hex digits long.
#[verifier::external_body]
fn sha256_of(bytes: &[u8]) -> (text: String)
    ensures
        text@ == sha256_hex(bytes@),
        text@.len() == DIGEST_HEX_LEN,
        forall|i: int| 0 <= i < text@.len() ==> is_lower_hex_digit(#[trigger] text@[i]),
{
    sha256::digest(bytes)
}

/// The digest of an executable image, whether it was read from a
/// program-data account, a buffer account or a local file.
pub fn get_binary_hash(program_data: Vec<u8>) -> (hash: String)
    ensures
        hash@ == binary_digest(program_data@),
        hash@.len() == DIGEST_HEX_LEN,
        forall|i: int| 0 <= i < hash@.len() ==> is_lower_hex_digit(#[trigger] hash@[i]),
{
    let buffer = strip_trailing_zeros(program_data);
    sha256_of(buffer.as_slice())
}

} // verus!
