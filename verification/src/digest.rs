//! The content hash of a diagnostic text.
//!
//! The text is fed to the standard library's default hasher, the 64-bit
//! digest is laid out in big-endian order, and those eight bytes are encoded
//! in unpadded URL-safe base-64, which gives a token of eleven characters.

use base64::prelude::{Engine, BASE64_URL_SAFE_NO_PAD};
use std::collections::hash_map::DefaultHasher;
use std::hash::{Hash, Hasher};
use vstd::prelude::*;
use vstd::std_specs::hash::DefaultHasherAdditionalSpecFns;

verus! {

/// Number of characters in a content hash.
pub const HASH_CHARS: usize = 11;

/// The state of a hasher after a string was fed to it, as a function of the
/// state before and of the string.
pub uninterp spec fn hasher_fed_str(before: Seq<Seq<u8>>, text: Seq<char>) -> Seq<Seq<u8>>;

/// The unpadded URL-safe base-64 encoding of a byte string.
pub uninterp spec fn base64_url_no_pad(bytes: Seq<u8>) -> Seq<char>;

/// Whether `c` belongs to the URL-safe base-64 alphabet: the ASCII letters
/// and digits, `-` and `_`.
pub open spec fn is_url_safe_char(c: char) -> bool {
    ||| 'A' <= c <= 'Z'
    ||| 'a' <= c <= 'z'
    ||| '0' <= c <= '9'
    ||| c == '-'
    ||| c == '_'
}

/// Length of the unpadded base-64 encoding of `n` bytes: four characters for
/// each full group of three bytes, then two for one byte left over or three
/// for two.
pub open spec fn unpadded_len(n: nat) -> nat {
    (n / 3) * 4 + if n % 3 == 0 {
        0nat
    } else {
        n % 3 + 1
    }
}

/// The bytes of `x`, most significant first.
pub open spec fn be_bytes(x: u64) -> Seq<u8> {
    Seq::new(8, |i: int| ((x as nat / pow256((7 - i) as nat)) % 256) as u8)
}

/// 256 to the power `n`.
pub open spec fn pow256(n: nat) -> nat
    decreases n,
{
    if n == 0 {
        1
    } else {
        256 * pow256((n - 1) as nat)
    }
}

/// The 64-bit digest of a text: what a fresh default hasher yields once the
/// text has been fed to it.
pub open spec fn digest_of(text: Seq<char>) -> u64 {
    DefaultHasher::spec_finish(hasher_fed_str(Seq::empty(), text))
}

/// The content hash of a text.
pub open spec fn content_hash_of(text: Seq<char>) -> Seq<char> {
    base64_url_no_pad(be_bytes(digest_of(text)))
}

/// Whether `hash` has the shape of a content hash: eleven characters, all of
/// the URL-safe alphabet, hence none of them the padding character `=`.
pub open spec fn is_hash_token(hash: Seq<char>) -> bool {
    &&& hash.len() == HASH_CHARS
    &&& forall|i: int| 0 <= i < hash.len() ==> is_url_safe_char(#[trigger] hash[i])
}

/// Calls `<str as Hash>::hash` on a default hasher.  Trusted: the hasher's
/// state afterwards depends on nothing but its state before and the
/// characters of `text`.
#[verifier::external_body]
fn feed_str(text: &str, state: &mut DefaultHasher)
    ensures
        final(state)@ == hasher_fed_str(old(state)@, text@),
{
    text.hash(state)
}

/// Calls `Engine::encode` of the `base64` crate on its `URL_SAFE_NO_PAD`
/// engine.  Trusted: the result depends on the bytes alone, has the unpadded
/// length for their number, and consists of characters of the URL-safe
/// alphabet.  The engine fails where the encoded length does not fit in
/// `usize`, which the precondition rules out.
#[verifier::external_body]
fn encode_url_no_pad(bytes: &[u8]) -> (encoded: String)
    requires
        unpadded_len(bytes@.len()) <= usize::MAX,
    ensures
        encoded@ == base64_url_no_pad(bytes@),
        encoded@.len() == unpadded_len(bytes@.len()),
        forall|i: int| 0 <= i < encoded@.len() ==> is_url_safe_char(#[trigger] encoded@[i]),
{
    BASE64_URL_SAFE_NO_PAD.encode(bytes)
}

/// Lays `x` out in big-endian order.
pub fn to_be_bytes(x: u64) -> (bytes: [u8; 8])
    ensures
        bytes@ == be_bytes(x),
{
    let bytes: [u8; 8] = [
        (x >> 56) as u8,
        ((x >> 48) & 0xff) as u8,
        ((x >> 40) & 0xff) as u8,
        ((x >> 32) & 0xff) as u8,
        ((x >> 24) & 0xff) as u8,
        ((x >> 16) & 0xff) as u8,
        ((x >> 8) & 0xff) as u8,
        (x & 0xff) as u8,
    ];
    proof {
        lemma_be_bytes(x);
        assert(bytes@ =~= be_bytes(x));
    }
    bytes
}

/// Shifting and masking pick out the same bytes as dividing by powers of 256.
proof fn lemma_be_bytes(x: u64)
    ensures
        (x >> 56) == (x as nat / pow256(7)) % 256,
        (x >> 48) & 0xff == (x as nat / pow256(6)) % 256,
        (x >> 40) & 0xff == (x as nat / pow256(5)) % 256,
        (x >> 32) & 0xff == (x as nat / pow256(4)) % 256,
        (x >> 24) & 0xff == (x as nat / pow256(3)) % 256,
        (x >> 16) & 0xff == (x as nat / pow256(2)) % 256,
        (x >> 8) & 0xff == (x as nat / pow256(1)) % 256,
        x & 0xff == (x as nat / pow256(0)) % 256,
{
    reveal_with_fuel(pow256, 8);
    assert(pow256(0) == 1);
    assert(pow256(1) == 0x100);
    assert(pow256(2) == 0x1_0000);
    assert(pow256(3) == 0x100_0000);
    assert(pow256(4) == 0x1_0000_0000);
    assert(pow256(5) == 0x100_0000_0000);
    assert(pow256(6) == 0x1_0000_0000_0000);
    assert(pow256(7) == 0x100_0000_0000_0000);
    assert((x >> 56) == (x / 0x100_0000_0000_0000) % 256) by (bit_vector);
    assert((x >> 48) & 0xff == (x / 0x1_0000_0000_0000) % 256) by (bit_vector);
    assert((x >> 40) & 0xff == (x / 0x100_0000_0000) % 256) by (bit_vector);
    assert((x >> 32) & 0xff == (x / 0x1_0000_0000) % 256) by (bit_vector);
    assert((x >> 24) & 0xff == (x / 0x100_0000) % 256) by (bit_vector);
    assert((x >> 16) & 0xff == (x / 0x1_0000) % 256) by (bit_vector);
    assert((x >> 8) & 0xff == (x / 0x100) % 256) by (bit_vector);
    assert(x & 0xff == (x / 1) % 256) by (bit_vector);
}

/// Computes the 64-bit digest of `text`.
pub fn digest(text: &str) -> (d: u64)
    ensures
        d == digest_of(text@),
{
    let mut hasher = DefaultHasher::new();
    feed_str(text, &mut hasher);
    hasher.finish()
}

/// Computes the content hash of `text`: a token of eleven URL-safe
/// characters that is the same for the same text.
pub fn content_hash(text: &str) -> (hash: String)
    ensures
        hash@ == content_hash_of(text@),
        is_hash_token(hash@),
{
    let bytes = to_be_bytes(digest(text));
    encode_url_no_pad(bytes.as_slice())
}

} // verus!
