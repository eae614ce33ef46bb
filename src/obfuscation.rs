//! Recovery of the counter that the first page stores obfuscated.
//!
//! The first sixteen bytes of the page's secret key an RC4 cipher; the
//! counter's four little-endian bytes are combined by exclusive or with the
//! first four bytes of its keystream.

use vstd::prelude::*;

use rc4::consts::U16;
use rc4::{Key, KeyInit, Rc4, StreamCipher};

use crate::bytes::le_u32;

verus! {

/// Length of the cipher key taken from the front of the secret.
pub const CIPHER_KEY_LEN: usize = 16;

/// The first four bytes of the RC4 keystream that `key` yields.
pub uninterp spec fn rc4_keystream_head(key: Seq<u8>) -> Seq<u8>;

/// Relies on rc4's `Rc4::new` and `StreamCipher::apply_keystream`: a fresh
/// cipher, applied to four zero bytes, leaves the first four keystream bytes.
/// `Key::from_slice` panics unless the key has sixteen bytes.
#[verifier::external_body]
fn rc4_keystream(key: &[u8]) -> (r: [u8; 4])
    requires
        key@.len() == CIPHER_KEY_LEN,
    ensures
        r@ == rc4_keystream_head(key@),
{
    let mut cipher = Rc4::<U16>::new(Key::<U16>::from_slice(key));
    let mut buf = [0u8; 4];
    cipher.apply_keystream(&mut buf);
    buf
}

/// The little-endian word of the four keystream bytes `ks`.
pub open spec fn keystream_word(ks: Seq<u8>) -> u32 {
    le_u32(ks, 0) as u32
}

/// The clear counter for the 128-byte `secret` and the stored `counter`.
pub open spec fn resolved(secret: Seq<u8>, counter: u32) -> u32 {
    counter ^ keystream_word(rc4_keystream_head(secret.subrange(0, CIPHER_KEY_LEN as int)))
}

/// Combines `counter` with the four keystream bytes `keystream`, read as a
/// little-endian word.
pub fn unmask_counter(counter: u32, keystream: [u8; 4]) -> (r: u32)
    ensures
        r == counter ^ keystream_word(keystream@),
{
    let b0 = keystream[0] as u32;
    let b1 = keystream[1] as u32;
    let b2 = keystream[2] as u32;
    let b3 = keystream[3] as u32;
    let word = b0 + b1 * 256 + b2 * 65536 + b3 * 16777216;
    counter ^ word
}

/// Recovers the clear counter from the secret and the obfuscated counter of
/// a database-definition page. Applied to its own result it gives back the
/// stored value.
pub fn resolve_counter(secret: &[u8], counter: u32) -> (r: u32)
    requires
        secret@.len() == 128,
    ensures
        r == resolved(secret@, counter),
{
    let (key, _) = secret.split_at(CIPHER_KEY_LEN);
    let ks = rc4_keystream(key);
    unmask_counter(counter, ks)
}

/// Resolving twice with the same secret gives back the counter: the
/// keystream cancels itself bit for bit.
pub proof fn lemma_resolve_involutive(secret: Seq<u8>, counter: u32)
    requires
        secret.len() == 128,
    ensures
        resolved(secret, resolved(secret, counter)) == counter,
{
    let w = keystream_word(rc4_keystream_head(secret.subrange(0, CIPHER_KEY_LEN as int)));
    assert((counter ^ w) ^ w == counter) by (bit_vector);
}

} // verus!
