//! Decryption of packets sent on the default channel: AES-128 in counter mode, with a nonce
//! made of the packet id and the sender's node number.
use crate::meshtastic::{decode_data, parsed_data, Data, DecodeError};
use aes::cipher::{KeyIvInit, StreamCipher};
use crypto::common::generic_array::GenericArray;
use vstd::prelude::*;

verus! {

/// The bytes of the channel key that every node shares by default.
pub open spec fn default_key() -> Seq<u8> {
    seq![
        0xd4u8, 0xf1, 0xbb, 0x3a, 0x20, 0x29, 0x07, 0x59,
        0xf0, 0xbc, 0xff, 0xab, 0xcf, 0x4e, 0x69, 0x01,
    ]
}

/// The default channel key.
pub fn default_channel_key() -> (r: Vec<u8>)
    ensures
        r@ == default_key(),
{
    let r: Vec<u8> = vec![
        0xd4u8, 0xf1, 0xbb, 0x3a, 0x20, 0x29, 0x07, 0x59,
        0xf0, 0xbc, 0xff, 0xab, 0xcf, 0x4e, 0x69, 0x01,
    ];
    assert(r@ =~= default_key());
    r
}

/// The eight bytes of `x`, least significant first.
pub open spec fn le_bytes(x: u64) -> Seq<u8> {
    Seq::new(8, |i: int| ((x >> (8 * i) as u64) & 0xff) as u8)
}

/// The counter-mode nonce of a packet: the packet id in the low eight bytes, then the
/// sender's node number, each little-endian.
pub open spec fn nonce(packet_id: u64, sender_id: u64) -> Seq<u8> {
    le_bytes(packet_id) + le_bytes(sender_id)
}

fn push_le_bytes(out: &mut Vec<u8>, x: u64)
    ensures
        final(out)@ == old(out)@ + le_bytes(x),
{
    let mut i: u64 = 0;
    while i < 8
        invariant
            i <= 8,
            out@ == old(out)@ + le_bytes(x).subrange(0, i as int),
        decreases 8 - i,
    {
        out.push(((x >> (8 * i)) & 0xff) as u8);
        i = i + 1;
        assert(out@ =~= old(out)@ + le_bytes(x).subrange(0, i as int));
    }
    assert(le_bytes(x).subrange(0, 8) =~= le_bytes(x));
}

/// The nonce of the packet `packet_id` from `sender_id`.
pub fn build_nonce(packet_id: u64, sender_id: u64) -> (r: Vec<u8>)
    ensures
        r@ == nonce(packet_id, sender_id),
        r@.len() == 16,
{
    let mut r: Vec<u8> = Vec::new();
    push_le_bytes(&mut r, packet_id);
    push_le_bytes(&mut r, sender_id);
    assert(r@ =~= nonce(packet_id, sender_id));
    r
}

/// The AES-128 counter-mode keystream (128-bit little-endian counter) that `key` and `nonce`
/// give, its first `len` bytes.
pub uninterp spec fn aes128_ctr_keystream(key: Seq<u8>, nonce: Seq<u8>, len: nat) -> Seq<u8>;

/// Relies on the `ctr` crate's `Ctr128LE<aes::Aes128>`: `KeyIvInit::new` with a 16-byte key
/// and a 16-byte nonce, then `StreamCipher::apply_keystream`, which XORs the generated
/// keystream into the data in place. The 128-bit counter cannot run out on any buffer.
#[verifier::external_body]
fn apply_ctr_keystream(key: &[u8], nonce: &[u8], data: Vec<u8>) -> (r: Vec<u8>)
    requires
        key@.len() == 16,
        nonce@.len() == 16,
    ensures
        r@.len() == data@.len(),
        forall|i: int|
            0 <= i < r@.len() ==> r@[i] == data@[i] ^ aes128_ctr_keystream(
                key@,
                nonce@,
                data@.len(),
            )[i],
{
    let mut data = data;
    let mut cipher = ctr::Ctr128LE::<aes::Aes128>::new(
        GenericArray::from_slice(key),
        GenericArray::from_slice(nonce),
    );
    cipher.apply_keystream(&mut data);
    data
}

/// `data` XORed with the default-key keystream of the packet `packet_id` from `sender_id`.
pub open spec fn keystream_xor(packet_id: u64, sender_id: u64, data: Seq<u8>) -> Seq<u8> {
    Seq::new(
        data.len(),
        |i: int|
            data[i] ^ aes128_ctr_keystream(default_key(), nonce(packet_id, sender_id), data.len())[i],
    )
}

/// Decrypts (or, the same thing, encrypts) the payload of the packet `packet_id` from
/// `from_node_id` with the default channel key.
pub fn decrypt_payload(packet_id: u64, from_node_id: u64, encrypted_data: Vec<u8>) -> (r: Vec<u8>)
    ensures
        r@ == keystream_xor(packet_id, from_node_id, encrypted_data@),
{
    let key = default_channel_key();
    let nonce = build_nonce(packet_id, from_node_id);
    let ghost data = encrypted_data@;
    let r = apply_ctr_keystream(key.as_slice(), nonce.as_slice(), encrypted_data);
    assert(r@ =~= keystream_xor(packet_id, from_node_id, data));
    r
}

/// Decrypts an encrypted payload and decodes the `Data` inside. An empty input carries no
/// payload: the result is `Ok(None)`, not an error.
pub fn decrypt_data(packet_id: u64, from_node_id: u64, encrypted_data: Vec<u8>) -> (r: Result<
    Option<Data>,
    DecodeError,
>)
    ensures
        encrypted_data@.len() == 0 ==> r == Ok::<Option<Data>, DecodeError>(None),
        encrypted_data@.len() > 0 ==> match parsed_data(
            keystream_xor(packet_id, from_node_id, encrypted_data@),
        ) {
            Some(d) => r matches Ok(Some(x)) && x@ == d,
            None => r == Err::<Option<Data>, DecodeError>(DecodeError::Data),
        },
{
    let decrypted = decrypt_payload(packet_id, from_node_id, encrypted_data);
    if decrypted.len() == 0 {
        return Ok(None);
    }
    match decode_data(decrypted.as_slice()) {
        Ok(d) => Ok(Some(d)),
        Err(e) => Err(e),
    }
}

/// Applying the keystream of one (packet id, sender) pair twice gives the bytes back: what
/// `decrypt_payload` makes of an input encrypted with the same nonce is the plaintext.
pub proof fn lemma_decrypt_encrypt(packet_id: u64, sender_id: u64, plain: Seq<u8>)
    ensures
        keystream_xor(packet_id, sender_id, keystream_xor(packet_id, sender_id, plain)) == plain,
{
    let enc = keystream_xor(packet_id, sender_id, plain);
    let ks = aes128_ctr_keystream(default_key(), nonce(packet_id, sender_id), plain.len());
    assert forall|i: int| 0 <= i < plain.len() implies keystream_xor(
        packet_id,
        sender_id,
        enc,
    )[i] == plain[i] by {
        let a = plain[i];
        let k = ks[i];
        assert((a ^ k) ^ k == a) by (bit_vector);
    }
    assert(keystream_xor(packet_id, sender_id, enc) =~= plain);
}

} // verus!
