//! The text form of an envelope (standard base64) and the UTF-8 form of a
//! plaintext.

use base64::engine::general_purpose::STANDARD;
use base64::Engine;
use vstd::prelude::*;
use vstd::utf8::{decode_utf8, encode_utf8, valid_utf8};

use crate::envelope::{
    ciphertext_region, copy_range, is_well_framed, key_region, nonce_region, tag_region, Envelope,
};
use crate::error::CodecError;

verus! {

/// The text that base64's standard engine writes for these bytes.
pub uninterp spec fn base64_encoding(bytes: Seq<u8>) -> Seq<char>;

/// The bytes that base64's standard engine reads from this text, or `None`
/// where it refuses the text.
pub uninterp spec fn base64_decoding(text: Seq<char>) -> Option<Seq<u8>>;

#[verifier::external_type_specification]
#[verifier::external_body]
pub struct ExDecodeError(base64::DecodeError);

/// Relies on base64's `Engine::encode` for the standard engine (standard
/// alphabet, canonical padding): four characters for each started group of
/// three bytes, read back by its `decode` as the same bytes.
#[verifier::external_body]
fn encode_base64(bytes: &[u8]) -> (r: String)
    ensures
        r@ == base64_encoding(bytes@),
        r@.len() == 4 * ((bytes@.len() + 2) / 3),
        base64_decoding(r@) == Some(bytes@),
{
    STANDARD.encode(bytes)
}

/// Relies on base64's `Engine::decode` for the standard engine.
#[verifier::external_body]
pub(crate) fn decode_base64(text: &str) -> (r: Result<Vec<u8>, base64::DecodeError>)
    ensures
        match r {
            Ok(v) => base64_decoding(text@) == Some(v@),
            Err(_) => base64_decoding(text@) is None,
        },
{
    STANDARD.decode(text)
}

/// Relies on `String::from_utf8`: it accepts exactly the valid UTF-8 byte
/// sequences, and the string holds the characters they encode.
#[verifier::external_body]
pub(crate) fn string_from_utf8(bytes: Vec<u8>) -> (r: Option<String>)
    ensures
        r is Some <==> valid_utf8(bytes@),
        r matches Some(s) ==> s@ == decode_utf8(bytes@),
{
    String::from_utf8(bytes).ok()
}

/// The four parts of an envelope, as plain sequences.
pub open spec fn parts_of(e: Envelope) -> (Seq<u8>, Seq<u8>, Seq<u8>, Seq<u8>) {
    (e.ephemeral_public_key@, e.nonce@, e.ciphertext@, e.tag@)
}

/// What opening a text gives: its decoded bytes taken apart, or the reason it
/// cannot be.
pub open spec fn opened(text: Seq<char>) -> Result<(Seq<u8>, Seq<u8>, Seq<u8>, Seq<u8>), CodecError> {
    match base64_decoding(text) {
        None => Err(CodecError::InvalidEncoding),
        Some(d) => if is_well_framed(d) {
            Ok((key_region(d), nonce_region(d), ciphertext_region(d), tag_region(d)))
        } else {
            Err(CodecError::MalformedBlob)
        },
    }
}

/// Writes an envelope as base64 text.
///
/// Fails with `OversizedPublicKey` exactly when the key does not fit the
/// length prefix.
pub fn seal_envelope(e: &Envelope) -> (r: Result<String, CodecError>)
    ensures
        e.fits() ==> r is Ok,
        !e.fits() ==> r == Err::<String, CodecError>(CodecError::OversizedPublicKey),
        r matches Ok(s) ==> s@ == base64_encoding(e.bytes()) && base64_decoding(s@) == Some(
            e.bytes(),
        ) && s@.len() == 4 * ((e.bytes().len() + 2) / 3),
{
    match e.to_bytes() {
        Ok(bytes) => Ok(encode_base64(bytes.as_slice())),
        Err(err) => Err(err),
    }
}

/// Reads an envelope from base64 text.
///
/// Fails with `InvalidEncoding` where the text is not base64, and with
/// `MalformedBlob` where the decoded bytes are not framed as an envelope.
pub fn open_envelope(text: &str) -> (r: Result<Envelope, CodecError>)
    ensures
        r is Ok <==> opened(text@) is Ok,
        r matches Ok(e) ==> opened(text@) == Ok::<_, CodecError>(parts_of(e)) && e.fits(),
        r matches Err(x) ==> opened(text@) == Err::<(Seq<u8>, Seq<u8>, Seq<u8>, Seq<u8>), CodecError>(x),
{
    match decode_base64(text) {
        Ok(bytes) => Envelope::from_bytes(bytes.as_slice()),
        Err(_) => Err(CodecError::InvalidEncoding),
    }
}

/// The UTF-8 bytes of a plaintext.
pub fn plaintext_bytes(plaintext: &str) -> (r: Vec<u8>)
    ensures
        r@ == encode_utf8(plaintext@),
{
    let bytes = plaintext.as_bytes();
    copy_range(bytes, 0, bytes.len())
}

/// The plaintext that recovered bytes encode.
///
/// Fails with `InvalidUtf8` exactly when the bytes are not UTF-8.
pub fn plaintext_from_bytes(bytes: Vec<u8>) -> (r: Result<String, CodecError>)
    ensures
        r is Ok <==> valid_utf8(bytes@),
        r matches Ok(s) ==> s@ == decode_utf8(bytes@),
        !valid_utf8(bytes@) ==> r == Err::<String, CodecError>(CodecError::InvalidUtf8),
{
    match string_from_utf8(bytes) {
        Some(s) => Ok(s),
        None => Err(CodecError::InvalidUtf8),
    }
}

} // verus!

verus! {

/// Opening the text that sealing wrote gives back the sealed parts. The text
/// `seal_envelope` returns for `e` decodes to `e`'s bytes, as its contract
/// states; opening any such text yields exactly `e`'s four parts.
pub proof fn lemma_open_sealed(e: Envelope, text: Seq<char>)
    requires
        e.fits(),
        base64_decoding(text) == Some(e.bytes()),
    ensures
        opened(text) == Ok::<_, CodecError>(parts_of(e)),
{
    crate::envelope::lemma_layout_round_trip(e);
}

/// A plaintext's UTF-8 bytes are accepted as UTF-8 and decode to the same
/// plaintext, whatever characters it holds (none, or multi-byte ones).
pub proof fn lemma_plaintext_round_trip(plaintext: Seq<char>)
    ensures
        valid_utf8(encode_utf8(plaintext)),
        decode_utf8(encode_utf8(plaintext)) == plaintext,
{
    vstd::utf8::encode_utf8_valid_utf8(plaintext);
    vstd::utf8::encode_utf8_decode_utf8(plaintext);
}

} // verus!

verus! {

/// Text whose decoded bytes are shorter than the fixed overhead, or shorter
/// than the overhead plus the key length they declare, opens to
/// `MalformedBlob`; text that is not base64 opens to `InvalidEncoding`.
pub proof fn lemma_truncated_is_malformed(text: Seq<char>)
    ensures
        base64_decoding(text) is None ==> opened(text) == Err::<
            (Seq<u8>, Seq<u8>, Seq<u8>, Seq<u8>),
            CodecError,
        >(CodecError::InvalidEncoding),
        base64_decoding(text) matches Some(d) && (d.len() < crate::envelope::MIN_ENVELOPE_SIZE || (
        d.len() >= 2 && d.len() < crate::envelope::MIN_ENVELOPE_SIZE
            + crate::envelope::declared_key_len(d))) ==> opened(text) == Err::<
            (Seq<u8>, Seq<u8>, Seq<u8>, Seq<u8>),
            CodecError,
        >(CodecError::MalformedBlob),
{
}

} // verus!
