//! The seal / unseal protocol around the hardware key.
//!
//! Sealing reads only the hardware key's public half, so it never prompts the
//! user; unsealing needs a key agreement with the private half, which is where
//! the user authenticates. The elliptic-curve and cipher operations run on the
//! platform; what they produced is handed to these functions, which decide the
//! result.

use vstd::prelude::*;
use vstd::utf8::{decode_utf8, valid_utf8};

use crate::envelope::Envelope;
use crate::error::{CodecError, KeyError};
use crate::provider::Platform;
use crate::text::{
    base64_decoding, base64_encoding, open_envelope, opened, parts_of, plaintext_from_bytes,
    seal_envelope,
};

verus! {

/// What the platform's cryptography produced for one seal.
pub enum SealWork {
    /// Reading the hardware key's public half failed.
    RecipientFailed(KeyError),
    /// The ephemeral key pair or its agreement with the recipient key failed.
    AgreementFailed,
    /// The authenticated cipher failed.
    CipherFailed,
    /// Everything ran: the parts of the envelope.
    Sealed(Envelope),
}

/// What the platform's cryptography produced for one unseal.
pub enum UnsealWork {
    /// Key agreement with the hardware key failed, or the user declined it.
    AgreementFailed(KeyError),
    /// The cipher could not run.
    CipherFailed,
    /// Authenticated decryption rejected the ciphertext and tag.
    TagRejected,
    /// Authenticated decryption accepted the envelope and gave these bytes.
    Decrypted(Vec<u8>),
}

/// Finishes a seal: writes the envelope as text, or reports why there is none.
///
/// A missing hardware key is `RecipientKeyUnavailable`; other provider
/// failures pass through unchanged.
pub fn encrypt_with_hardware_key(platform: Platform, work: SealWork) -> (r: Result<
    String,
    CodecError,
>)
    ensures
        platform == Platform::Unsupported ==> r == Err::<String, CodecError>(
            CodecError::Key(KeyError::Unavailable),
        ),
        platform != Platform::Unsupported ==> match work {
            SealWork::RecipientFailed(KeyError::KeyNotFound) => r == Err::<String, CodecError>(
                CodecError::RecipientKeyUnavailable,
            ),
            SealWork::RecipientFailed(e) => r == Err::<String, CodecError>(CodecError::Key(e)),
            SealWork::AgreementFailed => r == Err::<String, CodecError>(
                CodecError::Key(KeyError::AgreementFailed),
            ),
            SealWork::CipherFailed => r == Err::<String, CodecError>(CodecError::CipherFailed),
            SealWork::Sealed(e) => {
                &&& e.fits() ==> r is Ok
                &&& !e.fits() ==> r == Err::<String, CodecError>(CodecError::OversizedPublicKey)
                &&& r matches Ok(s) ==> s@ == base64_encoding(e.bytes()) && base64_decoding(s@)
                    == Some(e.bytes())
            },
        },
{
    if platform == Platform::Unsupported {
        return Err(CodecError::Key(KeyError::Unavailable));
    }
    match work {
        SealWork::RecipientFailed(KeyError::KeyNotFound) => Err(
            CodecError::RecipientKeyUnavailable,
        ),
        SealWork::RecipientFailed(e) => Err(CodecError::Key(e)),
        SealWork::AgreementFailed => Err(CodecError::Key(KeyError::AgreementFailed)),
        SealWork::CipherFailed => Err(CodecError::CipherFailed),
        SealWork::Sealed(e) => seal_envelope(&e),
    }
}

/// Starts an unseal: reads the envelope whose ephemeral key the hardware key
/// must agree with. Text that cannot be opened is refused first, with the
/// reason; a readable envelope without a hardware module is `Unavailable`.
pub fn begin_unseal(platform: Platform, text: &str) -> (r: Result<Envelope, CodecError>)
    ensures
        opened(text@) matches Err(x) ==> r == Err::<Envelope, CodecError>(x),
        opened(text@) is Ok && platform == Platform::Unsupported ==> r == Err::<
            Envelope,
            CodecError,
        >(CodecError::Key(KeyError::Unavailable)),
        opened(text@) is Ok && platform != Platform::Unsupported ==> r is Ok,
        r matches Ok(e) ==> opened(text@) == Ok::<_, CodecError>(parts_of(e)) && e.fits(),
{
    let envelope = open_envelope(text)?;
    if platform == Platform::Unsupported {
        return Err(CodecError::Key(KeyError::Unavailable));
    }
    Ok(envelope)
}

/// Finishes an unseal: the plaintext, or why there is none.
///
/// A provider failure (a dismissed prompt, a missing key) passes through
/// unchanged; a rejected tag is `TagMismatch`, whether the data was damaged or
/// the key was wrong.
pub fn decrypt_with_hardware_key(work: UnsealWork) -> (r: Result<String, CodecError>)
    ensures
        match work {
            UnsealWork::AgreementFailed(e) => r == Err::<String, CodecError>(CodecError::Key(e)),
            UnsealWork::CipherFailed => r == Err::<String, CodecError>(CodecError::CipherFailed),
            UnsealWork::TagRejected => r == Err::<String, CodecError>(CodecError::TagMismatch),
            UnsealWork::Decrypted(bytes) => {
                &&& r is Ok <==> valid_utf8(bytes@)
                &&& r matches Ok(s) ==> s@ == decode_utf8(bytes@)
                &&& !valid_utf8(bytes@) ==> r == Err::<String, CodecError>(CodecError::InvalidUtf8)
            },
        },
{
    match work {
        UnsealWork::AgreementFailed(e) => Err(CodecError::Key(e)),
        UnsealWork::CipherFailed => Err(CodecError::CipherFailed),
        UnsealWork::TagRejected => Err(CodecError::TagMismatch),
        UnsealWork::Decrypted(bytes) => plaintext_from_bytes(bytes),
    }
}

} // verus!

