//! The failures that the vault reports.

use vstd::prelude::*;

verus! {

/// Failures of the hardware key provider.
#[derive(Clone, Copy, Debug, PartialEq, Eq, Structural)]
pub enum KeyError {
    /// The platform has no hardware security module.
    Unavailable,
    /// No key with the vault's label exists.
    KeyNotFound,
    /// The module refused the access policy or the key creation.
    GenerationFailed,
    /// The module refused to remove an existing key.
    DeletionFailed,
    /// Key agreement failed for a reason other than the user's choice.
    AgreementFailed,
    /// The user dismissed the biometric or passcode prompt.
    AuthenticationCancelled,
}

/// Failures of sealing and unsealing.
#[derive(Clone, Copy, Debug, PartialEq, Eq, Structural)]
pub enum CodecError {
    /// A failure of the hardware key provider, passed on unchanged.
    Key(KeyError),
    /// The recipient's public key could not be read: no key was generated.
    RecipientKeyUnavailable,
    /// The text is not valid base64.
    InvalidEncoding,
    /// The bytes do not have the structure of an envelope.
    MalformedBlob,
    /// The ephemeral public key is too long for the two-byte length prefix.
    OversizedPublicKey,
    /// The authenticated cipher could not run.
    CipherFailed,
    /// Authenticated decryption failed: tampered data or a wrong key.
    TagMismatch,
    /// The recovered plaintext is not UTF-8.
    InvalidUtf8,
}

} // verus!

verus! {

/// The text by which a provider failure is shown.
pub open spec fn key_error_text(e: KeyError) -> Seq<char> {
    match e {
        KeyError::Unavailable => "Hardware security not supported on this platform"@,
        KeyError::KeyNotFound => "Hardware key not found. Generate one first."@,
        KeyError::GenerationFailed => "Failed to generate hardware key"@,
        KeyError::DeletionFailed => "Failed to delete hardware key"@,
        KeyError::AgreementFailed => "ECDH key exchange failed"@,
        KeyError::AuthenticationCancelled => "Authentication cancelled by user"@,
    }
}

/// The text by which a codec failure is shown.
pub open spec fn codec_error_text(e: CodecError) -> Seq<char> {
    match e {
        CodecError::Key(k) => key_error_text(k),
        CodecError::RecipientKeyUnavailable => "Hardware key unavailable for encryption. Generate one first."@,
        CodecError::InvalidEncoding => "Invalid base64"@,
        CodecError::MalformedBlob => "Encrypted data too short"@,
        CodecError::OversizedPublicKey => "Ephemeral public key too long"@,
        CodecError::CipherFailed => "AES-GCM operation failed"@,
        CodecError::TagMismatch => "AES-GCM decryption failed. Tag mismatch or corrupted data."@,
        CodecError::InvalidUtf8 => "Decrypted data is not valid UTF-8"@,
    }
}

impl KeyError {
    /// A human-readable description, for callers that report failures as text.
    pub fn message(&self) -> (r: String)
        ensures
            r@ == key_error_text(*self),
    {
        match self {
            KeyError::Unavailable => "Hardware security not supported on this platform".to_string(),
            KeyError::KeyNotFound => "Hardware key not found. Generate one first.".to_string(),
            KeyError::GenerationFailed => "Failed to generate hardware key".to_string(),
            KeyError::DeletionFailed => "Failed to delete hardware key".to_string(),
            KeyError::AgreementFailed => "ECDH key exchange failed".to_string(),
            KeyError::AuthenticationCancelled => "Authentication cancelled by user".to_string(),
        }
    }
}

impl CodecError {
    /// A human-readable description, for callers that report failures as text.
    pub fn message(&self) -> (r: String)
        ensures
            r@ == codec_error_text(*self),
    {
        match self {
            CodecError::Key(k) => k.message(),
            CodecError::RecipientKeyUnavailable => "Hardware key unavailable for encryption. Generate one first.".to_string(),
            CodecError::InvalidEncoding => "Invalid base64".to_string(),
            CodecError::MalformedBlob => "Encrypted data too short".to_string(),
            CodecError::OversizedPublicKey => "Ephemeral public key too long".to_string(),
            CodecError::CipherFailed => "AES-GCM operation failed".to_string(),
            CodecError::TagMismatch => "AES-GCM decryption failed. Tag mismatch or corrupted data.".to_string(),
            CodecError::InvalidUtf8 => "Decrypted data is not valid UTF-8".to_string(),
        }
    }
}

} // verus!
