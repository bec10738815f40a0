use hardware_vault::codec::{
    begin_unseal, decrypt_with_hardware_key, encrypt_with_hardware_key, SealWork, UnsealWork,
};
use hardware_vault::envelope::Envelope;
use hardware_vault::error::{CodecError, KeyError};
use hardware_vault::provider::Platform;
use hardware_vault::text::plaintext_bytes;

fn p256_point() -> Vec<u8> {
    let mut k = vec![4u8];
    k.extend(1..65u8);
    k
}

#[test]
fn seal_maps_provider_failures() {
    let p = Platform::SecureEnclave;
    assert!(matches!(
        encrypt_with_hardware_key(p, SealWork::RecipientFailed(KeyError::KeyNotFound)),
        Err(CodecError::RecipientKeyUnavailable)
    ));
    assert!(matches!(
        encrypt_with_hardware_key(p, SealWork::RecipientFailed(KeyError::AgreementFailed)),
        Err(CodecError::Key(KeyError::AgreementFailed))
    ));
    assert!(matches!(
        encrypt_with_hardware_key(p, SealWork::AgreementFailed),
        Err(CodecError::Key(KeyError::AgreementFailed))
    ));
    assert!(matches!(
        encrypt_with_hardware_key(p, SealWork::CipherFailed),
        Err(CodecError::CipherFailed)
    ));
    assert!(matches!(
        encrypt_with_hardware_key(Platform::Unsupported, SealWork::CipherFailed),
        Err(CodecError::Key(KeyError::Unavailable))
    ));
}

#[test]
fn unseal_maps_failures() {
    assert!(matches!(
        decrypt_with_hardware_key(UnsealWork::AgreementFailed(KeyError::AuthenticationCancelled)),
        Err(CodecError::Key(KeyError::AuthenticationCancelled))
    ));
    assert!(matches!(
        decrypt_with_hardware_key(UnsealWork::AgreementFailed(KeyError::KeyNotFound)),
        Err(CodecError::Key(KeyError::KeyNotFound))
    ));
    assert!(matches!(
        decrypt_with_hardware_key(UnsealWork::TagRejected),
        Err(CodecError::TagMismatch)
    ));
    assert!(matches!(
        decrypt_with_hardware_key(UnsealWork::CipherFailed),
        Err(CodecError::CipherFailed)
    ));
    assert!(matches!(
        decrypt_with_hardware_key(UnsealWork::Decrypted(vec![0xc0])),
        Err(CodecError::InvalidUtf8)
    ));
    let readable = "AAAAAAAAAAAAAAAAAAAAAAAAAAAAAAAAAAAAAAAA";
    assert!(begin_unseal(Platform::Tpm, readable).is_ok());
    assert!(matches!(
        begin_unseal(Platform::Unsupported, readable),
        Err(CodecError::Key(KeyError::Unavailable))
    ));
}

#[test]
fn vault_secret_scenario() {
    let platform = Platform::Tpm;
    // The platform's cipher keeps the plaintext length; any bytes stand in here.
    let plaintext = plaintext_bytes("vault-secret-v1");
    let sealed = Envelope {
        ephemeral_public_key: p256_point(),
        nonce: [7; 12],
        ciphertext: plaintext.clone(),
        tag: [9; 16],
    };
    let text = encrypt_with_hardware_key(platform, SealWork::Sealed(sealed)).unwrap();
    assert_eq!(
        text,
        "AEEEAQIDBAUGBwgJCgsMDQ4PEBESExQVFhcYGRobHB0eHyAhIiMkJSYnKCkqKywtLi8wMTIzNDU2Nzg5Ojs8PT4/QAcHBwcHBwcHBwcHB3ZhdWx0LXNlY3JldC12MQkJCQkJCQkJCQkJCQkJCQk="
    );
    assert_eq!(text.len(), 148);
    let opened = begin_unseal(platform, &text).unwrap();
    assert_eq!(opened.ephemeral_public_key.len(), 65);
    assert_eq!(opened.ephemeral_public_key[0], 4);
    assert_eq!(opened.nonce, [7; 12]);
    assert_eq!(opened.tag, [9; 16]);
    let unsealed = decrypt_with_hardware_key(UnsealWork::Decrypted(opened.ciphertext)).unwrap();
    assert_eq!(unsealed, "vault-secret-v1");
    // After the key is deleted, the agreement reports the missing key.
    let again = begin_unseal(platform, &text).unwrap();
    assert_eq!(again.ephemeral_public_key, p256_point());
    assert!(matches!(
        decrypt_with_hardware_key(UnsealWork::AgreementFailed(KeyError::KeyNotFound)),
        Err(CodecError::Key(KeyError::KeyNotFound))
    ));
}

#[test]
fn multibyte_plaintext_unseals() {
    let bytes = plaintext_bytes("clé 🔑");
    assert_eq!(bytes.len(), 9);
    assert_eq!(decrypt_with_hardware_key(UnsealWork::Decrypted(bytes)).unwrap(), "clé 🔑");
    assert_eq!(decrypt_with_hardware_key(UnsealWork::Decrypted(vec![])).unwrap(), "");
}

#[test]
fn error_messages() {
    assert_eq!(
        KeyError::AuthenticationCancelled.message(),
        "Authentication cancelled by user"
    );
    assert_eq!(
        CodecError::Key(KeyError::Unavailable).message(),
        "Hardware security not supported on this platform"
    );
    assert_eq!(CodecError::MalformedBlob.message(), "Encrypted data too short");
    assert_eq!(
        CodecError::TagMismatch.message(),
        "AES-GCM decryption failed. Tag mismatch or corrupted data."
    );
    assert_eq!(CodecError::InvalidEncoding.message(), "Invalid base64");
}


#[test]
fn unreadable_text_is_refused_before_the_platform_is_asked() {
    for platform in [Platform::SecureEnclave, Platform::Tpm, Platform::Unsupported] {
        assert!(matches!(begin_unseal(platform, "AAAA"), Err(CodecError::MalformedBlob)));
        assert!(matches!(begin_unseal(platform, "AA%%"), Err(CodecError::InvalidEncoding)));
        // Declares a 255-byte key in a 30-byte buffer.
        assert!(matches!(
            begin_unseal(platform, "AP8AAAAAAAAAAAAAAAAAAAAAAAAAAAAAAAAAAAAA"),
            Err(CodecError::MalformedBlob)
        ));
    }
}
