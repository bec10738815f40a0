use hardware_vault::envelope::{Envelope, MAX_PUBLIC_KEY_SIZE, MIN_ENVELOPE_SIZE};
use hardware_vault::error::CodecError;

fn sample() -> Envelope {
    Envelope {
        ephemeral_public_key: vec![4, 1, 2],
        nonce: [0, 1, 2, 3, 4, 5, 6, 7, 8, 9, 10, 11],
        ciphertext: b"hi".to_vec(),
        tag: [255; 16],
    }
}

fn sample_bytes() -> Vec<u8> {
    vec![
        0, 3, 4, 1, 2, 0, 1, 2, 3, 4, 5, 6, 7, 8, 9, 10, 11, 104, 105, 255, 255, 255, 255, 255,
        255, 255, 255, 255, 255, 255, 255, 255, 255, 255, 255,
    ]
}

#[test]
fn writes_the_documented_layout() {
    assert_eq!(sample().to_bytes().unwrap(), sample_bytes());
}

#[test]
fn reads_back_what_was_written() {
    let e = Envelope::from_bytes(&sample_bytes()).unwrap();
    assert_eq!(e.ephemeral_public_key, vec![4, 1, 2]);
    assert_eq!(e.nonce, [0, 1, 2, 3, 4, 5, 6, 7, 8, 9, 10, 11]);
    assert_eq!(e.ciphertext, b"hi".to_vec());
    assert_eq!(e.tag, [255; 16]);
}

#[test]
fn empty_plaintext_and_key_make_the_smallest_envelope() {
    let e = Envelope {
        ephemeral_public_key: vec![],
        nonce: [1; 12],
        ciphertext: vec![],
        tag: [2; 16],
    };
    let bytes = e.to_bytes().unwrap();
    assert_eq!(bytes.len(), MIN_ENVELOPE_SIZE);
    assert_eq!(&bytes[..2], &[0, 0]);
    let back = Envelope::from_bytes(&bytes).unwrap();
    assert!(back.ephemeral_public_key.is_empty());
    assert!(back.ciphertext.is_empty());
    assert_eq!(back.nonce, [1; 12]);
    assert_eq!(back.tag, [2; 16]);
}

#[test]
fn length_prefix_is_big_endian() {
    let e = Envelope {
        ephemeral_public_key: vec![7; 300],
        nonce: [0; 12],
        ciphertext: vec![],
        tag: [0; 16],
    };
    let bytes = e.to_bytes().unwrap();
    assert_eq!(&bytes[..2], &[1, 44]);
    assert_eq!(bytes.len(), 2 + 300 + 12 + 16);
}

#[test]
fn largest_key_fits_and_one_more_does_not() {
    let mut e = Envelope {
        ephemeral_public_key: vec![1; MAX_PUBLIC_KEY_SIZE],
        nonce: [0; 12],
        ciphertext: vec![3],
        tag: [0; 16],
    };
    let bytes = e.to_bytes().unwrap();
    assert_eq!(&bytes[..2], &[255, 255]);
    let back = Envelope::from_bytes(&bytes).unwrap();
    assert_eq!(back.ephemeral_public_key.len(), MAX_PUBLIC_KEY_SIZE);
    assert_eq!(back.ciphertext, vec![3]);
    e.ephemeral_public_key.push(1);
    assert!(matches!(e.to_bytes(), Err(CodecError::OversizedPublicKey)));
}

#[test]
fn short_buffers_are_malformed() {
    for n in 0..MIN_ENVELOPE_SIZE {
        let data = vec![0u8; n];
        assert!(matches!(Envelope::from_bytes(&data), Err(CodecError::MalformedBlob)));
    }
    let data = vec![0u8; MIN_ENVELOPE_SIZE];
    assert!(Envelope::from_bytes(&data).is_ok());
}

#[test]
fn key_length_past_the_end_is_malformed() {
    let mut data = sample_bytes();
    data[1] = 6;
    assert!(matches!(Envelope::from_bytes(&data), Err(CodecError::MalformedBlob)));
    let mut data = sample_bytes();
    data[0] = 255;
    data[1] = 255;
    assert!(matches!(Envelope::from_bytes(&data), Err(CodecError::MalformedBlob)));
    let mut data = sample_bytes();
    data[1] = 5;
    let e = Envelope::from_bytes(&data).unwrap();
    assert_eq!(e.ephemeral_public_key.len(), 5);
    assert!(e.ciphertext.is_empty());
}

#[test]
fn damaged_payload_still_parses_with_same_key_and_nonce() {
    let original = sample_bytes();
    let start = 2 + 3 + 12;
    for i in start..original.len() {
        for bit in 0..8 {
            let mut data = original.clone();
            data[i] ^= 1 << bit;
            let e = Envelope::from_bytes(&data).unwrap();
            assert_eq!(e.ephemeral_public_key, vec![4, 1, 2]);
            assert_eq!(e.nonce, [0, 1, 2, 3, 4, 5, 6, 7, 8, 9, 10, 11]);
            let mut payload = e.ciphertext.clone();
            payload.extend_from_slice(&e.tag);
            assert_ne!(payload, original[start..].to_vec());
        }
    }
}
