use hydragate::clock::{clock_epoch_secs, clock_subsec_nanos};
use hydragate::crypto::{decrypt_proxies, encrypt_proxies, key_from_bytes, seal_with_nonce, CryptoError};

fn hex(b: &[u8]) -> String {
    b.iter().map(|x| format!("{:02x}", x)).collect()
}

#[test]
fn seal_matches_known_vectors() {
    let key = vec![0u8; 32];
    let nonce = vec![0u8; 12];
    let empty = seal_with_nonce(&key, &nonce, &[]).unwrap();
    assert_eq!(hex(&empty), format!("{}{}", "00".repeat(12), "530f8afbc74536b9a963b4f1c4cb738b"));
    let block = seal_with_nonce(&key, &nonce, &[0u8; 16]).unwrap();
    assert_eq!(
        hex(&block[12..]),
        "cea7403d4d606b6e074ec5d3baf39d18d0d1c8a799996bf0265b98b5d48ab919"
    );
}

#[test]
fn encrypt_then_decrypt_round_trips() {
    let key = key_from_bytes(b"0123456789abcdef0123456789abcdef");
    let plaintext = b"[{\"id\":\"a\"}]".to_vec();
    let sealed = encrypt_proxies(&key, &plaintext).unwrap();
    assert_eq!(sealed.len(), 12 + plaintext.len() + 16);
    assert_ne!(&sealed[12..12 + plaintext.len()], &plaintext[..]);
    assert_eq!(decrypt_proxies(&key, &sealed).unwrap(), plaintext);
}

#[test]
fn decrypt_refuses_short_or_tampered_envelopes() {
    let key = key_from_bytes(&[7u8; 32]);
    assert!(matches!(decrypt_proxies(&key, &[0u8; 11]), Err(CryptoError::GcmError)));
    let mut sealed = encrypt_proxies(&key, b"hello").unwrap();
    let last = sealed.len() - 1;
    sealed[last] ^= 1;
    assert!(matches!(decrypt_proxies(&key, &sealed), Err(CryptoError::GcmError)));
    let other = key_from_bytes(&[8u8; 32]);
    let sealed = encrypt_proxies(&key, b"hello").unwrap();
    assert!(matches!(decrypt_proxies(&other, &sealed), Err(CryptoError::GcmError)));
}

#[test]
fn stored_key_is_truncated_or_zero_padded() {
    let short = key_from_bytes(&[1, 2, 3]);
    assert_eq!(short.len(), 32);
    assert_eq!(&short[..3], &[1, 2, 3]);
    assert!(short[3..].iter().all(|b| *b == 0));
    let long: Vec<u8> = (0u8..40).collect();
    let key = key_from_bytes(&long);
    assert_eq!(key, (0u8..32).collect::<Vec<u8>>());
}

#[test]
fn clock_readings_are_in_range() {
    assert!(clock_subsec_nanos() < 1_000_000_000);
    assert!(clock_epoch_secs() > 1_600_000_000);
}
