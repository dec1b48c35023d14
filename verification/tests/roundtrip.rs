use chacha_aead::{ChaCha20Poly1305, CryptoUtils, ErrorKind, XChaCha20Poly1305};

const SECRET_LENGTH: usize = 32;
const NONCE_LENGTH: usize = 12;
const XNONCE_LENGTH: usize = 24;

fn test_key() -> [u8; SECRET_LENGTH] {
    let mut secret = [0u8; SECRET_LENGTH];
    getrandom::getrandom(&mut secret).unwrap();
    secret
}

fn test_nonce() -> [u8; NONCE_LENGTH] {
    let mut nonce = [0u8; NONCE_LENGTH];
    getrandom::getrandom(&mut nonce).unwrap();
    nonce
}

fn test_xnonce() -> [u8; XNONCE_LENGTH] {
    let mut nonce = [0u8; XNONCE_LENGTH];
    getrandom::getrandom(&mut nonce).unwrap();
    nonce
}

fn from_hex(text: &str) -> Vec<u8> {
    (0..text.len() / 2)
        .map(|i| u8::from_str_radix(&text[2 * i..2 * i + 2], 16).unwrap())
        .collect()
}

#[test]
fn test_chacha20poly1305_encrypt_decrypt() {
    let plaintext = b"Hello, World! This is a test message.";
    let key = test_key();
    let nonce = test_nonce();

    let cipher = ChaCha20Poly1305::new(&key).unwrap();

    let encrypted = cipher.encrypt(&nonce, plaintext).unwrap();
    assert_ne!(encrypted, plaintext);
    assert!(encrypted.len() > plaintext.len());

    let decrypted = cipher.decrypt(&nonce, &encrypted).unwrap();
    assert_eq!(decrypted, plaintext);
}

#[test]
fn test_xchacha20poly1305_encrypt_decrypt() {
    let plaintext = b"Hello, World! This is a test message for XChaCha20.";
    let key = test_key();
    let nonce = test_xnonce();

    let cipher = XChaCha20Poly1305::new(&key).unwrap();

    let encrypted = cipher.encrypt(&nonce, plaintext).unwrap();
    assert_ne!(encrypted, plaintext);

    let decrypted = cipher.decrypt(&nonce, &encrypted).unwrap();
    assert_eq!(decrypted, plaintext);
}

#[test]
fn zero_key_and_nonce_seal_hello_world() {
    let cipher = ChaCha20Poly1305::new(&[0u8; 32]).unwrap();
    let nonce = [0u8; 12];
    let encrypted = cipher.encrypt(&nonce, b"Hello, World!").unwrap();
    assert_eq!(encrypted.len(), 29);
    assert_eq!(
        encrypted,
        from_hex("d7628bd23a7d182df7c8fb1852505a656cc1525190180b8708711619f7")
    );
    let decrypted = cipher.decrypt(&nonce, &encrypted).unwrap();
    assert_eq!(decrypted, b"Hello, World!");
}

#[test]
fn zero_key_and_nonce_seal_hello_world_extended() {
    let cipher = XChaCha20Poly1305::new(&[0u8; 32]).unwrap();
    let nonce = [0u8; 24];
    let encrypted = cipher.encrypt(&nonce, b"Hello, World!").unwrap();
    assert_eq!(encrypted.len(), 29);
    assert_eq!(
        encrypted,
        from_hex("30fbfae58a0cad28b6939fa194405ed94e7aad33a4339ef4654441359b")
    );
    let decrypted = cipher.decrypt(&nonce, &encrypted).unwrap();
    assert_eq!(decrypted, b"Hello, World!");
}

#[test]
fn counting_key_and_nonce_known_answers() {
    let key: Vec<u8> = (0u8..32).collect();
    let nonce: Vec<u8> = (0u8..12).collect();
    let xnonce: Vec<u8> = (0u8..24).collect();
    let standard = ChaCha20Poly1305::new(&key).unwrap();
    let extended = XChaCha20Poly1305::new(&key).unwrap();
    assert_eq!(
        standard.encrypt(&nonce, b"Hello, World!").unwrap(),
        from_hex("c19e646c463b8517d8f15397b94a9688ed5848cf1de29bf7cb3ad8b9d3")
    );
    assert_eq!(
        extended.encrypt(&xnonce, b"Hello, World!").unwrap(),
        from_hex("d6a76313fffeadf95c364aaaea5a7cff4f8e2eb4842cf3d081e8fb31ec")
    );
    assert_eq!(
        standard
            .decrypt(
                &nonce,
                &from_hex("c19e646c463b8517d8f15397b94a9688ed5848cf1de29bf7cb3ad8b9d3")
            )
            .unwrap(),
        b"Hello, World!"
    );
    assert_eq!(
        extended
            .decrypt(
                &xnonce,
                &from_hex("d6a76313fffeadf95c364aaaea5a7cff4f8e2eb4842cf3d081e8fb31ec")
            )
            .unwrap(),
        b"Hello, World!"
    );
}

#[test]
fn empty_plaintext_seals_to_a_bare_tag() {
    let standard = ChaCha20Poly1305::new(&[0u8; 32]).unwrap();
    let sealed = standard.encrypt(&[0u8; 12], b"").unwrap();
    assert_eq!(sealed, from_hex("4eb972c9a8fb3a1b382bb4d36f5ffad1"));
    assert_eq!(standard.decrypt(&[0u8; 12], &sealed).unwrap(), Vec::<u8>::new());

    let extended = XChaCha20Poly1305::new(&[0u8; 32]).unwrap();
    let sealed = extended.encrypt(&[0u8; 24], b"").unwrap();
    assert_eq!(sealed, from_hex("8f3b945a51906dc8600de9f8962d00e6"));
    assert_eq!(extended.decrypt(&[0u8; 24], &sealed).unwrap(), Vec::<u8>::new());
}

#[test]
fn round_trip_over_many_lengths() {
    let key: Vec<u8> = (100u8..132).collect();
    let standard = ChaCha20Poly1305::new(&key).unwrap();
    let extended = XChaCha20Poly1305::new(&key).unwrap();
    for len in [0usize, 1, 15, 16, 17, 63, 64, 65, 127, 128, 1000, 4097] {
        let plaintext: Vec<u8> = (0..len).map(|i| (i * 7 + 3) as u8).collect();
        let sealed = standard.encrypt(&[9u8; 12], &plaintext).unwrap();
        assert_eq!(sealed.len(), len + 16);
        assert_eq!(standard.decrypt(&[9u8; 12], &sealed).unwrap(), plaintext);
        let sealed = extended.encrypt(&[9u8; 24], &plaintext).unwrap();
        assert_eq!(sealed.len(), len + 16);
        assert_eq!(extended.decrypt(&[9u8; 24], &sealed).unwrap(), plaintext);
    }
}

#[test]
fn one_instance_serves_many_nonces() {
    let cipher = ChaCha20Poly1305::new(&[5u8; 32]).unwrap();
    let first = cipher.encrypt(&[1u8; 12], b"same message").unwrap();
    let second = cipher.encrypt(&[2u8; 12], b"same message").unwrap();
    assert_ne!(first, second);
    assert_eq!(cipher.decrypt(&[1u8; 12], &first).unwrap(), b"same message");
    assert_eq!(cipher.decrypt(&[2u8; 12], &second).unwrap(), b"same message");

    let cipher = XChaCha20Poly1305::new(&[5u8; 32]).unwrap();
    let first = cipher.encrypt(&[1u8; 24], b"same message").unwrap();
    let second = cipher.encrypt(&[2u8; 24], b"same message").unwrap();
    assert_ne!(first, second);
}

#[test]
fn sealing_is_deterministic() {
    let cipher = ChaCha20Poly1305::new(&[5u8; 32]).unwrap();
    assert_eq!(
        cipher.encrypt(&[1u8; 12], b"twice").unwrap(),
        cipher.encrypt(&[1u8; 12], b"twice").unwrap()
    );
    let again = ChaCha20Poly1305::new(&[5u8; 32]).unwrap();
    assert_eq!(
        cipher.encrypt(&[1u8; 12], b"twice").unwrap(),
        again.encrypt(&[1u8; 12], b"twice").unwrap()
    );
}

#[test]
fn the_two_variants_differ() {
    let key = [7u8; 32];
    let standard = ChaCha20Poly1305::new(&key).unwrap();
    let extended = XChaCha20Poly1305::new(&key).unwrap();
    let a = standard.encrypt(&[0u8; 12], b"variant").unwrap();
    let b = extended.encrypt(&[0u8; 24], b"variant").unwrap();
    assert_ne!(a, b);
}

#[test]
fn a_plaintext_bit_moves_the_same_ciphertext_bit() {
    let cipher = ChaCha20Poly1305::new(&[3u8; 32]).unwrap();
    let nonce = [4u8; 12];
    let plain: Vec<u8> = (0u8..100).collect();
    let sealed = cipher.encrypt(&nonce, &plain).unwrap();
    for (index, bit) in [(0usize, 0u8), (17, 3), (64, 7), (99, 5)] {
        let mut changed = plain.clone();
        changed[index] ^= 1 << bit;
        let resealed = cipher.encrypt(&nonce, &changed).unwrap();
        for i in 0..plain.len() {
            if i == index {
                assert_eq!(resealed[i], sealed[i] ^ (1 << bit));
            } else {
                assert_eq!(resealed[i], sealed[i]);
            }
        }
        assert_ne!(&resealed[100..], &sealed[100..]);
    }
}

#[test]
fn a_prefix_is_masked_like_the_whole() {
    let cipher = XChaCha20Poly1305::new(&[3u8; 32]).unwrap();
    let nonce = [4u8; 24];
    let plain: Vec<u8> = (0u8..200).collect();
    let whole = cipher.encrypt(&nonce, &plain).unwrap();
    let part = cipher.encrypt(&nonce, &plain[..70]).unwrap();
    assert_eq!(&part[..70], &whole[..70]);
}

#[test]
fn generated_key_and_nonce_work_together() {
    let key = ChaCha20Poly1305::generate_key().unwrap();
    let nonce = ChaCha20Poly1305::generate_nonce().unwrap();
    assert_eq!(key.len(), 32);
    assert_eq!(nonce.len(), 12);
    let cipher = ChaCha20Poly1305::new(&key).unwrap();
    let sealed = cipher.encrypt(&nonce, b"generated").unwrap();
    assert_eq!(cipher.decrypt(&nonce, &sealed).unwrap(), b"generated");

    let key = XChaCha20Poly1305::generate_key().unwrap();
    let nonce = XChaCha20Poly1305::generate_nonce().unwrap();
    assert_eq!(key.len(), 32);
    assert_eq!(nonce.len(), 24);
    let cipher = XChaCha20Poly1305::new(&key).unwrap();
    let sealed = cipher.encrypt(&nonce, b"generated").unwrap();
    assert_eq!(cipher.decrypt(&nonce, &sealed).unwrap(), b"generated");
}

#[test]
fn generate_key_twice_gives_two_keys() {
    let first = ChaCha20Poly1305::generate_key().unwrap();
    let second = ChaCha20Poly1305::generate_key().unwrap();
    assert_eq!(first.len(), 32);
    assert_eq!(second.len(), 32);
    assert_ne!(first, second);
}

#[test]
fn random_bytes_have_the_length_asked_for() {
    for size in [0usize, 1, 12, 24, 32, 257, 4096] {
        assert_eq!(CryptoUtils::random_bytes(size).unwrap().len(), size);
    }
}

#[test]
fn random_bytes_are_written_and_differ() {
    let first = CryptoUtils::random_bytes(64).unwrap();
    let second = CryptoUtils::random_bytes(64).unwrap();
    assert_ne!(first, vec![0u8; 64]);
    assert_ne!(first, second);
}

#[test]
fn error_kind_of_a_short_key_is_shown() {
    let error = ChaCha20Poly1305::new(&[0u8; 16]).err().unwrap();
    assert_eq!(error.kind, ErrorKind::InvalidKeyLength);
    assert_eq!(error.message(), "Invalid secret key length!");
}
