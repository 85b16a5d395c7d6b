use hs110_exporter::cipher::{decrypt, encrypt, INITIAL_KEY};
use hs110_exporter::hs110_client::{HS110Client, HS110ClientConfig};

fn client() -> HS110Client {
    HS110Client::new(HS110ClientConfig::new(10).unwrap())
}

fn pattern(len: usize) -> Vec<u8> {
    (0..len).map(|i| ((i * 7 + 3) % 256) as u8).collect()
}

#[test]
fn initial_key_is_0xab() {
    assert_eq!(INITIAL_KEY, 0xAB);
}

#[test]
fn encrypt_of_nothing_is_nothing() {
    assert_eq!(encrypt(&[]), Vec::<u8>::new());
    assert_eq!(decrypt(&[]), Vec::<u8>::new());
}

#[test]
fn encrypt_first_byte_uses_the_initial_key() {
    assert_eq!(encrypt(&[0x00]), vec![0xAB]);
    assert_eq!(encrypt(&[0xAB]), vec![0x00]);
    assert_eq!(encrypt(&[b'{']), vec![0xD0]);
}

#[test]
fn encrypt_chains_on_the_ciphertext() {
    assert_eq!(encrypt(b"hello"), vec![195, 166, 202, 166, 201]);
}

#[test]
fn decrypt_chains_on_the_ciphertext() {
    assert_eq!(decrypt(&[1, 2, 3, 4]), vec![170, 3, 1, 7]);
}

#[test]
fn encrypt_matches_a_known_device_request() {
    let expected = [
        0xd0, 0xf2, 0x81, 0xf8, 0x8b, 0xff, 0x9a, 0xf7, 0xd5, 0xef, 0x94, 0xb6, 0xd1, 0xb4, 0xc0,
        0x9f, 0xec, 0x95, 0xe6, 0x8f, 0xe1, 0x87, 0xe8, 0xca, 0xf0, 0x8b, 0xf6, 0x8b, 0xf6,
    ];
    assert_eq!(encrypt(b"{\"system\":{\"get_sysinfo\":{}}}"), expected.to_vec());
    assert_eq!(decrypt(&expected), b"{\"system\":{\"get_sysinfo\":{}}}".to_vec());
}

#[test]
fn decrypt_undoes_encrypt() {
    for len in [0usize, 1, 2, 3, 62, 255, 256, 2048] {
        let plain = pattern(len);
        assert_eq!(decrypt(&encrypt(&plain)), plain, "length {}", len);
    }
}

#[test]
fn encrypt_undoes_decrypt() {
    for len in [0usize, 1, 2, 17, 2048] {
        let cipher = pattern(len);
        assert_eq!(encrypt(&decrypt(&cipher)), cipher, "length {}", len);
    }
}

#[test]
fn encrypt_keeps_no_state_between_calls() {
    let plain = pattern(300);
    let first = encrypt(&plain);
    let _ = encrypt(b"something else in between");
    let second = encrypt(&plain);
    assert_eq!(first, second);
}

#[test]
fn encrypt_of_a_long_message_has_the_expected_ends() {
    let cipher = encrypt(&pattern(2048));
    assert_eq!(cipher.len(), 2048);
    assert_eq!(&cipher[..4], &[0xa8, 0xa2, 0xb3, 0xab]);
    assert_eq!(&cipher[2044..], &[0x4c, 0xa2, 0x57, 0xab]);
}

#[test]
fn client_encrypt_and_decrypt_are_the_cipher() {
    let client = client();
    let plain = pattern(100);
    assert_eq!(client.encrypt(plain.clone()), encrypt(&plain));
    assert_eq!(client.decrypt(plain.clone()), decrypt(&plain));
    assert_eq!(client.decrypt(client.encrypt(plain.clone())), plain);
}

#[test]
fn discovery_probe_is_the_encrypted_request() {
    let expected: Vec<u8> = vec![
        208, 242, 129, 248, 139, 255, 154, 247, 213, 239, 148, 182, 209, 180, 192, 159, 236, 149,
        230, 143, 225, 135, 232, 202, 240, 158, 235, 135, 235, 150, 186, 152, 253, 144, 245, 129,
        228, 150, 180, 142, 245, 215, 176, 213, 161, 254, 140, 233, 136, 228, 144, 249, 148, 241,
        211, 233, 135, 242, 158, 242, 143, 242,
    ];
    let probe = client().discovery_probe();
    assert_eq!(probe, expected);
    assert_eq!(
        decrypt(&probe),
        b"{\"system\":{\"get_sysinfo\":null},\"emeter\":{\"get_realtime\":null}}".to_vec()
    );
}
