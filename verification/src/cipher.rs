//! The stream cipher that the plugs speak on every exchange.
//!
//! Each byte is XORed with a running key. The key starts at `INITIAL_KEY` and is,
//! after every byte, the ciphertext byte just written (when encrypting) or just
//! read (when decrypting). This hides nothing from anyone who knows the scheme; it
//! is kept byte for byte because the devices expect it.

use vstd::prelude::*;

verus! {

/// The key in force before the first byte of every message.
pub const INITIAL_KEY: u8 = 0xAB;

/// Byte `i` of the ciphertext of `plaintext`: the plaintext byte XORed with the
/// ciphertext byte before it, or with `INITIAL_KEY` for the first byte.
pub open spec fn cipher_byte(plaintext: Seq<u8>, i: int) -> u8
    decreases i + 1,
{
    if i < 0 {
        INITIAL_KEY
    } else {
        plaintext[i] ^ cipher_byte(plaintext, i - 1)
    }
}

/// The ciphertext of `plaintext`.
pub open spec fn encrypt_spec(plaintext: Seq<u8>) -> Seq<u8> {
    Seq::new(plaintext.len(), |i: int| cipher_byte(plaintext, i))
}

/// The key in force before byte `i` of `ciphertext`.
pub open spec fn key_before(ciphertext: Seq<u8>, i: int) -> u8 {
    if i <= 0 {
        INITIAL_KEY
    } else {
        ciphertext[i - 1]
    }
}

/// The plaintext of `ciphertext`.
pub open spec fn decrypt_spec(ciphertext: Seq<u8>) -> Seq<u8> {
    Seq::new(ciphertext.len(), |i: int| ciphertext[i] ^ key_before(ciphertext, i))
}

proof fn lemma_xor_twice(a: u8, k: u8)
    ensures
        (a ^ k) ^ k == a,
{
    assert((a ^ k) ^ k == a) by (bit_vector);
}

/// Decrypting what was encrypted gives the plaintext back, for every byte
/// sequence, the empty one included.
pub proof fn lemma_decrypt_encrypt(plaintext: Seq<u8>)
    ensures
        decrypt_spec(encrypt_spec(plaintext)) == plaintext,
{
    let c = encrypt_spec(plaintext);
    assert forall|i: int| 0 <= i < plaintext.len() implies #[trigger] decrypt_spec(c)[i]
        == plaintext[i] by {
        assert(key_before(c, i) == cipher_byte(plaintext, i - 1));
        lemma_xor_twice(plaintext[i], cipher_byte(plaintext, i - 1));
    }
    assert(decrypt_spec(c) =~= plaintext);
}

/// Encrypting what was decrypted gives the ciphertext back: the two maps are
/// inverse to each other, so no two messages share a ciphertext.
pub proof fn lemma_encrypt_decrypt(ciphertext: Seq<u8>)
    ensures
        encrypt_spec(decrypt_spec(ciphertext)) == ciphertext,
{
    let p = decrypt_spec(ciphertext);
    assert forall|i: int| -1 <= i < ciphertext.len() implies cipher_byte(p, i) == key_before(
        ciphertext,
        i + 1,
    ) by {
        lemma_cipher_byte_of_plaintext(ciphertext, i);
    }
    assert(encrypt_spec(p) =~= ciphertext);
}

proof fn lemma_cipher_byte_of_plaintext(ciphertext: Seq<u8>, i: int)
    requires
        -1 <= i < ciphertext.len(),
    ensures
        cipher_byte(decrypt_spec(ciphertext), i) == key_before(ciphertext, i + 1),
    decreases i + 1,
{
    if i >= 0 {
        lemma_cipher_byte_of_plaintext(ciphertext, i - 1);
        let k = key_before(ciphertext, i);
        let c = ciphertext[i];
        assert((c ^ k) ^ k == c) by (bit_vector);
    }
}

/// Encrypts `input`, starting from `INITIAL_KEY`.
pub fn encrypt(input: &[u8]) -> (output: Vec<u8>)
    ensures
        output@ == encrypt_spec(input@),
{
    let mut output: Vec<u8> = Vec::new();
    let mut key: u8 = INITIAL_KEY;
    let mut i: usize = 0;
    while i < input.len()
        invariant
            i <= input.len(),
            output@.len() == i,
            key == cipher_byte(input@, i - 1),
            forall|j: int| 0 <= j < i ==> output@[j] == cipher_byte(input@, j),
        decreases input.len() - i,
    {
        let c: u8 = input[i] ^ key;
        output.push(c);
        key = c;
        i = i + 1;
    }
    assert(output@ =~= encrypt_spec(input@));
    output
}

/// Decrypts `input`, starting from `INITIAL_KEY`.
pub fn decrypt(input: &[u8]) -> (output: Vec<u8>)
    ensures
        output@ == decrypt_spec(input@),
{
    let mut output: Vec<u8> = Vec::new();
    let mut key: u8 = INITIAL_KEY;
    let mut i: usize = 0;
    while i < input.len()
        invariant
            i <= input.len(),
            output@.len() == i,
            key == key_before(input@, i as int),
            forall|j: int| 0 <= j < i ==> output@[j] == input@[j] ^ key_before(input@, j),
        decreases input.len() - i,
    {
        let c: u8 = input[i];
        output.push(c ^ key);
        key = c;
        i = i + 1;
    }
    assert(output@ =~= decrypt_spec(input@));
    output
}

} // verus!
