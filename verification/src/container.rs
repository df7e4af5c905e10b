//! The container: salt and cipher output as one line of base64 text, and the
//! two entry points that go from plaintext to container and back.

use base64::engine::general_purpose::STANDARD;
use base64::DecodeError;
use base64::Engine;
use vstd::prelude::*;
use vstd::slice::slice_subrange;
use vstd::slice::slice_to_vec;

use crate::cipher::authenticated_part;
use crate::cipher::flip_bit;
use crate::cipher::hmac_sha256;
use crate::cipher::iv_part;
use crate::cipher::lemma_flipped_body_rejected;
use crate::cipher::lemma_flipped_mac_rejected;
use crate::cipher::mac_part;
use crate::cipher::Aes256Cbc;
use crate::cipher::Cipher;
use crate::cipher::CipherError;
use crate::cipher::BLOCK_LEN;
use crate::cipher::MAC_LEN;
use crate::key::derive_keys;
use crate::key::encryption_key_for;
use crate::key::generate_salt;
use crate::key::mac_key_for;
use crate::key::wipe_keys;
use crate::key::SALT_LEN;
use crate::text::is_whitespace;
use crate::text::trim;
use crate::text::trimmed;

verus! {

/// Shortest container, before encoding: salt and the shortest cipher output.
pub const MIN_CONTAINER_LEN: usize = 80;

/// The error of `Engine::decode`: the text is not base64.
#[verifier::external_type_specification]
#[verifier::external_body]
pub struct ExDecodeError(DecodeError);

/// The standard base64 encoding of bytes, padded with `=`, on one line.
pub uninterp spec fn base64_encode(data: Seq<u8>) -> Seq<char>;

/// The bytes that a text stands for in standard padded base64, or `None`
/// where the text is not such an encoding.
pub uninterp spec fn base64_decode(text: Seq<char>) -> Option<Seq<u8>>;

/// Length of the base64 encoding of `n` bytes: four characters for every
/// three bytes or part of three.
pub open spec fn base64_len(n: int) -> int {
    (n + 2) / 3 * 4
}

/// Whether a character can occur in padded standard base64.
pub open spec fn is_base64_char(c: char) -> bool {
    ||| 'A' as u32 <= c as u32 <= 'Z' as u32
    ||| 'a' as u32 <= c as u32 <= 'z' as u32
    ||| '0' as u32 <= c as u32 <= '9' as u32
    ||| c == '+'
    ||| c == '/'
    ||| c == '='
}

/// Calls `Engine::encode` of `base64::engine::general_purpose::STANDARD`. The
/// call panics where the encoded length does not fit `usize`. The text it
/// returns has four characters of the standard alphabet or `=` for every
/// three bytes or part of three, and decodes to the bytes given.
#[verifier::external_body]
pub(crate) fn base64_encode_standard(data: &[u8]) -> (text: String)
    requires
        base64_len(data@.len() as int) <= usize::MAX,
    ensures
        text@ == base64_encode(data@),
        text@.len() == base64_len(data@.len() as int),
        forall|i: int| 0 <= i < text@.len() ==> is_base64_char(#[trigger] text@[i]),
        base64_decode(text@) == Some(data@),
{
    STANDARD.encode(data)
}

/// Calls `Engine::decode` of `base64::engine::general_purpose::STANDARD`,
/// which fails on a character outside the alphabet, on a wrong length and on
/// wrong padding.
#[verifier::external_body]
fn base64_decode_standard(text: &str) -> (res: Result<Vec<u8>, DecodeError>)
    ensures
        match res {
            Ok(data) => base64_decode(text@) == Some(data@),
            Err(_) => base64_decode(text@) is None,
        },
{
    STANDARD.decode(text)
}

/// The container text of a salt and a cipher output.
pub open spec fn packed(salt: Seq<u8>, cipher_output: Seq<u8>) -> Seq<char> {
    base64_encode(salt + cipher_output)
}

/// Salt and cipher output of a container text: the text is trimmed and
/// decoded, the first 16 bytes are the salt and the rest is the cipher
/// output, which is not looked at. Text that does not decode, or decodes to
/// fewer than 16 bytes, is no container.
pub open spec fn unpacked(text: Seq<char>) -> Result<(Seq<u8>, Seq<u8>), CipherError> {
    match base64_decode(trimmed(text)) {
        Some(data) => if data.len() < SALT_LEN {
            Err(CipherError::InvalidContainerFormat)
        } else {
            Ok((data.subrange(0, SALT_LEN as int), data.subrange(SALT_LEN as int, data.len() as int)))
        },
        None => Err(CipherError::InvalidContainerFormat),
    }
}

/// Text made of base64 characters has no whitespace to trim.
pub proof fn lemma_base64_text_is_trimmed(text: Seq<char>)
    requires
        forall|i: int| 0 <= i < text.len() ==> is_base64_char(#[trigger] text[i]),
    ensures
        trimmed(text) == text,
{
    if text.len() > 0 {
        assert(is_base64_char(text[0]));
        assert(is_base64_char(text[text.len() - 1]));
        assert(!is_whitespace(text.first()));
        assert(!is_whitespace(text.last()));
    }
}

/// Renders a salt and a cipher output as one container text.
///
/// The text is the base64 encoding of `salt ‖ cipher_output`, without line
/// breaks, and unpacks to the same salt and cipher output.
pub fn pack(salt: &[u8; 16], cipher_output: &[u8]) -> (text: String)
    requires
        base64_len(SALT_LEN + cipher_output@.len()) <= usize::MAX,
    ensures
        text@ == packed(salt@, cipher_output@),
        text@.len() == base64_len(SALT_LEN + cipher_output@.len()),
        unpacked(text@) == Ok::<(Seq<u8>, Seq<u8>), CipherError>((salt@, cipher_output@)),
{
    let mut data: Vec<u8> = Vec::with_capacity(SALT_LEN + cipher_output.len());
    data.extend_from_slice(salt.as_slice());
    data.extend_from_slice(cipher_output);
    assert(data@ == salt@ + cipher_output@);
    let text = base64_encode_standard(data.as_slice());
    proof {
        lemma_base64_text_is_trimmed(text@);
        assert(data@.subrange(0, SALT_LEN as int) == salt@);
        assert(data@.subrange(SALT_LEN as int, data@.len() as int) == cipher_output@);
    }
    text
}

/// Splits a container text into salt and cipher output.
///
/// Fails, with `InvalidContainerFormat`, exactly where the trimmed text is
/// not base64 or decodes to fewer than 16 bytes.
pub fn unpack(text: &str) -> (res: Result<([u8; 16], Vec<u8>), CipherError>)
    ensures
        match res {
            Ok(parts) => unpacked(text@) == Ok::<(Seq<u8>, Seq<u8>), CipherError>(
                (parts.0@, parts.1@),
            ),
            Err(e) => unpacked(text@) == Err::<(Seq<u8>, Seq<u8>), CipherError>(e),
        },
{
    let data = match base64_decode_standard(trim(text)) {
        Ok(data) => data,
        Err(_) => {
            return Err(CipherError::InvalidContainerFormat);
        },
    };
    if data.len() < SALT_LEN {
        return Err(CipherError::InvalidContainerFormat);
    }
    let mut salt = [0u8; 16];
    let mut i: usize = 0;
    while i < SALT_LEN
        invariant
            i <= SALT_LEN <= data@.len(),
            forall|j: int| 0 <= j < i ==> salt@[j] == data@[j],
        decreases SALT_LEN - i,
    {
        salt[i] = data[i];
        i += 1;
    }
    assert(salt@ == data@.subrange(0, SALT_LEN as int));
    let cipher_output = slice_to_vec(slice_subrange(data.as_slice(), SALT_LEN, data.len()));
    Ok((salt, cipher_output))
}

/// The container of a plaintext under a passphrase when `salt` and `iv` are
/// the salt and the IV drawn.
pub open spec fn payload_sealed<C: Cipher>(
    cipher: &C,
    plaintext: Seq<u8>,
    passphrase: Seq<char>,
    salt: Seq<u8>,
    iv: Seq<u8>,
) -> Seq<char> {
    packed(
        salt,
        cipher.sealed(
            plaintext,
            encryption_key_for(passphrase, salt),
            mac_key_for(passphrase, salt),
            iv,
        ),
    )
}

/// What decryption makes of a container text under a passphrase: the text is
/// unpacked, the keys are derived from the passphrase and the salt found, and
/// the cipher output is opened under them.
pub open spec fn payload_opened<C: Cipher>(
    cipher: &C,
    text: Seq<char>,
    passphrase: Seq<char>,
) -> Result<Seq<u8>, CipherError> {
    match unpacked(text) {
        Ok((salt, cipher_output)) => cipher.opened(
            cipher_output,
            encryption_key_for(passphrase, salt),
            mac_key_for(passphrase, salt),
        ),
        Err(e) => Err(e),
    }
}

/// Encrypts a plaintext under a passphrase with the cipher given.
///
/// A fresh salt is drawn, the keys are derived and wiped after use, and the
/// cipher draws its IV. Derived keys have the right length, so encryption
/// succeeds. The text returned is the container for that salt and IV, and
/// decrypts to the plaintext under the same passphrase.
pub fn encrypt_payload_with<C: Cipher>(cipher: &C, plaintext: &[u8], passphrase: &str) -> (res:
    Result<String, CipherError>)
    requires
        base64_len(SALT_LEN + cipher.output_len(plaintext@.len())) <= usize::MAX,
    ensures
        res is Ok,
        res matches Ok(text) ==> exists|salt: Seq<u8>, iv: Seq<u8>|
            salt.len() == SALT_LEN && iv.len() == BLOCK_LEN && text@ == #[trigger] payload_sealed(
                cipher,
                plaintext@,
                passphrase@,
                salt,
                iv,
            ),
        res matches Ok(text) ==> text@.len() == base64_len(
            SALT_LEN + cipher.output_len(plaintext@.len()),
        ),
        res matches Ok(text) ==> payload_opened(cipher, text@, passphrase@) == Ok::<
            Seq<u8>,
            CipherError,
        >(plaintext@),
{
    let salt = generate_salt();
    let (mut encryption_key, mut mac_key) = derive_keys(passphrase, &salt);
    let ghost ek = encryption_key@;
    let ghost mk = mac_key@;
    let sealed = cipher.encrypt(plaintext, encryption_key.as_slice(), mac_key.as_slice());
    wipe_keys(&mut encryption_key, &mut mac_key);
    match sealed {
        Ok(output) => {
            let text = pack(&salt, output.as_slice());
            proof {
                let iv = choose|iv: Seq<u8>|
                    iv.len() == BLOCK_LEN && output@ == #[trigger] cipher.sealed(
                        plaintext@,
                        ek,
                        mk,
                        iv,
                    );
                assert(text@ == payload_sealed(cipher, plaintext@, passphrase@, salt@, iv));
            }
            Ok(text)
        },
        Err(e) => Err(e),
    }
}

/// Decrypts a container text under a passphrase with the cipher given:
/// returns exactly `payload_opened`. The derived keys are wiped after use,
/// whether or not decryption succeeded.
pub fn decrypt_payload_with<C: Cipher>(cipher: &C, container_text: &str, passphrase: &str) -> (res:
    Result<Vec<u8>, CipherError>)
    ensures
        match res {
            Ok(plaintext) => payload_opened(cipher, container_text@, passphrase@) == Ok::<
                Seq<u8>,
                CipherError,
            >(plaintext@),
            Err(e) => payload_opened(cipher, container_text@, passphrase@) == Err::<
                Seq<u8>,
                CipherError,
            >(e),
        },
{
    let (salt, cipher_output) = match unpack(container_text) {
        Ok(parts) => parts,
        Err(e) => {
            return Err(e);
        },
    };
    let (mut encryption_key, mut mac_key) = derive_keys(passphrase, &salt);
    let res = cipher.decrypt(
        cipher_output.as_slice(),
        encryption_key.as_slice(),
        mac_key.as_slice(),
    );
    wipe_keys(&mut encryption_key, &mut mac_key);
    res
}

/// Encrypts a plaintext under a passphrase with AES-256-CBC and
/// HMAC-SHA-256.
///
/// The text returned is the container for the salt and the IV drawn. Its
/// length follows from the plaintext's length alone, and it decrypts to the
/// plaintext under the same passphrase.
pub fn encrypt_payload(plaintext: &[u8], passphrase: &str) -> (text: String)
    requires
        base64_len(SALT_LEN + Aes256Cbc.output_len(plaintext@.len())) <= usize::MAX,
    ensures
        exists|salt: Seq<u8>, iv: Seq<u8>|
            salt.len() == SALT_LEN && iv.len() == BLOCK_LEN && text@ == #[trigger] payload_sealed(
                &Aes256Cbc,
                plaintext@,
                passphrase@,
                salt,
                iv,
            ),
        text@.len() == base64_len(SALT_LEN + Aes256Cbc.output_len(plaintext@.len())),
        payload_opened(&Aes256Cbc, text@, passphrase@) == Ok::<Seq<u8>, CipherError>(plaintext@),
{
    // Derived keys have the right length, so encryption does not fail.
    match encrypt_payload_with(&Aes256Cbc, plaintext, passphrase) {
        Ok(text) => text,
        Err(_) => String::new(),
    }
}

/// Decrypts a container text under a passphrase with AES-256-CBC and
/// HMAC-SHA-256: returns exactly `payload_opened`.
///
/// Text that is not base64, and text that decodes to fewer bytes than salt,
/// IV, one block and MAC together, is rejected with `InvalidContainerFormat`.
pub fn decrypt_payload(container_text: &str, passphrase: &str) -> (res: Result<
    Vec<u8>,
    CipherError,
>)
    ensures
        match res {
            Ok(plaintext) => payload_opened(&Aes256Cbc, container_text@, passphrase@) == Ok::<
                Seq<u8>,
                CipherError,
            >(plaintext@),
            Err(e) => payload_opened(&Aes256Cbc, container_text@, passphrase@) == Err::<
                Seq<u8>,
                CipherError,
            >(e),
        },
        base64_decode(trimmed(container_text@)) is None ==> res == Err::<Vec<u8>, CipherError>(
            CipherError::InvalidContainerFormat,
        ),
        base64_decode(trimmed(container_text@)) matches Some(data) ==> data.len()
            < MIN_CONTAINER_LEN ==> res == Err::<Vec<u8>, CipherError>(
            CipherError::InvalidContainerFormat,
        ),
{
    proof {
        lemma_malformed_container_rejected(container_text@, passphrase@);
    }
    decrypt_payload_with(&Aes256Cbc, container_text, passphrase)
}

/// Format rejection: text that is not base64, and text that decodes to fewer
/// than 80 bytes, is rejected with `InvalidContainerFormat` under every
/// passphrase.
pub proof fn lemma_malformed_container_rejected(text: Seq<char>, passphrase: Seq<char>)
    ensures
        base64_decode(trimmed(text)) is None ==> payload_opened(&Aes256Cbc, text, passphrase)
            == Err::<Seq<u8>, CipherError>(CipherError::InvalidContainerFormat),
        base64_decode(trimmed(text)) matches Some(data) ==> data.len() < MIN_CONTAINER_LEN
            ==> payload_opened(&Aes256Cbc, text, passphrase) == Err::<Seq<u8>, CipherError>(
            CipherError::InvalidContainerFormat,
        ),
{
}

/// Wrong key rejection: a container that decrypts under one passphrase is
/// rejected with `AuthenticationFailed` under another, unless the MAC key
/// derived from the other passphrase gives the same MAC over IV and
/// ciphertext.
pub proof fn lemma_wrong_passphrase_rejected(
    text: Seq<char>,
    passphrase: Seq<char>,
    other: Seq<char>,
)
    requires
        payload_opened(&Aes256Cbc, text, passphrase) is Ok,
    ensures
        unpacked(text) matches Ok(parts) && (payload_opened(&Aes256Cbc, text, other) == Err::<
            Seq<u8>,
            CipherError,
        >(CipherError::AuthenticationFailed) || hmac_sha256(
            mac_key_for(other, parts.0),
            authenticated_part(parts.1),
        ) == hmac_sha256(mac_key_for(passphrase, parts.0), authenticated_part(parts.1))),
{
}

/// Tamper detection: take a container that decrypts under a passphrase, and
/// a text that holds the same salt and the same cipher output but for one
/// flipped bit. A flip in the MAC is always rejected with
/// `AuthenticationFailed`. So is a flip in the IV or the ciphertext, unless
/// the altered bytes have the very MAC that the container carries.
pub proof fn lemma_flipped_container_rejected(
    text: Seq<char>,
    altered: Seq<char>,
    passphrase: Seq<char>,
    index: int,
    bit: u8,
)
    requires
        payload_opened(&Aes256Cbc, text, passphrase) is Ok,
        unpacked(altered) is Ok,
        unpacked(altered)->Ok_0.0 == unpacked(text)->Ok_0.0,
        unpacked(altered)->Ok_0.1 == flip_bit(unpacked(text)->Ok_0.1, index, bit),
        0 <= index < unpacked(text)->Ok_0.1.len(),
        bit < 8,
    ensures
        payload_opened(&Aes256Cbc, altered, passphrase) == Err::<Seq<u8>, CipherError>(
            CipherError::AuthenticationFailed,
        ) || (index < unpacked(text)->Ok_0.1.len() - MAC_LEN && hmac_sha256(
            mac_key_for(passphrase, unpacked(text)->Ok_0.0),
            authenticated_part(unpacked(altered)->Ok_0.1),
        ) == mac_part(unpacked(text)->Ok_0.1)),
{
    let salt = unpacked(text)->Ok_0.0;
    let output = unpacked(text)->Ok_0.1;
    let encryption_key = encryption_key_for(passphrase, salt);
    let mac_key = mac_key_for(passphrase, salt);
    if index >= output.len() - MAC_LEN {
        lemma_flipped_mac_rejected(output, encryption_key, mac_key, index, bit);
    } else {
        lemma_flipped_body_rejected(output, encryption_key, mac_key, index, bit);
    }
}

/// Salt and IV are part of the container: two container texts that hold
/// different salts or different IVs are different texts.
pub proof fn lemma_fresh_salt_or_iv_changes_container(text: Seq<char>, other: Seq<char>)
    requires
        unpacked(text) is Ok,
        unpacked(other) is Ok,
        unpacked(text)->Ok_0.0 != unpacked(other)->Ok_0.0 || iv_part(unpacked(text)->Ok_0.1)
            != iv_part(unpacked(other)->Ok_0.1),
    ensures
        text != other,
{
}

} // verus!
