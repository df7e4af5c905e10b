use envcrypt::key::derive_keys;
use envcrypt::key::generate_salt;
use envcrypt::key::split_key_material;
use envcrypt::key::wipe_keys;
use envcrypt::key::wipe_passphrase;
use envcrypt::key::PBKDF2_ITERATIONS;

fn hex(bytes: &[u8]) -> String {
    let mut out = String::new();
    for b in bytes {
        out.push_str(&format!("{:02x}", b));
    }
    out
}

fn counting_salt() -> [u8; 16] {
    let mut salt = [0u8; 16];
    for (i, b) in salt.iter_mut().enumerate() {
        *b = i as u8;
    }
    salt
}

#[test]
fn iteration_count_is_one_hundred_thousand() {
    assert_eq!(PBKDF2_ITERATIONS, 100_000);
}

#[test]
fn derive_keys_known_answer() {
    let (encryption_key, mac_key) = derive_keys("test-encryption-key-12345", &counting_salt());
    assert_eq!(
        hex(&encryption_key),
        "90c01a608005355f65ebce3d31ac99b42c4c3177bc2098d90a9a349b43705de1"
    );
    assert_eq!(
        hex(&mac_key),
        "fdf751862cdee80627ab0e77d5a4b6d5e775f13f1e22036a57a7117d9415f49d"
    );
}

#[test]
fn derive_keys_takes_the_utf8_bytes_of_the_passphrase() {
    let (encryption_key, mac_key) = derive_keys("pässwörd", &[0xab; 16]);
    assert_eq!(
        hex(&encryption_key),
        "2b27ec98a396c73c6343cd285fbcac5b49e43759de1524d1f4e4e8fd860859fa"
    );
    assert_eq!(
        hex(&mac_key),
        "8daae1e7ee7ab2aa019df3a9966363ffc9043180e353e21000ff60503f0b0b77"
    );
}

#[test]
fn derive_keys_is_deterministic() {
    let salt = generate_salt();
    let first = derive_keys("passphrase", &salt);
    let second = derive_keys("passphrase", &salt);
    assert_eq!(first, second);
}

#[test]
fn derive_keys_gives_two_different_keys_of_32_bytes() {
    let (encryption_key, mac_key) = derive_keys("passphrase", &counting_salt());
    assert_eq!(encryption_key.len(), 32);
    assert_eq!(mac_key.len(), 32);
    assert_ne!(encryption_key, mac_key);
}

#[test]
fn derive_keys_depends_on_salt_and_passphrase() {
    let base = derive_keys("passphrase", &[1u8; 16]);
    assert_ne!(base, derive_keys("passphrase", &[2u8; 16]));
    assert_ne!(base, derive_keys("passphrasf", &[1u8; 16]));
    assert_ne!(base, derive_keys("", &[1u8; 16]));
}

#[test]
fn derive_keys_accepts_an_empty_passphrase() {
    let (encryption_key, mac_key) = derive_keys("", &[0u8; 16]);
    assert_eq!(encryption_key.len(), 32);
    assert_eq!(mac_key.len(), 32);
}

#[test]
fn split_key_material_halves_and_zeroes_the_buffer() {
    let mut material = [0u8; 64];
    for (i, b) in material.iter_mut().enumerate() {
        *b = (i + 1) as u8;
    }
    let (encryption_key, mac_key) = split_key_material(&mut material);
    let expected_first: Vec<u8> = (1..=32).collect();
    let expected_last: Vec<u8> = (33..=64).collect();
    assert_eq!(encryption_key, expected_first);
    assert_eq!(mac_key, expected_last);
    assert_eq!(material, [0u8; 64]);
}

#[test]
fn wipe_keys_empties_both_keys() {
    let (mut encryption_key, mut mac_key) = derive_keys("passphrase", &counting_salt());
    wipe_keys(&mut encryption_key, &mut mac_key);
    assert!(encryption_key.is_empty());
    assert!(mac_key.is_empty());
}

#[test]
fn generate_salt_is_fresh_each_time() {
    let a = generate_salt();
    let b = generate_salt();
    let c = generate_salt();
    assert_eq!(a.len(), 16);
    assert!(a != b || b != c);
    assert_ne!(a, b);
}

#[test]
fn wipe_passphrase_empties_the_passphrase() {
    let mut passphrase = "test-encryption-key-12345".to_string();
    wipe_passphrase(&mut passphrase);
    assert!(passphrase.is_empty());
    wipe_passphrase(&mut passphrase);
    assert_eq!(passphrase, "");
}
