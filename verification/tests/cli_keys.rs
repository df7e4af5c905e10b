use base64::engine::general_purpose::STANDARD;
use base64::Engine;
use envcrypt::cli::get_encryption_key;
use envcrypt::cli::get_key_arg;
use envcrypt::cli::key_handling::display_key;
use envcrypt::cli::key_handling::generate_base64_key;
use envcrypt::cli::key_handling::key_from_bytes;
use envcrypt::cli::key_handling::key_from_entry;
use envcrypt::cli::key_handling::parse_key_choice;
use envcrypt::cli::key_handling::KeyChoice;
use envcrypt::cli::key_handling::KeySource;
use envcrypt::cli::strip_base64_prefix;

#[test]
fn cli_test_strip_base64_prefix_with_prefix() {
    assert_eq!(strip_base64_prefix("base64:test123"), "test123");
}

#[test]
fn cli_test_strip_base64_prefix_without_prefix() {
    assert_eq!(strip_base64_prefix("test123"), "test123");
}

#[test]
fn cli_test_strip_base64_prefix_empty() {
    assert_eq!(strip_base64_prefix(""), "");
}

#[test]
fn key_handling_test_strip_base64_prefix_with_prefix() {
    assert_eq!(strip_base64_prefix("base64:test123"), "test123");
}

#[test]
fn key_handling_test_strip_base64_prefix_without_prefix() {
    assert_eq!(strip_base64_prefix("test123"), "test123");
}

#[test]
fn key_handling_test_strip_base64_prefix_empty() {
    assert_eq!(strip_base64_prefix(""), "");
}

#[test]
fn strip_base64_prefix_strips_once_and_only_at_the_start() {
    assert_eq!(strip_base64_prefix("base64:base64:x"), "base64:x");
    assert_eq!(strip_base64_prefix("xbase64:y"), "xbase64:y");
    assert_eq!(strip_base64_prefix("base64:"), "");
    assert_eq!(strip_base64_prefix("base64"), "base64");
    assert_eq!(strip_base64_prefix("BASE64:x"), "BASE64:x");
    assert_eq!(strip_base64_prefix("base64:clé"), "clé");
}

#[test]
fn display_key_then_strip_gives_the_key_back() {
    for key in ["", "abc", "base64:abc", "clé secrète"] {
        let shown = display_key(key);
        assert_eq!(shown, format!("base64:{}", key));
        assert_eq!(strip_base64_prefix(&shown), key);
    }
}

#[test]
fn get_key_arg_borrows_the_key() {
    let key = Some("secret".to_string());
    assert_eq!(get_key_arg(&key), Some("secret"));
    assert_eq!(get_key_arg(&None), None);
}

#[test]
fn key_from_entry_trims_then_strips() {
    assert_eq!(key_from_entry("  base64:abc  "), "abc");
    assert_eq!(key_from_entry("\tabc\n"), "abc");
    assert_eq!(key_from_entry("base64: abc"), " abc");
    assert_eq!(key_from_entry("a b"), "a b");
    assert_eq!(key_from_entry("   "), "");
    assert_eq!(key_from_entry("\u{3000}k\u{a0}"), "k");
}

#[test]
fn given_key_with_base64_prefix_is_normalized() {
    let key = "test-encryption-key-12345";
    let given = format!("base64:{}", key);
    assert_eq!(
        get_encryption_key(Some(&given), false, false),
        Ok(KeySource::Key(key.to_string()))
    );
}

#[test]
fn given_key_with_whitespace_is_normalized() {
    let key = "test-encryption-key-12345";
    let given = format!("  {}  ", key);
    assert_eq!(
        get_encryption_key(Some(&given), false, false),
        Ok(KeySource::Key(key.to_string()))
    );
}

#[test]
fn given_key_with_prefix_and_whitespace_is_normalized() {
    let key = "test-encryption-key-12345";
    let given = format!("  base64:{}  ", key);
    assert_eq!(
        get_encryption_key(Some(&given), false, false),
        Ok(KeySource::Key(key.to_string()))
    );
}

#[test]
fn get_encryption_key_given_key_wins_over_every_flag() {
    for is_encrypt in [false, true] {
        for no_interaction in [false, true] {
            assert_eq!(
                get_encryption_key(Some("k"), is_encrypt, no_interaction),
                Ok(KeySource::Key("k".to_string()))
            );
        }
    }
}

#[test]
fn no_interaction_requires_key_for_decrypt() {
    let res = get_encryption_key(None, false, true);
    let message = res.unwrap_err();
    assert!(message.contains("key is required"));
    assert_eq!(
        message,
        "Decryption key is required when using --no-interaction. Please provide --key"
    );
}

#[test]
fn no_interaction_generates_key_for_encrypt() {
    match get_encryption_key(None, true, true) {
        Ok(KeySource::Key(key)) => {
            assert_eq!(key.len(), 44);
            assert_eq!(STANDARD.decode(&key).unwrap().len(), 32);
        }
        other => panic!("expected a generated key, got {:?}", other),
    }
}

#[test]
fn get_encryption_key_asks_when_interaction_is_allowed() {
    assert_eq!(get_encryption_key(None, true, false), Ok(KeySource::Menu));
    assert_eq!(get_encryption_key(None, false, false), Ok(KeySource::Prompt));
}

#[test]
fn parse_key_choice_reads_the_menu_answer() {
    assert_eq!(parse_key_choice("2"), (KeyChoice::UseCustom, true));
    assert_eq!(parse_key_choice(" 2\n"), (KeyChoice::UseCustom, true));
    assert_eq!(parse_key_choice("1"), (KeyChoice::GenerateNew, true));
    assert_eq!(parse_key_choice("1\n"), (KeyChoice::GenerateNew, true));
    assert_eq!(parse_key_choice(""), (KeyChoice::GenerateNew, true));
    assert_eq!(parse_key_choice("\n"), (KeyChoice::GenerateNew, true));
}

#[test]
fn parse_key_choice_defaults_on_other_answers() {
    assert_eq!(parse_key_choice("3"), (KeyChoice::GenerateNew, false));
    assert_eq!(parse_key_choice("22"), (KeyChoice::GenerateNew, false));
    assert_eq!(parse_key_choice("yes"), (KeyChoice::GenerateNew, false));
    assert_eq!(parse_key_choice("1 2"), (KeyChoice::GenerateNew, false));
}

#[test]
fn key_from_bytes_is_base64_of_the_bytes() {
    assert_eq!(
        key_from_bytes(&[0u8; 32]),
        "AAAAAAAAAAAAAAAAAAAAAAAAAAAAAAAAAAAAAAAAAAA="
    );
    let mut bytes = [0u8; 32];
    for (i, b) in bytes.iter_mut().enumerate() {
        *b = i as u8;
    }
    assert_eq!(
        key_from_bytes(&bytes),
        "AAECAwQFBgcICQoLDA0ODxAREhMUFRYXGBkaGxwdHh8="
    );
}

#[test]
fn generate_base64_key_gives_fresh_keys_of_32_bytes() {
    let a = generate_base64_key();
    let b = generate_base64_key();
    assert_eq!(a.len(), 44);
    assert_eq!(STANDARD.decode(&a).unwrap().len(), 32);
    assert_eq!(STANDARD.decode(&b).unwrap().len(), 32);
    assert_ne!(a, b);
}
