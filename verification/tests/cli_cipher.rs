use envcrypt::cipher::AnyCipher;
use envcrypt::cipher::Cipher;
use envcrypt::cli::cipher::cipher_for_uppercase;
use envcrypt::cli::get_cipher;
use envcrypt::cli::get_supported_ciphers;

#[test]
fn cli_test_get_cipher_aes256cbc() {
    let result = get_cipher("AES-256-CBC");
    assert!(result.is_ok());
}

#[test]
fn cli_test_get_cipher_aes256cbc_lowercase() {
    let result = get_cipher("aes-256-cbc");
    assert!(result.is_ok());
}

#[test]
fn cli_test_get_cipher_unsupported() {
    let result: Result<AnyCipher, String> = get_cipher("UNSUPPORTED");
    assert!(result.is_err());
    if let Err(err_msg) = result {
        assert!(err_msg.contains("Unsupported cipher"));
    }
}

#[test]
fn cipher_test_get_cipher_aes256cbc() {
    let result = get_cipher("AES-256-CBC");
    assert!(result.is_ok());
}

#[test]
fn cipher_test_get_cipher_aes256cbc_lowercase() {
    let result = get_cipher("aes-256-cbc");
    assert!(result.is_ok());
}

#[test]
fn cipher_test_get_cipher_unsupported() {
    let result: Result<AnyCipher, String> = get_cipher("UNSUPPORTED");
    assert!(result.is_err());
    if let Err(err_msg) = result {
        assert!(err_msg.contains("Unsupported cipher"));
    }
}

#[test]
fn test_get_cipher_chacha20poly1305_no_dash_fails() {
    let result = get_cipher("CHACHA20POLY1305");
    assert!(result.is_err());
}

#[test]
fn unsupported_cipher_fails_with_message() {
    assert_eq!(
        get_cipher("UNSUPPORTED-CIPHER"),
        Err("Unsupported cipher: UNSUPPORTED-CIPHER. Supported ciphers: AES-256-CBC".to_string())
    );
}

#[test]
fn get_cipher_message_holds_the_name_as_given() {
    assert_eq!(
        get_cipher("rot13"),
        Err("Unsupported cipher: rot13. Supported ciphers: AES-256-CBC".to_string())
    );
    assert_eq!(
        get_cipher(""),
        Err("Unsupported cipher: . Supported ciphers: AES-256-CBC".to_string())
    );
}

#[test]
fn get_cipher_mixed_case_selects_aes() {
    assert_eq!(get_cipher("Aes-256-Cbc"), Ok(AnyCipher::Aes256Cbc));
    assert_eq!(get_cipher("AES-256-CBC"), Ok(AnyCipher::Aes256Cbc));
}

#[test]
fn get_cipher_is_exact_about_the_rest_of_the_name() {
    assert!(get_cipher(" AES-256-CBC").is_err());
    assert!(get_cipher("AES-256-CBC ").is_err());
    assert!(get_cipher("AES256CBC").is_err());
    assert!(get_cipher("AES-128-CBC").is_err());
}

#[test]
fn cipher_for_uppercase_compares_the_first_and_reports_the_second() {
    assert_eq!(cipher_for_uppercase("AES-256-CBC", "whatever"), Ok(AnyCipher::Aes256Cbc));
    assert_eq!(
        cipher_for_uppercase("aes-256-cbc", "aes-256-cbc"),
        Err("Unsupported cipher: aes-256-cbc. Supported ciphers: AES-256-CBC".to_string())
    );
}

#[test]
fn get_supported_ciphers_lists_the_default_first() {
    assert_eq!(get_supported_ciphers(), vec!["AES-256-CBC"]);
    for name in get_supported_ciphers() {
        assert!(get_cipher(name).is_ok());
    }
}

#[test]
fn default_cipher_round_trips() {
    let cipher = get_cipher(get_supported_ciphers()[0]).unwrap();
    let key = [7u8; 32];
    let mac_key = [9u8; 32];
    let sealed = cipher.encrypt(b"TEST=value", &key, &mac_key).unwrap();
    assert_eq!(cipher.decrypt(&sealed, &key, &mac_key).unwrap(), b"TEST=value");
}
