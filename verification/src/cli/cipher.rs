//! Selecting a cipher by its name.

use vstd::prelude::*;
use vstd::string::StringExecFns;

use crate::cipher::AnyCipher;
use crate::text::str_eq;

verus! {

/// A text in upper case, by the Unicode case mapping.
pub uninterp spec fn uppercase(text: Seq<char>) -> Seq<char>;

/// Calls `str::to_uppercase` of std, which maps each character by the
/// Unicode upper-case mapping.
#[verifier::external_body]
fn to_uppercase(text: &str) -> (upper: String)
    ensures
        upper@ == uppercase(text@),
{
    text.to_uppercase()
}

/// The message for a cipher name that selects nothing.
pub open spec fn unsupported_cipher_message(cipher_name: Seq<char>) -> Seq<char> {
    "Unsupported cipher: "@ + cipher_name + ". Supported ciphers: AES-256-CBC"@
}

/// The names of the supported ciphers. The first is the default.
pub fn get_supported_ciphers() -> (names: Vec<&'static str>)
    ensures
        names@.len() == 1,
        names@[0]@ == "AES-256-CBC"@,
{
    let mut names: Vec<&'static str> = Vec::new();
    names.push("AES-256-CBC");
    names
}

/// The cipher that a name in upper case selects. `cipher_name` is the name
/// as given, for the message.
pub fn cipher_for_uppercase(upper: &str, cipher_name: &str) -> (res: Result<AnyCipher, String>)
    ensures
        upper@ == "AES-256-CBC"@ ==> res == Ok::<AnyCipher, String>(AnyCipher::Aes256Cbc),
        upper@ != "AES-256-CBC"@ ==> (res matches Err(message) && message@
            == unsupported_cipher_message(cipher_name@)),
{
    if str_eq(upper, "AES-256-CBC") {
        Ok(AnyCipher::Aes256Cbc)
    } else {
        let mut message = "Unsupported cipher: ".to_owned();
        message.append(cipher_name);
        message.append(". Supported ciphers: AES-256-CBC");
        Err(message)
    }
}

/// Selects a cipher by its name, whatever the case of its letters.
///
/// `AES-256-CBC` is the one name supported. Any other name fails with a
/// message that holds the name as given and lists the supported ciphers.
pub fn get_cipher(cipher_name: &str) -> (res: Result<AnyCipher, String>)
    ensures
        uppercase(cipher_name@) == "AES-256-CBC"@ ==> res == Ok::<AnyCipher, String>(
            AnyCipher::Aes256Cbc,
        ),
        uppercase(cipher_name@) != "AES-256-CBC"@ ==> (res matches Err(message) && message@
            == unsupported_cipher_message(cipher_name@)),
{
    let upper = to_uppercase(cipher_name);
    cipher_for_uppercase(upper.as_str(), cipher_name)
}

} // verus!
