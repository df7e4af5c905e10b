//! Where the key of an operation comes from, and how a key that a user typed
//! is normalized.

use vstd::prelude::*;
use vstd::string::StrSliceExecFns;
use vstd::string::StringExecFns;

use crate::container::base64_encode;
use crate::container::base64_encode_standard;
use crate::key::fill_random;
use crate::text::starts_with;
use crate::text::str_eq;
use crate::text::trim;
use crate::text::trimmed;

verus! {

/// Number of random bytes in a generated key.
pub const GENERATED_KEY_BYTES: usize = 32;

/// A key without the display-only prefix `base64:`, if it has one.
pub open spec fn without_base64_prefix(key: Seq<char>) -> Seq<char> {
    if "base64:"@.is_prefix_of(key) {
        key.skip("base64:"@.len() as int)
    } else {
        key
    }
}

/// A key as entered, without surrounding whitespace and without the prefix.
pub open spec fn normalized_key(entered: Seq<char>) -> Seq<char> {
    without_base64_prefix(trimmed(entered))
}

/// Whether a key is the base64 text of some 32 bytes.
pub open spec fn is_generated_key(key: Seq<char>) -> bool {
    exists|bytes: Seq<u8>|
        bytes.len() == GENERATED_KEY_BYTES && key == #[trigger] base64_encode(bytes)
}

/// What the user chose in the key menu.
#[derive(Debug, Clone, Copy, PartialEq, Eq, Structural)]
pub enum KeyChoice {
    /// Generate a new key.
    GenerateNew,
    /// Type a key.
    UseCustom,
}

/// Where the key of an operation comes from.
#[derive(Debug, PartialEq, Eq)]
pub enum KeySource {
    /// The key is known: given on the command line, or generated.
    Key(String),
    /// The user is to be shown the key menu.
    Menu,
    /// The user is to be asked for the key.
    Prompt,
}

/// Strips the prefix `base64:` from a key, if it is there.
pub fn strip_base64_prefix(key: &str) -> (rest: &str)
    ensures
        rest@ == without_base64_prefix(key@),
{
    if starts_with(key, "base64:") {
        let n: usize = key.unicode_len();
        let m: usize = "base64:".unicode_len();
        key.substring_char(m, n)
    } else {
        key
    }
}

/// A key as it is shown to the user: with the prefix `base64:`.
pub fn display_key(key: &str) -> (shown: String)
    ensures
        shown@ == "base64:"@ + key@,
        without_base64_prefix(shown@) == key@,
{
    let mut shown = "base64:".to_owned();
    shown.append(key);
    proof {
        lemma_displayed_key_is_accepted(key@);
    }
    shown
}

/// A key shown with the prefix is taken back as the key itself.
pub proof fn lemma_displayed_key_is_accepted(key: Seq<char>)
    ensures
        without_base64_prefix("base64:"@ + key) == key,
{
    let shown = "base64:"@ + key;
    assert(shown.subrange(0, "base64:"@.len() as int) == "base64:"@);
    assert(shown.skip("base64:"@.len() as int) == key);
}

/// The key given on the command line, if any, as text.
pub fn get_key_arg(key: &Option<String>) -> (arg: Option<&str>)
    ensures
        match arg {
            Some(text) => key matches Some(given) && text@ == given@,
            None => key is None,
        },
{
    match key {
        Some(given) => Some(given.as_str()),
        None => None,
    }
}

/// A key that a user typed, normalized: trimmed, then without the prefix.
pub fn key_from_entry(entered: &str) -> (key: String)
    ensures
        key@ == normalized_key(entered@),
{
    strip_base64_prefix(trim(entered)).to_owned()
}

/// Reads the answer to the key menu. `2` chooses a custom key; `1` and an
/// empty answer choose a new key. Any other answer is not understood, and a
/// new key is chosen: the second component then is `false`.
pub fn parse_key_choice(answer: &str) -> (res: (KeyChoice, bool))
    ensures
        res.0 == (if trimmed(answer@) == "2"@ {
            KeyChoice::UseCustom
        } else {
            KeyChoice::GenerateNew
        }),
        res.1 == (trimmed(answer@) == "2"@ || trimmed(answer@) == "1"@ || trimmed(answer@) == ""@),
{
    let choice = trim(answer);
    if str_eq(choice, "2") {
        (KeyChoice::UseCustom, true)
    } else if str_eq(choice, "1") || str_eq(choice, "") {
        (KeyChoice::GenerateNew, true)
    } else {
        (KeyChoice::GenerateNew, false)
    }
}

/// The key that 32 bytes stand for: their base64 text.
pub fn key_from_bytes(bytes: &[u8; 32]) -> (key: String)
    ensures
        key@ == base64_encode(bytes@),
        key@.len() == 44,
        is_generated_key(key@),
{
    base64_encode_standard(bytes.as_slice())
}

/// Generates a key: the base64 text of 32 bytes from a cryptographically
/// secure random source.
pub fn generate_base64_key() -> (key: String)
    ensures
        is_generated_key(key@),
        key@.len() == 44,
{
    let mut key_bytes = [0u8; 32];
    fill_random(&mut key_bytes);
    key_from_bytes(&key_bytes)
}

/// Decides where the key of an operation comes from.
///
/// A key given on the command line is used, normalized. Without one and
/// without interaction, encryption generates a key and decryption fails.
/// Otherwise the user is asked: by the menu for encryption, by a prompt for
/// decryption.
pub fn get_encryption_key(key_arg: Option<&str>, is_encrypt: bool, no_interaction: bool) -> (res:
    Result<KeySource, String>)
    ensures
        match key_arg {
            Some(given) => res matches Ok(KeySource::Key(key)) && key@ == normalized_key(given@),
            None => if no_interaction {
                if is_encrypt {
                    res matches Ok(KeySource::Key(key)) && is_generated_key(key@)
                } else {
                    res matches Err(message) && message@
                        == "Decryption key is required when using --no-interaction. Please provide --key"@
                }
            } else if is_encrypt {
                res matches Ok(KeySource::Menu)
            } else {
                res matches Ok(KeySource::Prompt)
            },
        },
{
    if let Some(given) = key_arg {
        return Ok(KeySource::Key(key_from_entry(given)));
    }
    if no_interaction {
        if is_encrypt {
            Ok(KeySource::Key(generate_base64_key()))
        } else {
            Err(
                "Decryption key is required when using --no-interaction. Please provide --key".to_owned(),
            )
        }
    } else if is_encrypt {
        Ok(KeySource::Menu)
    } else {
        Ok(KeySource::Prompt)
    }
}

} // verus!
