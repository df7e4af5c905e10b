//! What a user is told when decryption fails.

use vstd::prelude::*;
use vstd::string::StringExecFns;

use crate::cipher::CipherError;

verus! {

/// The message for a failed decryption.
pub open spec fn decrypt_failure_message_of(error: CipherError) -> Seq<char> {
    match error {
        CipherError::AuthenticationFailed =>
            "MAC verification failed - the encrypted file may have been tampered with or the key is incorrect"@,
        CipherError::PaddingOrDecryptionFailed =>
            "Decryption failed - incorrect key or corrupted data"@,
        CipherError::InvalidContainerFormat => "Decryption error: "@ + "Invalid ciphertext format"@,
        CipherError::InvalidKeyLength => "Decryption error: "@
            + "Invalid key length - keys must be 32 bytes"@,
    }
}

/// The message that tells a user why decryption failed. A failed
/// authentication and a failed decryption have sentences of their own; any
/// other error is shown by its own message.
pub fn decrypt_failure_message(error: CipherError) -> (message: String)
    ensures
        message@ == decrypt_failure_message_of(error),
{
    match error {
        CipherError::AuthenticationFailed =>
            "MAC verification failed - the encrypted file may have been tampered with or the key is incorrect".to_owned(),
        CipherError::PaddingOrDecryptionFailed =>
            "Decryption failed - incorrect key or corrupted data".to_owned(),
        _ => {
            let mut message = "Decryption error: ".to_owned();
            let detail = error.message();
            message.append(detail.as_str());
            message
        },
    }
}

} // verus!
