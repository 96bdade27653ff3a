//! Why an operation can fail.

use vstd::prelude::*;
use vstd::string::*;

verus! {

/// The failures that end an operation. None is retried.
#[derive(Debug, Clone, Copy, PartialEq, Eq, Structural)]
pub enum ConfigureError {
    /// The encryption subsystem could not be initialised.
    EncryptionUnavailable,
    /// Reading or writing failed while a file was being decrypted.
    DataDecryptionError,
    /// The repository's status could not be parsed.
    GitStatusParsingError,
    /// The repository reported a status that is not known.
    GitStatusUnknownError,
    /// No local clone of the secrets repository was found.
    SecretsNotPresent,
    /// A mapping's encrypted file does not exist.
    EncryptedFileMissing,
    /// The key store could not be read.
    KeysFileCannotBeRead,
    /// The key store is malformed.
    KeysFileIsNotValidJSON,
    /// The key store holds no key for the project.
    MissingProjectKey,
}

impl ConfigureError {
    /// The text of [`ConfigureError::message`].
    pub open spec fn message_text(self) -> Seq<char> {
        match self {
            ConfigureError::EncryptionUnavailable => "Unable to initialize underlying encryption"@,
            ConfigureError::DataDecryptionError => "Unable to decrypt file"@,
            ConfigureError::GitStatusParsingError => "Invalid git status"@,
            ConfigureError::GitStatusUnknownError => "Invalid git status"@,
            ConfigureError::SecretsNotPresent => "No secrets repository could be found on this machine"@,
            ConfigureError::EncryptedFileMissing => "An encrypted file is missing – unable to apply secrets to project. Run `configure update` to fix this"@,
            ConfigureError::KeysFileCannotBeRead => "Unable to read keys.json file in your secrets repo"@,
            ConfigureError::KeysFileIsNotValidJSON => "keys.json file in your secrets repo is not valid json"@,
            ConfigureError::MissingProjectKey => "That project key is not defined in keys.json"@,
        }
    }

    /// What the operator is told.
    pub fn message(&self) -> (text: String)
        ensures
            text@ == self.message_text(),
    {
        let text = match self {
            ConfigureError::EncryptionUnavailable => "Unable to initialize underlying encryption",
            ConfigureError::DataDecryptionError => "Unable to decrypt file",
            ConfigureError::GitStatusParsingError => "Invalid git status",
            ConfigureError::GitStatusUnknownError => "Invalid git status",
            ConfigureError::SecretsNotPresent => "No secrets repository could be found on this machine",
            ConfigureError::EncryptedFileMissing => "An encrypted file is missing – unable to apply secrets to project. Run `configure update` to fix this",
            ConfigureError::KeysFileCannotBeRead => "Unable to read keys.json file in your secrets repo",
            ConfigureError::KeysFileIsNotValidJSON => "keys.json file in your secrets repo is not valid json",
            ConfigureError::MissingProjectKey => "That project key is not defined in keys.json",
        };
        String::from_str(text)
    }
}

} // verus!
