use configure::error::ConfigureError;

#[test]
fn every_error_has_its_message() {
    assert_eq!(
        ConfigureError::EncryptionUnavailable.message(),
        "Unable to initialize underlying encryption"
    );
    assert_eq!(ConfigureError::DataDecryptionError.message(), "Unable to decrypt file");
    assert_eq!(ConfigureError::GitStatusParsingError.message(), "Invalid git status");
    assert_eq!(ConfigureError::GitStatusUnknownError.message(), "Invalid git status");
    assert_eq!(
        ConfigureError::SecretsNotPresent.message(),
        "No secrets repository could be found on this machine"
    );
    assert_eq!(
        ConfigureError::EncryptedFileMissing.message(),
        "An encrypted file is missing – unable to apply secrets to project. Run `configure update` to fix this"
    );
    assert_eq!(
        ConfigureError::KeysFileCannotBeRead.message(),
        "Unable to read keys.json file in your secrets repo"
    );
    assert_eq!(
        ConfigureError::KeysFileIsNotValidJSON.message(),
        "keys.json file in your secrets repo is not valid json"
    );
    assert_eq!(
        ConfigureError::MissingProjectKey.message(),
        "That project key is not defined in keys.json"
    );
}

#[test]
fn errors_compare_by_kind() {
    assert_eq!(ConfigureError::MissingProjectKey, ConfigureError::MissingProjectKey);
    assert_ne!(ConfigureError::GitStatusParsingError, ConfigureError::GitStatusUnknownError);
}
