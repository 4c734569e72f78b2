use imgchat::driver::{validate_credential, CredentialError};

#[test]
fn missing_credential_is_refused() {
    assert_eq!(validate_credential(None), Err(CredentialError::Unset));
}

#[test]
fn empty_credential_is_refused() {
    assert_eq!(validate_credential(Some(String::new())), Err(CredentialError::Empty));
}

#[test]
fn nonempty_credential_passes_through() {
    assert_eq!(validate_credential(Some(String::from("tok"))), Ok(String::from("tok")));
}
