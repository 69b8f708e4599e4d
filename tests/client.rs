use github_manager::client::{Credential, CredentialError, ACCEPT, USER_AGENT};

#[test]
fn credential_builds_bearer_header() {
    let c = Credential::new("tok123", "octo").unwrap();
    assert_eq!(c.authorization(), "Bearer tok123");
    assert_eq!(c.username(), "octo");
}

#[test]
fn credential_refuses_control_characters() {
    assert!(matches!(Credential::new("tok\n123", "octo"), Err(CredentialError::InvalidToken)));
    assert!(matches!(Credential::new("tok\u{7f}", "octo"), Err(CredentialError::InvalidToken)));
}

#[test]
fn credential_accepts_tab_and_non_ascii() {
    assert!(Credential::new("a\tb", "octo").is_ok());
    assert!(Credential::new("\u{e9}t\u{e9}", "octo").is_ok());
}

#[test]
fn fixed_headers() {
    assert_eq!(USER_AGENT, "rust-github-manager");
    assert_eq!(ACCEPT, "application/vnd.github.v3+json");
}
