use ebb::credentials::{resolve, CredentialEnv, CredentialSource};
use ebb::error::BackendError;
use ebb::s3::aws_credential_locations;

fn env(a: Option<&str>, s: Option<&str>, file: bool) -> CredentialEnv {
    CredentialEnv {
        access_key_id: a.map(String::from),
        secret_access_key: s.map(String::from),
        profile_file_exists: file,
    }
}

#[test]
fn complete_environment_wins() {
    let locs = aws_credential_locations();
    let r = resolve(&locs, &env(Some("abc"), Some("xyz"), true));
    assert!(matches!(r, Ok(CredentialSource::Environment)));
    let r = resolve(&locs, &env(Some("abc"), Some("xyz"), false));
    assert!(matches!(r, Ok(CredentialSource::Environment)));
}

#[test]
fn partial_environment_falls_through_to_profile() {
    let locs = aws_credential_locations();
    for e in [
        env(Some("abc"), None, true),
        env(None, Some("xyz"), true),
        env(Some("abc"), Some(""), true),
        env(Some(""), Some("xyz"), true),
    ] {
        assert!(matches!(resolve(&locs, &e), Ok(CredentialSource::ProfileFile)));
    }
}

#[test]
fn empty_secret_and_no_profile_finds_nothing() {
    let locs = aws_credential_locations();
    let r = resolve(&locs, &env(Some("abc"), Some(""), false));
    match r {
        Err(BackendError::NoCredentialsFound(l)) => {
            assert_eq!(l.access_key_var, "AWS_ACCESS_KEY_ID");
            assert_eq!(l.secret_key_var, "AWS_SECRET_ACCESS_KEY");
            assert_eq!(l.profile_file, "~/.aws/credentials");
        }
        other => panic!("unexpected {:?}", other),
    }
}

#[test]
fn nothing_set_finds_nothing() {
    let locs = aws_credential_locations();
    let r = resolve(&locs, &env(None, None, false));
    assert!(matches!(r, Err(BackendError::NoCredentialsFound(_))));
}

#[test]
fn no_credentials_message_names_both_places() {
    let locs = aws_credential_locations();
    let e = resolve(&locs, &env(None, None, false)).unwrap_err();
    assert_eq!(
        e.message(),
        "Failed to find credentials in ~/.aws/credentials or in the environment variables AWS_ACCESS_KEY_ID and AWS_SECRET_ACCESS_KEY"
    );
    assert_eq!(
        BackendError::CredentialMaterialization(String::from("bad line 3")).message(),
        "Failed to read credentials: bad line 3"
    );
    assert_eq!(
        BackendError::NotInitialized.message(),
        "The backend has not been initialised"
    );
}
