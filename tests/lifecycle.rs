use ebb::backend::BackendType;
use ebb::registry::backend_for;
use ebb::credentials::{CredentialEnv, CredentialSource};
use ebb::error::{BackendError, RemoteErrorKind, RemoteFailure};
use ebb::lifecycle::{Backend, InitAction, InitEvent, PostFile, Stage};
use ebb::s3::S3;

fn discovered(a: Option<&str>, s: Option<&str>, file: bool) -> InitEvent {
    InitEvent::Discovered(CredentialEnv {
        access_key_id: a.map(String::from),
        secret_access_key: s.map(String::from),
        profile_file_exists: file,
    })
}

fn posts() -> Vec<PostFile> {
    vec![
        PostFile { name: String::from("first.md"), bytes: b"# One\n".to_vec() },
        PostFile { name: String::from("second.md"), bytes: vec![0, 255, 10] },
    ]
}

fn ready_backend() -> S3 {
    let mut b = S3::new();
    assert!(matches!(
        b.step(discovered(Some("k"), Some("s"), false)),
        InitAction::Materialize(CredentialSource::Environment)
    ));
    assert!(matches!(
        b.step(InitEvent::Materialized(Ok(()))),
        InitAction::BuildClient(CredentialSource::Environment)
    ));
    assert!(matches!(
        b.step(InitEvent::ClientBuilt(Ok(()))),
        InitAction::Probe(CredentialSource::Environment)
    ));
    assert!(matches!(b.step(InitEvent::Probed(Ok(()))), InitAction::Finished));
    assert!(b.is_ready());
    b
}

#[test]
fn full_initialisation_reaches_ready() {
    let b = ready_backend();
    assert!(matches!(b.current_stage(), Stage::Ready(CredentialSource::Environment)));
    assert!(b.publish().is_ok());
}

#[test]
fn malformed_profile_fails_with_materialization_error() {
    let mut b = S3::new();
    assert!(matches!(
        b.step(discovered(None, None, true)),
        InitAction::Materialize(CredentialSource::ProfileFile)
    ));
    let a = b.step(InitEvent::Materialized(Err(String::from("bad profile syntax"))));
    match a {
        InitAction::Abort(BackendError::CredentialMaterialization(c)) => {
            assert_eq!(c, "bad profile syntax")
        }
        other => panic!("unexpected {:?}", other),
    }
    // a late probe result changes nothing: no remote-validation error appears
    let a = b.step(InitEvent::Probed(Err(RemoteFailure {
        kind: RemoteErrorKind::Unreachable,
        cause: String::from("timeout"),
    })));
    assert!(matches!(a, InitAction::Abort(BackendError::UnexpectedEvent)));
    assert!(matches!(
        b.current_stage(),
        Stage::Failed(BackendError::CredentialMaterialization(_))
    ));
    assert!(!b.is_ready());
}

#[test]
fn missing_credentials_fail_discovery() {
    let mut b = S3::new();
    let a = b.step(discovered(Some("abc"), Some(""), false));
    assert!(matches!(a, InitAction::Abort(BackendError::NoCredentialsFound(_))));
    assert!(matches!(
        b.current_stage(),
        Stage::Failed(BackendError::NoCredentialsFound(_))
    ));
}

#[test]
fn client_failure_is_reported() {
    let mut b = S3::new();
    b.step(discovered(Some("k"), Some("s"), true));
    b.step(InitEvent::Materialized(Ok(())));
    let a = b.step(InitEvent::ClientBuilt(Err(String::from("no tls"))));
    assert!(matches!(a, InitAction::Abort(BackendError::ClientConstruction(_))));
}

#[test]
fn probe_failure_keeps_its_kind() {
    let mut b = S3::new();
    b.step(discovered(Some("k"), Some("s"), true));
    b.step(InitEvent::Materialized(Ok(())));
    b.step(InitEvent::ClientBuilt(Ok(())));
    let a = b.step(InitEvent::Probed(Err(RemoteFailure {
        kind: RemoteErrorKind::AuthorizationRejected,
        cause: String::from("AccessDenied"),
    })));
    match a {
        InitAction::Abort(BackendError::RemoteValidation(f)) => {
            assert_eq!(f.kind, RemoteErrorKind::AuthorizationRejected);
            assert_eq!(f.cause, "AccessDenied");
        }
        other => panic!("unexpected {:?}", other),
    }
    assert!(b.publish().is_err());
}

#[test]
fn out_of_order_event_changes_nothing() {
    let mut b = S3::new();
    let a = b.step(InitEvent::Materialized(Ok(())));
    assert!(matches!(a, InitAction::Abort(BackendError::UnexpectedEvent)));
    assert!(matches!(b.current_stage(), Stage::Uninitialized));
}

#[test]
fn publish_and_backup_need_successful_init() {
    let mut b = S3::new();
    assert!(matches!(b.publish(), Err(BackendError::NotInitialized)));
    assert!(matches!(b.backup(100, posts()), Err(BackendError::NotInitialized)));
    b.step(discovered(None, None, false));
    assert!(matches!(b.publish(), Err(BackendError::NotInitialized)));
    assert!(matches!(b.backup(100, posts()), Err(BackendError::NotInitialized)));
}

#[test]
fn two_backups_in_a_row_never_collide() {
    let mut b = ready_backend();
    let first = b.backup(1000, posts()).unwrap();
    let second = b.backup(1000, posts()).unwrap();
    assert_eq!(first.id, 1000);
    assert_eq!(first.name, "backup-1000");
    assert_eq!(second.id, 1001);
    assert_eq!(second.name, "backup-1001");
    assert_ne!(first.name, second.name);
    let third = b.backup(5, Vec::new()).unwrap();
    assert_eq!(third.name, "backup-1002");
    assert!(third.entries.is_empty());
    let fourth = b.backup(2000, posts()).unwrap();
    assert_eq!(fourth.name, "backup-2000");
}

#[test]
fn archive_holds_exactly_the_posts() {
    let mut b = ready_backend();
    let a = b.backup(7, posts()).unwrap();
    assert_eq!(a.name, "backup-7");
    assert_eq!(a.entries.len(), 2);
    assert_eq!(a.entries[0].name, "first.md");
    assert_eq!(a.entries[0].bytes, b"# One\n".to_vec());
    assert_eq!(a.entries[1].name, "second.md");
    assert_eq!(a.entries[1].bytes, vec![0, 255, 10]);
}

#[test]
fn archive_ids_can_run_out() {
    let mut b = ready_backend();
    let last = b.backup(u64::MAX, posts()).unwrap();
    assert_eq!(last.name, "backup-18446744073709551615");
    assert!(matches!(b.backup(u64::MAX, posts()), Err(BackendError::ArchiveIdsExhausted)));
    assert!(matches!(b.backup(0, posts()), Err(BackendError::ArchiveIdsExhausted)));
}

#[test]
fn credential_failures_are_classified() {
    assert!(BackendError::CredentialMaterialization(String::new()).is_credential_failure());
    assert!(!BackendError::NotInitialized.is_credential_failure());
    assert!(!BackendError::ArchiveIdsExhausted.is_credential_failure());
}

#[test]
fn registry_maps_kinds() {
    let b = backend_for(BackendType::S3).unwrap();
    assert!(matches!(b.current_stage(), Stage::Uninitialized));
    assert_eq!(b.credential_locations().access_key_var, "AWS_ACCESS_KEY_ID");
    match backend_for(BackendType::DigitalOcean) {
        Err(e) => {
            assert!(matches!(e, BackendError::NoBackendFor(BackendType::DigitalOcean)));
            assert_eq!(e.message(), "No backend is available for 'do'");
            assert!(!e.is_credential_failure());
        }
        Ok(_) => panic!("no backend exists for DigitalOcean"),
    }
}

#[test]
fn fresh_backend_uses_aws_names() {
    let b = S3::new();
    let l = b.credential_locations();
    assert_eq!(l.access_key_var, "AWS_ACCESS_KEY_ID");
    assert_eq!(l.secret_key_var, "AWS_SECRET_ACCESS_KEY");
    assert_eq!(l.profile_file, "~/.aws/credentials");
}
