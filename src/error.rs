use vstd::prelude::*;
use vstd::string::*;
use crate::backend::{backend_token, BackendType};
use crate::credentials::CredentialLocations;
use crate::text::{between, text_between};

verus! {

/// How the remote provider answered the validation probe.
#[derive(Debug, Clone, Copy, PartialEq, Eq, Structural)]
pub enum RemoteErrorKind {
    /// No answer: the network or the endpoint could not be reached in time.
    Unreachable,
    /// The provider did not accept the credentials.
    AuthenticationRejected,
    /// The credentials were accepted but lack access to the storage.
    AuthorizationRejected,
    /// Any other failed answer.
    Other,
}

/// A failed validation probe, with the provider's own description.
#[derive(Debug)]
pub struct RemoteFailure {
    pub kind: RemoteErrorKind,
    pub cause: String,
}

/// Everything that can stop a backend from being initialised or used.
#[derive(Debug)]
pub enum BackendError {
    /// Neither a complete set of environment variables nor a profile file was found.
    NoCredentialsFound(CredentialLocations),
    /// A source was found but no usable credentials could be read from it.
    CredentialMaterialization(String),
    /// The provider client could not be constructed.
    ClientConstruction(String),
    /// The validation probe against the provider failed.
    RemoteValidation(RemoteFailure),
    /// An operation needs an instance whose `init` succeeded.
    NotInitialized,
    /// An initialisation event arrived in a stage that does not expect it.
    UnexpectedEvent,
    /// No archive identifier is left above the last one that was used.
    ArchiveIdsExhausted,
    /// No backend implementation exists for this kind.
    NoBackendFor(BackendType),
}

/// Error codes with which the provider rejects the credentials themselves.
pub open spec fn is_authentication_code(c: Seq<char>) -> bool {
    ||| c == "InvalidAccessKeyId"@
    ||| c == "SignatureDoesNotMatch"@
    ||| c == "ExpiredToken"@
    ||| c == "InvalidToken"@
}

/// Error codes with which the provider refuses access to the storage.
pub open spec fn is_authorization_code(c: Seq<char>) -> bool {
    ||| c == "AccessDenied"@
    ||| c == "AllAccessDisabled"@
}

/// The error code in a provider's XML error body, if any.
pub open spec fn error_code_of(body: Seq<char>) -> Option<Seq<char>> {
    between(body, "<Code>"@, "</Code>"@)
}

/// The kind of a failed answer, by its error code first, then by its status.
pub open spec fn rejection_kind(status: u16, body: Seq<char>) -> RemoteErrorKind {
    match error_code_of(body) {
        Some(c) if is_authentication_code(c) => RemoteErrorKind::AuthenticationRejected,
        Some(c) if is_authorization_code(c) => RemoteErrorKind::AuthorizationRejected,
        _ => if status == 401 {
            RemoteErrorKind::AuthenticationRejected
        } else if status == 403 {
            RemoteErrorKind::AuthorizationRejected
        } else {
            RemoteErrorKind::Other
        },
    }
}

fn is_code(c: &String, code: &str) -> (r: bool)
    ensures
        r == (c@ == code@),
{
    let k = String::from_str(code);
    *c == k
}

/// Classifies a failed answer of the provider from its HTTP status and body.
pub fn classify_rejection(status: u16, body: &str) -> (r: RemoteErrorKind)
    ensures
        r == rejection_kind(status, body@),
{
    let code = text_between(body, "<Code>", "</Code>");
    match code {
        Some(c) => {
            if is_code(&c, "InvalidAccessKeyId") || is_code(&c, "SignatureDoesNotMatch")
                || is_code(&c, "ExpiredToken") || is_code(&c, "InvalidToken") {
                return RemoteErrorKind::AuthenticationRejected;
            }
            if is_code(&c, "AccessDenied") || is_code(&c, "AllAccessDisabled") {
                return RemoteErrorKind::AuthorizationRejected;
            }
        },
        None => {},
    }
    if status == 401 {
        RemoteErrorKind::AuthenticationRejected
    } else if status == 403 {
        RemoteErrorKind::AuthorizationRejected
    } else {
        RemoteErrorKind::Other
    }
}

/// The failure for an answer with this status and body; the body is kept
/// as the cause.
pub fn rejection(status: u16, body: String) -> (r: RemoteFailure)
    ensures
        r.kind == rejection_kind(status, body@),
        r.cause == body,
{
    RemoteFailure { kind: classify_rejection(status, body.as_str()), cause: body }
}

/// The failure for a probe that got no answer.
pub fn no_answer(cause: String) -> (r: RemoteFailure)
    ensures
        r.kind == RemoteErrorKind::Unreachable,
        r.cause == cause,
{
    RemoteFailure { kind: RemoteErrorKind::Unreachable, cause }
}

impl RemoteFailure {
    /// An identical copy.
    pub fn copy(&self) -> (r: RemoteFailure)
        ensures
            r == *self,
    {
        RemoteFailure { kind: self.kind, cause: self.cause.clone() }
    }
}

impl BackendError {
    /// An identical copy.
    pub fn copy(&self) -> (r: BackendError)
        ensures
            r == *self,
    {
        match self {
            BackendError::NoCredentialsFound(l) => BackendError::NoCredentialsFound(l.copy()),
            BackendError::CredentialMaterialization(c) => BackendError::CredentialMaterialization(
                c.clone(),
            ),
            BackendError::ClientConstruction(c) => BackendError::ClientConstruction(c.clone()),
            BackendError::RemoteValidation(f) => BackendError::RemoteValidation(f.copy()),
            BackendError::NotInitialized => BackendError::NotInitialized,
            BackendError::UnexpectedEvent => BackendError::UnexpectedEvent,
            BackendError::ArchiveIdsExhausted => BackendError::ArchiveIdsExhausted,
            BackendError::NoBackendFor(k) => BackendError::NoBackendFor(*k),
        }
    }

    /// The message shown to the user for this error.
    pub open spec fn spec_message(&self) -> Seq<char> {
        match self {
            BackendError::NoCredentialsFound(l) => "Failed to find credentials in "@ + l.profile_file@
                + " or in the environment variables "@ + l.access_key_var@ + " and "@
                + l.secret_key_var@,
            BackendError::CredentialMaterialization(c) => "Failed to read credentials: "@ + c@,
            BackendError::ClientConstruction(c) => "Failed to create the storage client: "@ + c@,
            BackendError::RemoteValidation(f) => "Failed to validate credentials: "@ + f.cause@,
            BackendError::NotInitialized => "The backend has not been initialised"@,
            BackendError::UnexpectedEvent => "Unexpected step during backend initialisation"@,
            BackendError::ArchiveIdsExhausted => "No backup name is left"@,
            BackendError::NoBackendFor(k) => "No backend is available for '"@ + backend_token(*k)
                + "'"@,
        }
    }

    /// The message shown to the user for this error.
    pub fn message(&self) -> (r: String)
        ensures
            r@ == self.spec_message(),
    {
        match self {
            BackendError::NoCredentialsFound(l) => {
                let mut m = String::from_str("Failed to find credentials in ");
                m.append(l.profile_file.as_str());
                m.append(" or in the environment variables ");
                m.append(l.access_key_var.as_str());
                m.append(" and ");
                m.append(l.secret_key_var.as_str());
                m
            },
            BackendError::CredentialMaterialization(c) => {
                let mut m = String::from_str("Failed to read credentials: ");
                m.append(c.as_str());
                m
            },
            BackendError::ClientConstruction(c) => {
                let mut m = String::from_str("Failed to create the storage client: ");
                m.append(c.as_str());
                m
            },
            BackendError::RemoteValidation(f) => {
                let mut m = String::from_str("Failed to validate credentials: ");
                m.append(f.cause.as_str());
                m
            },
            BackendError::NotInitialized => String::from_str("The backend has not been initialised"),
            BackendError::UnexpectedEvent => String::from_str(
                "Unexpected step during backend initialisation",
            ),
            BackendError::ArchiveIdsExhausted => String::from_str("No backup name is left"),
            BackendError::NoBackendFor(k) => {
                let mut m = String::from_str("No backend is available for '");
                m.append(k.token());
                m.append("'");
                m
            },
        }
    }

    /// The error means that the credentials did not prove usable for the backend.
    pub open spec fn spec_is_credential_failure(&self) -> bool {
        ||| self is NoCredentialsFound
        ||| self is CredentialMaterialization
        ||| self is ClientConstruction
        ||| self is RemoteValidation
    }

    /// Whether the error means that the credentials did not prove usable.
    pub fn is_credential_failure(&self) -> (r: bool)
        ensures
            r == self.spec_is_credential_failure(),
    {
        match self {
            BackendError::NoCredentialsFound(_) => true,
            BackendError::CredentialMaterialization(_) => true,
            BackendError::ClientConstruction(_) => true,
            BackendError::RemoteValidation(_) => true,
            _ => false,
        }
    }
}

} // verus!
