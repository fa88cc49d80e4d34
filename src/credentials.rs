use vstd::prelude::*;
use crate::error::BackendError;

verus! {

/// Where credentials are looked for.
#[derive(Debug, Clone, Copy, PartialEq, Eq, Structural)]
pub enum CredentialSource {
    /// A complete pair of environment variables.
    Environment,
    /// The provider's profile (credentials) file in the home directory.
    ProfileFile,
}

/// The places that one provider's credentials are looked for, by name.
#[derive(Debug)]
pub struct CredentialLocations {
    /// Name of the environment variable holding the access key id.
    pub access_key_var: String,
    /// Name of the environment variable holding the secret access key.
    pub secret_key_var: String,
    /// The profile file, as shown to the user.
    pub profile_file: String,
}

/// What was observed of the places named by `CredentialLocations`.
#[derive(Debug)]
pub struct CredentialEnv {
    /// Value of the access key variable, if it is set.
    pub access_key_id: Option<String>,
    /// Value of the secret key variable, if it is set.
    pub secret_access_key: Option<String>,
    /// Whether the profile file exists (its content is not looked at).
    pub profile_file_exists: bool,
}

impl CredentialLocations {
    /// An identical copy.
    pub fn copy(&self) -> (r: CredentialLocations)
        ensures
            r == *self,
    {
        CredentialLocations {
            access_key_var: self.access_key_var.clone(),
            secret_key_var: self.secret_key_var.clone(),
            profile_file: self.profile_file.clone(),
        }
    }
}

/// The three names of a set of locations, as character sequences.
pub open spec fn locations_view(l: CredentialLocations) -> (Seq<char>, Seq<char>, Seq<char>) {
    (l.access_key_var@, l.secret_key_var@, l.profile_file@)
}

/// A variable counts as present when it is set to a non-empty value.
pub open spec fn var_present(v: Option<String>) -> bool {
    v matches Some(s) && s@.len() > 0
}

/// Both environment variables are present.
pub open spec fn env_complete(env: CredentialEnv) -> bool {
    var_present(env.access_key_id) && var_present(env.secret_access_key)
}

/// The source that resolution picks: a complete environment first, then an
/// existing profile file; otherwise no source, naming both places.
pub open spec fn resolve_spec(locs: CredentialLocations, env: CredentialEnv) -> Result<
    CredentialSource,
    BackendError,
> {
    if env_complete(env) {
        Ok(CredentialSource::Environment)
    } else if env.profile_file_exists {
        Ok(CredentialSource::ProfileFile)
    } else {
        Err(BackendError::NoCredentialsFound(locs))
    }
}

fn is_present(v: &Option<String>) -> (r: bool)
    ensures
        r == var_present(*v),
{
    match v {
        Some(s) => !s.as_str().is_empty(),
        None => false,
    }
}

/// Picks the one credential source to try, never mixing two.
pub fn resolve(locs: &CredentialLocations, env: &CredentialEnv) -> (r: Result<
    CredentialSource,
    BackendError,
>)
    ensures
        r == resolve_spec(*locs, *env),
{
    if is_present(&env.access_key_id) && is_present(&env.secret_access_key) {
        Ok(CredentialSource::Environment)
    } else if env.profile_file_exists {
        Ok(CredentialSource::ProfileFile)
    } else {
        Err(BackendError::NoCredentialsFound(locs.copy()))
    }
}

/// When exactly one of the two variables is present, the environment is
/// never chosen: resolution falls through to the profile file.
pub proof fn lemma_partial_env_falls_through(locs: CredentialLocations, env: CredentialEnv)
    requires
        var_present(env.access_key_id) != var_present(env.secret_access_key),
    ensures
        resolve_spec(locs, env) != Ok::<CredentialSource, BackendError>(
            CredentialSource::Environment,
        ),
        env.profile_file_exists ==> resolve_spec(locs, env) == Ok::<
            CredentialSource,
            BackendError,
        >(CredentialSource::ProfileFile),
        !env.profile_file_exists ==> resolve_spec(locs, env) == Err::<
            CredentialSource,
            BackendError,
        >(BackendError::NoCredentialsFound(locs)),
{
}

} // verus!
