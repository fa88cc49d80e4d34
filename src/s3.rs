use vstd::prelude::*;
use crate::credentials::{CredentialLocations, CredentialSource, resolve};
use crate::error::BackendError;
use crate::lifecycle::{
    archive_name, archives_increasing, next, next_archive_id, Archive, Backend, InitAction,
    InitEvent, PostFile, Stage,
};
use crate::text::decimal_string;

verus! {

/// Environment variable that holds the AWS access key id.
pub const AWS_ACCESS_KEY_VAR: &'static str = "AWS_ACCESS_KEY_ID";

/// Environment variable that holds the AWS secret access key.
pub const AWS_SECRET_KEY_VAR: &'static str = "AWS_SECRET_ACCESS_KEY";

/// The AWS credentials file, relative to the home directory.
pub const AWS_PROFILE_FILE: &'static str = "~/.aws/credentials";

/// Where AWS credentials are looked for.
pub fn aws_credential_locations() -> (r: CredentialLocations)
    ensures
        r.access_key_var@ == AWS_ACCESS_KEY_VAR@,
        r.secret_key_var@ == AWS_SECRET_KEY_VAR@,
        r.profile_file@ == AWS_PROFILE_FILE@,
{
    CredentialLocations {
        access_key_var: String::from_str(AWS_ACCESS_KEY_VAR),
        secret_key_var: String::from_str(AWS_SECRET_KEY_VAR),
        profile_file: String::from_str(AWS_PROFILE_FILE),
    }
}

/// The S3 storage backend.
pub struct S3 {
    locations: CredentialLocations,
    stage: Stage,
    archives: Vec<u64>,
}

impl S3 {
    /// Where this instance looks for credentials.
    pub fn credential_locations(&self) -> (r: &CredentialLocations)
        ensures
            *r == self.locations(),
    {
        &self.locations
    }

    /// Whether initialisation succeeded.
    pub fn is_ready(&self) -> (r: bool)
        ensures
            r == (self.stage() is Ready),
    {
        match self.stage {
            Stage::Ready(_) => true,
            _ => false,
        }
    }

    /// The current lifecycle stage.
    pub fn current_stage(&self) -> (r: &Stage)
        ensures
            *r == self.stage(),
    {
        &self.stage
    }
}

fn unexpected() -> (a: InitAction)
    ensures
        a == InitAction::Abort(BackendError::UnexpectedEvent),
{
    InitAction::Abort(BackendError::UnexpectedEvent)
}

impl Backend for S3 {
    closed spec fn locations(&self) -> CredentialLocations {
        self.locations
    }

    closed spec fn stage(&self) -> Stage {
        self.stage
    }

    closed spec fn archives(&self) -> Seq<u64> {
        self.archives@
    }

    closed spec fn wf(&self) -> bool {
        archives_increasing(self.archives@)
    }

    open spec fn default_locations() -> (Seq<char>, Seq<char>, Seq<char>) {
        (AWS_ACCESS_KEY_VAR@, AWS_SECRET_KEY_VAR@, AWS_PROFILE_FILE@)
    }

    fn new() -> (r: S3) {
        S3 { locations: aws_credential_locations(), stage: Stage::Uninitialized, archives: Vec::new() }
    }

    fn step(&mut self, ev: InitEvent) -> (a: InitAction) {
        match ev {
            InitEvent::Discovered(env) => match self.stage {
                Stage::Uninitialized => match resolve(&self.locations, &env) {
                    Ok(src) => {
                        self.stage = Stage::Materializing(src);
                        InitAction::Materialize(src)
                    },
                    Err(e) => {
                        let e2 = e.copy();
                        self.stage = Stage::Failed(e);
                        InitAction::Abort(e2)
                    },
                },
                _ => unexpected(),
            },
            InitEvent::Materialized(res) => match self.stage {
                Stage::Materializing(src) => match res {
                    Ok(()) => {
                        self.stage = Stage::Connecting(src);
                        InitAction::BuildClient(src)
                    },
                    Err(c) => {
                        let c2 = c.clone();
                        self.stage = Stage::Failed(BackendError::CredentialMaterialization(c));
                        InitAction::Abort(BackendError::CredentialMaterialization(c2))
                    },
                },
                _ => unexpected(),
            },
            InitEvent::ClientBuilt(res) => match self.stage {
                Stage::Connecting(src) => match res {
                    Ok(()) => {
                        self.stage = Stage::Probing(src);
                        InitAction::Probe(src)
                    },
                    Err(c) => {
                        let c2 = c.clone();
                        self.stage = Stage::Failed(BackendError::ClientConstruction(c));
                        InitAction::Abort(BackendError::ClientConstruction(c2))
                    },
                },
                _ => unexpected(),
            },
            InitEvent::Probed(res) => match self.stage {
                Stage::Probing(src) => match res {
                    Ok(()) => {
                        self.stage = Stage::Ready(src);
                        InitAction::Finished
                    },
                    Err(f) => {
                        let f2 = f.copy();
                        self.stage = Stage::Failed(BackendError::RemoteValidation(f));
                        InitAction::Abort(BackendError::RemoteValidation(f2))
                    },
                },
                _ => unexpected(),
            },
        }
    }

    fn publish(&self) -> (r: Result<(), BackendError>) {
        if self.is_ready() {
            Ok(())
        } else {
            Err(BackendError::NotInitialized)
        }
    }

    fn backup(&mut self, stamp: u64, posts: Vec<PostFile>) -> (r: Result<Archive, BackendError>) {
        if !self.is_ready() {
            return Err(BackendError::NotInitialized);
        }
        let n = self.archives.len();
        let id: u64;
        if n == 0 || stamp > self.archives[n - 1] {
            id = stamp;
        } else if self.archives[n - 1] < u64::MAX {
            id = self.archives[n - 1] + 1;
        } else {
            return Err(BackendError::ArchiveIdsExhausted);
        }
        proof {
            crate::lifecycle::lemma_next_archive_id_is_new(self.archives@, stamp);
        }
        self.archives.push(id);
        let mut name = String::from_str("backup-");
        let digits = decimal_string(id);
        name.append(digits.as_str());
        Ok(Archive { id, name, entries: posts })
    }
}

} // verus!
