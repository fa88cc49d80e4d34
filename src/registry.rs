use vstd::prelude::*;
use crate::backend::BackendType;
use crate::credentials::locations_view;
use crate::error::BackendError;
use crate::lifecycle::{archives_increasing, Backend, Stage};
use crate::s3::S3;

verus! {

/// Whether a backend implementation exists for `kind`.
pub open spec fn has_backend(kind: BackendType) -> bool {
    kind == BackendType::S3
}

/// A fresh backend for the configured kind; an error, never another
/// backend, for a kind that has no implementation.
pub fn backend_for(kind: BackendType) -> (r: Result<S3, BackendError>)
    ensures
        has_backend(kind) ==> (r matches Ok(b) && b.wf() && b.stage() == Stage::Uninitialized
            && b.archives() == Seq::<u64>::empty() && archives_increasing(b.archives())
            && locations_view(b.locations()) == S3::default_locations()),
        !has_backend(kind) ==> r == Err::<S3, BackendError>(BackendError::NoBackendFor(kind)),
{
    match kind {
        BackendType::S3 => Ok(S3::new()),
        BackendType::DigitalOcean => Err(BackendError::NoBackendFor(kind)),
    }
}

} // verus!
