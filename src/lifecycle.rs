use vstd::prelude::*;
use crate::credentials::{
    CredentialEnv, CredentialLocations, CredentialSource, env_complete, resolve_spec,
};
use crate::text::{decimal, lemma_decimal_injective};
use crate::credentials::locations_view;
use crate::error::{BackendError, RemoteFailure};

verus! {

/// How long the validation probe may take, in seconds.
pub const PROBE_TIMEOUT_SECS: u64 = 30;

/// Where one backend instance stands in its lifecycle.
#[derive(Debug)]
pub enum Stage {
    /// Nothing was tried yet.
    Uninitialized,
    /// A source was picked; its credentials are being read.
    Materializing(CredentialSource),
    /// Credentials were read; the provider client is being built.
    Connecting(CredentialSource),
    /// The client exists; the validation probe is running.
    Probing(CredentialSource),
    /// The probe succeeded: publish and backup may run.
    Ready(CredentialSource),
    /// Initialisation failed; the instance stays here for good.
    Failed(BackendError),
}

/// What the outside world reports back during initialisation.
#[derive(Debug)]
pub enum InitEvent {
    /// The environment variables and the profile file were looked at.
    Discovered(CredentialEnv),
    /// Reading credentials from the picked source finished.
    Materialized(Result<(), String>),
    /// Building the provider client finished.
    ClientBuilt(Result<(), String>),
    /// The validation probe finished.
    Probed(Result<(), RemoteFailure>),
}

/// What the driver of the initialisation must do next.
#[derive(Debug)]
pub enum InitAction {
    /// Read credentials from this source, then report `Materialized`.
    Materialize(CredentialSource),
    /// Build the provider client from this source, then report `ClientBuilt`.
    BuildClient(CredentialSource),
    /// Run the validation probe, then report `Probed`.
    Probe(CredentialSource),
    /// Initialisation succeeded.
    Finished,
    /// Stop with this error.
    Abort(BackendError),
}

/// A stage and an event give the next stage and the action to take.
/// An event that the stage does not expect changes nothing.
pub open spec fn next(locs: CredentialLocations, stage: Stage, ev: InitEvent) -> (Stage, InitAction) {
    match stage {
        Stage::Uninitialized => match ev {
            InitEvent::Discovered(env) => match resolve_spec(locs, env) {
                Ok(src) => (Stage::Materializing(src), InitAction::Materialize(src)),
                Err(e) => (Stage::Failed(e), InitAction::Abort(e)),
            },
            _ => (stage, InitAction::Abort(BackendError::UnexpectedEvent)),
        },
        Stage::Materializing(src) => match ev {
            InitEvent::Materialized(Ok(())) => (Stage::Connecting(src), InitAction::BuildClient(src)),
            InitEvent::Materialized(Err(c)) => (
                Stage::Failed(BackendError::CredentialMaterialization(c)),
                InitAction::Abort(BackendError::CredentialMaterialization(c)),
            ),
            _ => (stage, InitAction::Abort(BackendError::UnexpectedEvent)),
        },
        Stage::Connecting(src) => match ev {
            InitEvent::ClientBuilt(Ok(())) => (Stage::Probing(src), InitAction::Probe(src)),
            InitEvent::ClientBuilt(Err(c)) => (
                Stage::Failed(BackendError::ClientConstruction(c)),
                InitAction::Abort(BackendError::ClientConstruction(c)),
            ),
            _ => (stage, InitAction::Abort(BackendError::UnexpectedEvent)),
        },
        Stage::Probing(src) => match ev {
            InitEvent::Probed(Ok(())) => (Stage::Ready(src), InitAction::Finished),
            InitEvent::Probed(Err(f)) => (
                Stage::Failed(BackendError::RemoteValidation(f)),
                InitAction::Abort(BackendError::RemoteValidation(f)),
            ),
            _ => (stage, InitAction::Abort(BackendError::UnexpectedEvent)),
        },
        _ => (stage, InitAction::Abort(BackendError::UnexpectedEvent)),
    }
}

/// The stage reached after a series of events.
pub open spec fn run(locs: CredentialLocations, stage: Stage, evs: Seq<InitEvent>) -> Stage
    decreases evs.len(),
{
    if evs.len() == 0 {
        stage
    } else {
        run(locs, next(locs, stage, evs[0]).0, evs.drop_first())
    }
}

/// A failed instance stays failed, with the same error, whatever comes after.
pub proof fn lemma_failed_is_terminal(locs: CredentialLocations, e: BackendError, evs: Seq<InitEvent>)
    ensures
        run(locs, Stage::Failed(e), evs) == Stage::Failed(e),
    decreases evs.len(),
{
    if evs.len() > 0 {
        lemma_failed_is_terminal(locs, e, evs.drop_first());
    }
}

/// Credentials that cannot be read end initialisation with a
/// materialization error; no probe is asked for, and no later event turns
/// the failure into a remote-validation error.
pub proof fn lemma_unreadable_credentials_never_probe(
    locs: CredentialLocations,
    src: CredentialSource,
    cause: String,
    later: Seq<InitEvent>,
)
    ensures
        next(locs, Stage::Materializing(src), InitEvent::Materialized(Err(cause))) == (
        Stage::Failed(BackendError::CredentialMaterialization(cause)),
        InitAction::Abort(BackendError::CredentialMaterialization(cause)),
        ),
        run(locs, Stage::Materializing(src), seq![InitEvent::Materialized(Err(cause))] + later)
            == Stage::Failed(BackendError::CredentialMaterialization(cause)),
{
    let evs = seq![InitEvent::Materialized(Err(cause))] + later;
    assert(evs[0] == InitEvent::Materialized(Err(cause)));
    assert(evs.drop_first() =~= later);
    lemma_failed_is_terminal(locs, BackendError::CredentialMaterialization(cause), later);
}

/// From a fresh instance: when the profile file is picked and cannot be
/// read, initialisation fails with a materialization error for good.
pub proof fn lemma_malformed_profile_fails_materialization(
    locs: CredentialLocations,
    env: CredentialEnv,
    cause: String,
    later: Seq<InitEvent>,
)
    requires
        !env_complete(env),
        env.profile_file_exists,
    ensures
        run(
            locs,
            Stage::Uninitialized,
            seq![InitEvent::Discovered(env), InitEvent::Materialized(Err(cause))] + later,
        ) == Stage::Failed(BackendError::CredentialMaterialization(cause)),
{
    let evs = seq![InitEvent::Discovered(env), InitEvent::Materialized(Err(cause))] + later;
    assert(evs[0] == InitEvent::Discovered(env));
    assert(evs.drop_first() =~= seq![InitEvent::Materialized(Err(cause))] + later);
    lemma_unreadable_credentials_never_probe(locs, CredentialSource::ProfileFile, cause, later);
}

} // verus!

verus! {

/// The identifiers of a backend's archives are strictly increasing.
pub open spec fn archives_increasing(a: Seq<u64>) -> bool {
    forall|i: int, j: int| 0 <= i < j < a.len() ==> a[i] < a[j]
}

/// The identifier of the next archive: the time stamp, unless an archive
/// at or after it exists, then one past the last archive; none if that
/// would leave the `u64` range.
pub open spec fn next_archive_id(a: Seq<u64>, stamp: u64) -> Option<u64> {
    if a.len() == 0 || stamp > a.last() {
        Some(stamp)
    } else if a.last() < u64::MAX {
        Some((a.last() + 1) as u64)
    } else {
        None
    }
}

/// The next archive identifier is above every earlier one.
pub proof fn lemma_next_archive_id_is_new(a: Seq<u64>, stamp: u64)
    requires
        archives_increasing(a),
        next_archive_id(a, stamp) is Some,
    ensures
        forall|i: int| 0 <= i < a.len() ==> a[i] < next_archive_id(a, stamp).unwrap(),
        !a.contains(next_archive_id(a, stamp).unwrap()),
        archives_increasing(a.push(next_archive_id(a, stamp).unwrap())),
{
    let id = next_archive_id(a, stamp).unwrap();
    assert forall|i: int| 0 <= i < a.len() implies a[i] < id by {
        if i < a.len() - 1 {
            assert(a[i] < a[a.len() - 1]);
        }
    }
    let b = a.push(id);
    assert forall|i: int, j: int| 0 <= i < j < b.len() implies b[i] < b[j] by {
        if j < a.len() {
            assert(b[i] == a[i] && b[j] == a[j]);
        } else {
            assert(b[i] == a[i]);
        }
    }
}

/// One local post: its file name and its content.
#[derive(Debug)]
pub struct PostFile {
    pub name: String,
    pub bytes: Vec<u8>,
}

/// A local archive of posts, to be written under its name.
#[derive(Debug)]
pub struct Archive {
    /// The identifier the name is made from.
    pub id: u64,
    /// The archive's name: `backup-` and the identifier in decimal.
    pub name: String,
    /// The posts it holds, in the order given.
    pub entries: Vec<PostFile>,
}

/// The name of the archive with identifier `id`.
pub open spec fn archive_name(id: u64) -> Seq<char> {
    "backup-"@ + decimal(id as nat)
}

/// Archives with different identifiers have different names.
pub proof fn lemma_archive_names_differ(a: u64, b: u64)
    requires
        a != b,
    ensures
        archive_name(a) != archive_name(b),
{
    let p = "backup-"@;
    if archive_name(a) == archive_name(b) {
        assert(archive_name(a).subrange(p.len() as int, archive_name(a).len() as int) =~= decimal(
            a as nat,
        ));
        assert(archive_name(b).subrange(p.len() as int, archive_name(b).len() as int) =~= decimal(
            b as nat,
        ));
        lemma_decimal_injective(a as nat, b as nat);
    }
}

/// Two backups in a row, whatever their time stamps, give two different
/// archives under two different names, and neither replaces an archive
/// made before.
pub proof fn lemma_backups_never_collide(a: Seq<u64>, stamp1: u64, stamp2: u64)
    requires
        archives_increasing(a),
        next_archive_id(a, stamp1) is Some,
        next_archive_id(a.push(next_archive_id(a, stamp1).unwrap()), stamp2) is Some,
    ensures
        ({
            let id1 = next_archive_id(a, stamp1).unwrap();
            let id2 = next_archive_id(a.push(id1), stamp2).unwrap();
            &&& id1 != id2
            &&& archive_name(id1) != archive_name(id2)
            &&& !a.contains(id1)
            &&& !a.push(id1).contains(id2)
            &&& archives_increasing(a.push(id1).push(id2))
        }),
{
    let id1 = next_archive_id(a, stamp1).unwrap();
    lemma_next_archive_id_is_new(a, stamp1);
    lemma_next_archive_id_is_new(a.push(id1), stamp2);
    assert(a.push(id1)[a.len() as int] == id1);
    lemma_archive_names_differ(id1, next_archive_id(a.push(id1), stamp2).unwrap());
}

/// The interface that every storage backend offers.
pub trait Backend: Sized {
    /// Where this backend looks for credentials.
    spec fn locations(&self) -> CredentialLocations;

    /// The lifecycle stage.
    spec fn stage(&self) -> Stage;

    /// The identifiers of the archives made so far, oldest first.
    spec fn archives(&self) -> Seq<u64>;

    /// The internal invariant.
    spec fn wf(&self) -> bool;

    /// The names of the access key variable, the secret key variable and the
    /// profile file that a fresh instance looks at.
    spec fn default_locations() -> (Seq<char>, Seq<char>, Seq<char>);

    /// A fresh, uninitialised instance.
    fn new() -> (r: Self)
        ensures
            r.wf(),
            locations_view(r.locations()) == Self::default_locations(),
            r.stage() == Stage::Uninitialized,
            r.archives() == Seq::<u64>::empty(),
            archives_increasing(r.archives()),
    ;

    /// Advances initialisation by one reported event.
    fn step(&mut self, ev: InitEvent) -> (a: InitAction)
        requires
            old(self).wf(),
        ensures
            final(self).wf(),
            (final(self).stage(), a) == next(old(self).locations(), old(self).stage(), ev),
            final(self).locations() == old(self).locations(),
            final(self).archives() == old(self).archives(),
    ;

    /// Publishes the built posts; refused unless initialisation succeeded.
    fn publish(&self) -> (r: Result<(), BackendError>)
        ensures
            self.stage() is Ready ==> r is Ok,
            !(self.stage() is Ready) ==> r == Err::<(), BackendError>(BackendError::NotInitialized),
    ;

    /// Makes a new local archive of `posts`; refused unless initialisation
    /// succeeded. The archive holds exactly the given posts and has a name
    /// that no earlier archive of this instance has.
    fn backup(&mut self, stamp: u64, posts: Vec<PostFile>) -> (r: Result<Archive, BackendError>)
        requires
            old(self).wf(),
            archives_increasing(old(self).archives()),
        ensures
            final(self).wf(),
            archives_increasing(final(self).archives()),
            final(self).stage() == old(self).stage(),
            final(self).locations() == old(self).locations(),
            !(old(self).stage() is Ready) ==> r == Err::<Archive, BackendError>(
                BackendError::NotInitialized,
            ) && final(self).archives() == old(self).archives(),
            old(self).stage() is Ready && next_archive_id(old(self).archives(), stamp) is None
                ==> r == Err::<Archive, BackendError>(BackendError::ArchiveIdsExhausted)
                && final(self).archives() == old(self).archives(),
            old(self).stage() is Ready && next_archive_id(old(self).archives(), stamp) is Some
                ==> r is Ok && r->Ok_0.id == next_archive_id(old(self).archives(), stamp).unwrap()
                && r->Ok_0.name@ == archive_name(r->Ok_0.id) && r->Ok_0.entries@ == posts@
                && final(self).archives() == old(self).archives().push(r->Ok_0.id),
    ;
}

} // verus!
