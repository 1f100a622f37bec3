//! Destroying an environment.

use vstd::prelude::*;
use crate::repo::{
    lemma_removal_keeps_one_per_path, lemma_removed_records_not_found, one_per_path, remaining,
    selected, Call, EnvRecord, EnvSpecifier, EnvStore, Error, RecordView, Runtime,
    SpecifierView,
};
use crate::usecase::{
    expect_exactly_one, lemma_selected_record_is_held, resolve, specifier_view,
    specify_env_to_operate, unread_or, Resolution, ResolveError,
};

verus! {

/// How an attempt to destroy an environment ended.
#[derive(Debug, PartialEq, Eq)]
pub enum KillOutcome {
    /// The container is gone and `removed` records of its identifier were
    /// taken out of the registry.
    Destroyed { record: EnvRecord, removed: usize },
    /// No environment was selected. Nothing was done.
    Unresolved(ResolveError),
    /// The selected record could not be confirmed: the registry failed, or
    /// holds its identifier more than once. (A registry that keeps its
    /// contract does not lose the record in between.) Nothing was done.
    Unconfirmed { record: EnvRecord, reason: ResolveError },
    /// The runtime could not tear the container down. The record stays in
    /// the registry: it is the only trace of a container that may still
    /// exist.
    TeardownFailed { record: EnvRecord, error: Error },
    /// The container is gone, but the registry failed to remove its record.
    RecordNotRemoved { record: EnvRecord, error: Error },
}

/// What destroying does. The environment is the one that `resolve`
/// selects; without a selection the outcome gives the reason. The runtime is
/// asked once to tear the container down, and only for a record that the
/// registry holds exactly once. The registry changes only once the runtime
/// has torn the container down: then the one record of the identifier is
/// removed. In every other case but a failed removal the registry stays as
/// it was.
pub open spec fn kill_rule(
    reliable: bool,
    before: Seq<RecordView>,
    after: Seq<RecordView>,
    calls_before: Seq<Call>,
    calls_after: Seq<Call>,
    current_path: Seq<char>,
    specifier: Option<SpecifierView>,
    r: KillOutcome,
) -> bool {
    &&& !(r is Destroyed) && !(r is RecordNotRemoved) ==> after == before
    &&& r is Unresolved || r is Unconfirmed ==> calls_after == calls_before
    &&& r is TeardownFailed ==> calls_after == calls_before.push(
        Call::Kill { record: kill_subject(r)@, succeeded: false },
    )
    &&& r is Destroyed || r is RecordNotRemoved ==> calls_after == calls_before.push(
        Call::Kill { record: kill_subject(r)@, succeeded: true },
    )
    &&& r matches KillOutcome::Unresolved(reason) ==> unread_or(
        reason,
        resolve(before, current_path, specifier),
    )
    &&& !(r is Unresolved) ==> resolve(before, current_path, specifier) == Resolution::Selected(
        kill_subject(r)@,
    )
    &&& r matches KillOutcome::Unconfirmed { record, reason } ==> {
        ||| reason is Storage
        ||| reason is ConsistencyViolation && selected(
            before,
            SpecifierView::Uuid(record@.uuid),
        ).len() > 1
    }
    &&& reliable ==> {
        &&& !(r is RecordNotRemoved)
        &&& r matches KillOutcome::Unresolved(reason) ==> !(reason is Storage)
        &&& r matches KillOutcome::Unconfirmed { record, reason } ==> !(reason is Storage)
    }
    &&& r is TeardownFailed || r is RecordNotRemoved || r is Destroyed ==> selected(
        before,
        SpecifierView::Uuid(kill_subject(r)@.uuid),
    ).len() == 1
    &&& r matches KillOutcome::Destroyed { record, removed } ==> {
        &&& removed == 1
        &&& after == remaining(before, SpecifierView::Uuid(record@.uuid))
    }
}

/// Destroying keeps the registry at one record per path, and once an
/// environment is destroyed the registry no longer holds its identifier.
pub proof fn lemma_kill_keeps_one_per_path(
    reliable: bool,
    before: Seq<RecordView>,
    after: Seq<RecordView>,
    calls_before: Seq<Call>,
    calls_after: Seq<Call>,
    current_path: Seq<char>,
    specifier: Option<SpecifierView>,
    r: KillOutcome,
)
    requires
        one_per_path(before),
        kill_rule(
            reliable,
            before,
            after,
            calls_before,
            calls_after,
            current_path,
            specifier,
            r,
        ),
        !(r is RecordNotRemoved),
    ensures
        one_per_path(after),
        r matches KillOutcome::Destroyed { record, removed } ==> selected(
            after,
            SpecifierView::Uuid(record@.uuid),
        ).len() == 0,
{
    if let KillOutcome::Destroyed { record, removed } = r {
        lemma_removal_keeps_one_per_path(before, SpecifierView::Uuid(record@.uuid));
        lemma_removed_records_not_found(before, SpecifierView::Uuid(record@.uuid));
    }
}

/// Whether the registry, asked once more for the selected identifier,
/// answered with exactly one record: `NotFound` for none,
/// `ConsistencyViolation` for several, and the registry's own failure
/// otherwise.
pub fn confirm_single(found: Result<Vec<EnvRecord>, Error>) -> (r: Result<(), ResolveError>)
    ensures
        match found {
            Ok(records) => {
                &&& records@.len() == 1 <==> r is Ok
                &&& records@.len() == 0 <==> r == Err::<(), ResolveError>(ResolveError::NotFound)
                &&& records@.len() > 1 <==> r == Err::<(), ResolveError>(
                    ResolveError::ConsistencyViolation,
                )
            },
            Err(error) => r == Err::<(), ResolveError>(ResolveError::Storage(error)),
        },
{
    match found {
        Ok(records) => match expect_exactly_one(
            records,
            ResolveError::NotFound,
            ResolveError::ConsistencyViolation,
        ) {
            Ok(_) => Ok(()),
            Err(reason) => Err(reason),
        },
        Err(error) => Err(ResolveError::Storage(error)),
    }
}

/// Destroys environments with the runtime and the registry that it holds.
pub struct KillHandler<R: Runtime, S: EnvStore> {
    pub runtime: R,
    pub env_store: S,
}

impl<R: Runtime, S: EnvStore> KillHandler<R, S> {
    pub fn new(runtime: R, env_store: S) -> (r: Self)
        ensures
            r.runtime == runtime,
            r.env_store == env_store,
    {
        Self { runtime, env_store }
    }

    /// Selects the environment, confirms that the registry holds its
    /// identifier exactly once, has the runtime tear the container down, and
    /// only then removes the record. Whenever the result is not `Destroyed`
    /// or `RecordNotRemoved`, the registry is as it was.
    pub fn handle(&mut self, current_path: &str, env_specifier: Option<EnvSpecifier>) -> (r:
        KillOutcome)
        ensures
            old(self).env_store.reliable() && !(r is RecordNotRemoved) ==> final(self)
                .env_store.reliable(),
            kill_rule(
                old(self).env_store.reliable(),
                old(self).env_store.records(),
                final(self).env_store.records(),
                old(self).runtime.calls(),
                final(self).runtime.calls(),
                current_path@,
                specifier_view(env_specifier),
                r,
            ),
    {
        let record = match specify_env_to_operate(&mut self.env_store, current_path, env_specifier) {
            Ok(record) => record,
            Err(reason) => {
                return KillOutcome::Unresolved(reason);
            },
        };
        proof {
            lemma_selected_record_is_held(
                old(self).env_store.records(),
                current_path@,
                specifier_view(env_specifier),
                record@,
            );
        }
        let found = self.env_store.find_by_uuid(record.spec.uuid);
        if let Err(reason) = confirm_single(found) {
            return KillOutcome::Unconfirmed { record, reason };
        }
        if let Err(error) = self.runtime.kill(&record) {
            return KillOutcome::TeardownFailed { record, error };
        }
        match self.env_store.remove_by_uuid(record.spec.uuid) {
            Ok(removed) => KillOutcome::Destroyed { record, removed },
            Err(error) => KillOutcome::RecordNotRemoved { record, error },
        }
    }
}

/// The record that an outcome other than `Unresolved` is about.
pub open spec fn kill_subject(r: KillOutcome) -> EnvRecord {
    match r {
        KillOutcome::Destroyed { record, removed } => record,
        KillOutcome::Unconfirmed { record, reason } => record,
        KillOutcome::TeardownFailed { record, error } => record,
        KillOutcome::RecordNotRemoved { record, error } => record,
        KillOutcome::Unresolved(_) => arbitrary(),
    }
}

} // verus!
