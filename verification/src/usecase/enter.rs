//! Entering an environment.

use vstd::prelude::*;
use crate::repo::{
    Call, EnvRecord, EnvSpecifier, EnvStore, Error, RecordView, Runtime, SpecifierView,
};
use crate::usecase::{
    resolve, specifier_view, specify_env_to_operate, unread_or, Resolution, ResolveError,
};

verus! {

/// How an attempt to enter an environment ended.
#[derive(Debug, PartialEq, Eq)]
pub enum EnterOutcome {
    /// The terminal was attached to the container of this record.
    Entered(EnvRecord),
    /// The environment was selected, but the runtime could not attach to it.
    AttachFailed { record: EnvRecord, error: Error },
    /// No environment was selected.
    Unresolved(ResolveError),
}

/// What entering does: the registry stays as it was, the environment is the
/// one that `resolve` selects, and the runtime is asked once to attach to it.
/// Without a selection the outcome gives the reason, and the runtime is not
/// asked for anything.
pub open spec fn enter_rule(
    reliable: bool,
    before: Seq<RecordView>,
    after: Seq<RecordView>,
    calls_before: Seq<Call>,
    calls_after: Seq<Call>,
    current_path: Seq<char>,
    specifier: Option<SpecifierView>,
    r: EnterOutcome,
) -> bool {
    &&& after == before
    &&& match r {
        EnterOutcome::Entered(record) => {
            &&& resolve(before, current_path, specifier) == Resolution::Selected(record@)
            &&& calls_after == calls_before.push(Call::Enter { record: record@, succeeded: true })
        },
        EnterOutcome::AttachFailed { record, error } => {
            &&& resolve(before, current_path, specifier) == Resolution::Selected(record@)
            &&& calls_after == calls_before.push(Call::Enter { record: record@, succeeded: false })
        },
        EnterOutcome::Unresolved(reason) => {
            &&& unread_or(reason, resolve(before, current_path, specifier))
            &&& reliable ==> !(reason is Storage)
            &&& calls_after == calls_before
        },
    }
}

/// Enters environments with the runtime and the registry that it holds.
pub struct EnterHandler<R: Runtime, S: EnvStore> {
    pub runtime: R,
    pub env_store: S,
}

impl<R: Runtime, S: EnvStore> EnterHandler<R, S> {
    pub fn new(runtime: R, env_store: S) -> (r: Self)
        ensures
            r.runtime == runtime,
            r.env_store == env_store,
    {
        Self { runtime, env_store }
    }

    /// Selects the environment and attaches to it. The registry is only
    /// read, and the runtime is called only for the selected record.
    pub fn handler(&mut self, current_path: &str, env_specifier: Option<EnvSpecifier>) -> (r:
        EnterOutcome)
        ensures
            old(self).env_store.reliable() ==> final(self).env_store.reliable(),
            enter_rule(
                old(self).env_store.reliable(),
                old(self).env_store.records(),
                final(self).env_store.records(),
                old(self).runtime.calls(),
                final(self).runtime.calls(),
                current_path@,
                specifier_view(env_specifier),
                r,
            ),
    {
        match specify_env_to_operate(&mut self.env_store, current_path, env_specifier) {
            Err(reason) => EnterOutcome::Unresolved(reason),
            Ok(record) => match self.runtime.enter(&record) {
                Ok(()) => EnterOutcome::Entered(record),
                Err(error) => EnterOutcome::AttachFailed { record, error },
            },
        }
    }
}

} // verus!
