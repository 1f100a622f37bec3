//! The four user-facing operations, and the rule that picks the environment
//! an operation acts on.

use vstd::prelude::*;
use crate::repo::{
    lemma_filter_one, lemma_filter_two, names, selected, views, Call, EnvRecord,
    EnvRecordForList, EnvSpecifier, EnvStore, Error, RecordView, Runtime, SharedResources,
    SpecifierView,
};
use crate::usecase::enter::{enter_rule, EnterHandler, EnterOutcome};
use crate::usecase::init::{init_rule, InitHandler, InitOutcome};
use crate::usecase::kill::{kill_rule, kill_subject, KillHandler, KillOutcome};
use crate::usecase::list::{list_rule, ListHandler};

pub mod enter;
pub mod init;
pub mod kill;
pub mod list;

verus! {

/// What the user asked for.
#[derive(Debug, PartialEq, Eq)]
pub enum Action {
    Init,
    List,
    Enter(Option<EnvSpecifier>),
    Kill(Option<EnvSpecifier>),
}

/// Why no environment was selected.
#[derive(Debug, PartialEq, Eq)]
pub enum ResolveError {
    /// The specifier names no record.
    NotFound,
    /// The specifier names more than one record.
    Ambiguous,
    /// No specifier was given and the registry is empty.
    NothingToSelect,
    /// No specifier was given, several records exist, and none of them
    /// belongs to the current directory.
    NoMatchForCurrentDirectory,
    /// Several records belong to the current directory: the registry is
    /// corrupt.
    ConsistencyViolation,
    /// The registry could not be read.
    Storage(Error),
}

/// What the selection rule yields on a registry that can be read.
pub enum Resolution {
    Selected(RecordView),
    NotFound,
    Ambiguous,
    NothingToSelect,
    NoMatchForCurrentDirectory,
    ConsistencyViolation,
}

/// The single record of `found`, or `none` where it is empty and `many`
/// where it holds several.
pub open spec fn exactly_one(found: Seq<RecordView>, none: Resolution, many: Resolution) -> Resolution {
    if found.len() == 0 {
        none
    } else if found.len() == 1 {
        Resolution::Selected(found[0])
    } else {
        many
    }
}

/// The selection rule. With a specifier: the one record that it names. With
/// none: the one record of the registry, or else the one record that belongs
/// to the current directory.
pub open spec fn resolve(
    registry: Seq<RecordView>,
    current_path: Seq<char>,
    specifier: Option<SpecifierView>,
) -> Resolution {
    match specifier {
        Some(s) => exactly_one(selected(registry, s), Resolution::NotFound, Resolution::Ambiguous),
        None => if registry.len() == 0 {
            Resolution::NothingToSelect
        } else if registry.len() == 1 {
            Resolution::Selected(registry[0])
        } else {
            exactly_one(
                selected(registry, SpecifierView::Path(current_path)),
                Resolution::NoMatchForCurrentDirectory,
                Resolution::ConsistencyViolation,
            )
        },
    }
}

/// What a result of the selection says, where the registry could be read.
pub open spec fn resolution_of(r: Result<EnvRecord, ResolveError>) -> Option<Resolution> {
    match r {
        Ok(record) => Some(Resolution::Selected(record@)),
        Err(ResolveError::NotFound) => Some(Resolution::NotFound),
        Err(ResolveError::Ambiguous) => Some(Resolution::Ambiguous),
        Err(ResolveError::NothingToSelect) => Some(Resolution::NothingToSelect),
        Err(ResolveError::NoMatchForCurrentDirectory) => Some(
            Resolution::NoMatchForCurrentDirectory,
        ),
        Err(ResolveError::ConsistencyViolation) => Some(Resolution::ConsistencyViolation),
        Err(ResolveError::Storage(_)) => None,
    }
}

/// In a registry of exactly one record, the selection without a specifier
/// is that record, whatever the current directory.
pub proof fn lemma_single_record_is_selected(registry: Seq<RecordView>, current_path: Seq<char>)
    requires
        registry.len() == 1,
    ensures
        resolve(registry, current_path, None) == Resolution::Selected(registry[0]),
{
}

/// In a registry of two records at different paths, the selection without a
/// specifier is the record of the current directory, and there is none for a
/// directory that belongs to neither.
pub proof fn lemma_two_records_selected_by_directory(
    a: RecordView,
    b: RecordView,
    current_path: Seq<char>,
)
    requires
        a.path != b.path,
    ensures
        current_path == a.path ==> resolve(seq![a, b], current_path, None) == Resolution::Selected(
            a,
        ),
        current_path == b.path ==> resolve(seq![a, b], current_path, None) == Resolution::Selected(
            b,
        ),
        current_path != a.path && current_path != b.path ==> resolve(
            seq![a, b],
            current_path,
            None,
        ) == Resolution::NoMatchForCurrentDirectory,
{
    let pred = |r: RecordView| names(SpecifierView::Path(current_path), r);
    lemma_filter_two(a, b, pred);
    lemma_filter_one(a, pred);
    lemma_filter_one(b, pred);
    let found = selected(seq![a, b], SpecifierView::Path(current_path));
    if current_path == a.path {
        assert(found =~= seq![a]);
    } else if current_path == b.path {
        assert(found =~= seq![b]);
    } else {
        assert(found =~= Seq::<RecordView>::empty());
    }
}

/// A specifier that names more than one record selects none of them: the
/// selection is ambiguous.
pub proof fn lemma_several_matches_are_ambiguous(
    registry: Seq<RecordView>,
    current_path: Seq<char>,
    specifier: SpecifierView,
)
    requires
        selected(registry, specifier).len() > 1,
    ensures
        resolve(registry, current_path, Some(specifier)) == Resolution::Ambiguous,
{
}

/// A name that two records of the registry share selects neither of them.
pub proof fn lemma_shared_name_is_ambiguous(
    registry: Seq<RecordView>,
    current_path: Seq<char>,
    name: Seq<char>,
    i: int,
    j: int,
)
    requires
        0 <= i < j < registry.len(),
        registry[i].name == name,
        registry[j].name == name,
    ensures
        resolve(registry, current_path, Some(SpecifierView::Name(name))) == Resolution::Ambiguous,
{
    let pred = |r: RecordView| names(SpecifierView::Name(name), r);
    let head = registry.take(j);
    let tail = registry.skip(j);
    assert(registry =~= head + tail);
    Seq::filter_distributes_over_add(head, tail, pred);
    head.lemma_filter_contains(pred, i);
    tail.lemma_filter_contains(pred, 0);
    assert(head.filter(pred).len() > 0);
    assert(tail.filter(pred).len() > 0);
}

/// The specifier as the contracts see it.
pub open spec fn specifier_view(specifier: Option<EnvSpecifier>) -> Option<SpecifierView> {
    match specifier {
        Some(s) => Some(s@),
        None => None,
    }
}

/// Whether `reason` is a failure of the registry, or else the reason that
/// `resolution` gives.
pub open spec fn unread_or(reason: ResolveError, resolution: Resolution) -> bool {
    reason is Storage || resolution_of(Err(reason)) == Some(resolution)
}

/// The record that the rule selects is one of the registry: a lookup by its
/// identifier finds it.
pub proof fn lemma_selected_record_is_held(
    registry: Seq<RecordView>,
    current_path: Seq<char>,
    specifier: Option<SpecifierView>,
    record: RecordView,
)
    requires
        resolve(registry, current_path, specifier) == Resolution::Selected(record),
    ensures
        registry.contains(record),
        selected(registry, SpecifierView::Uuid(record.uuid)).len() > 0,
{
    let by_uuid = |r: RecordView| names(SpecifierView::Uuid(record.uuid), r);
    if specifier is None && registry.len() == 1 {
        assert(registry[0] == record);
    } else {
        let s = if specifier is Some {
            specifier.unwrap()
        } else {
            SpecifierView::Path(current_path)
        };
        let found = selected(registry, s);
        assert(found[0] == record);
        assert(found.contains(record));
        registry.lemma_filter_contains_rev(|r: RecordView| names(s, r), record);
    }
    let i = choose|i: int| 0 <= i < registry.len() && registry[i] == record;
    registry.lemma_filter_contains(by_uuid, i);
}

/// The single record of a lookup's result, or the reason why there is none:
/// `none` for an empty result, `many` for one with several records.
pub fn expect_exactly_one(records: Vec<EnvRecord>, none: ResolveError, many: ResolveError) -> (r:
    Result<EnvRecord, ResolveError>)
    ensures
        records@.len() == 0 ==> r == Err::<EnvRecord, ResolveError>(none),
        records@.len() == 1 ==> r == Ok::<EnvRecord, ResolveError>(records@[0]),
        records@.len() > 1 ==> r == Err::<EnvRecord, ResolveError>(many),
{
    let mut records = records;
    if records.len() == 0 {
        Err(none)
    } else if records.len() == 1 {
        match records.pop() {
            Some(record) => Ok(record),
            None => Err(none),
        }
    } else {
        Err(many)
    }
}

/// The selection for a given specifier, from what the registry answered to
/// `find`.
pub fn resolve_specified(found: Result<Vec<EnvRecord>, Error>) -> (r: Result<
    EnvRecord,
    ResolveError,
>)
    ensures
        match found {
            Ok(records) => resolution_of(r) == Some(
                exactly_one(views(records@), Resolution::NotFound, Resolution::Ambiguous),
            ),
            Err(e) => r == Err::<EnvRecord, ResolveError>(ResolveError::Storage(e)),
        },
{
    match found {
        Ok(records) => expect_exactly_one(records, ResolveError::NotFound, ResolveError::Ambiguous),
        Err(e) => Err(ResolveError::Storage(e)),
    }
}

/// The selection without a specifier among several records, from what the
/// registry answered to `find_by_path` for the current directory.
pub fn resolve_by_directory(found: Result<Vec<EnvRecord>, Error>) -> (r: Result<
    EnvRecord,
    ResolveError,
>)
    ensures
        match found {
            Ok(records) => resolution_of(r) == Some(
                exactly_one(
                    views(records@),
                    Resolution::NoMatchForCurrentDirectory,
                    Resolution::ConsistencyViolation,
                ),
            ),
            Err(e) => r == Err::<EnvRecord, ResolveError>(ResolveError::Storage(e)),
        },
{
    match found {
        Ok(records) => expect_exactly_one(
            records,
            ResolveError::NoMatchForCurrentDirectory,
            ResolveError::ConsistencyViolation,
        ),
        Err(e) => Err(ResolveError::Storage(e)),
    }
}

/// Picks the environment to act on from the specifier, if one was given, and
/// the current directory. The registry is only read. Unless the registry
/// fails, the result is what `resolve` says of its records.
pub fn specify_env_to_operate<E: EnvStore>(
    env_store: &mut E,
    current_path: &str,
    env_specifier: Option<EnvSpecifier>,
) -> (r: Result<EnvRecord, ResolveError>)
    ensures
        final(env_store).records() == old(env_store).records(),
        old(env_store).reliable() ==> final(env_store).reliable() && !(r matches Err(
            ResolveError::Storage(_),
        )),
        r matches Err(ResolveError::Storage(_)) || resolution_of(r) == Some(
            resolve(old(env_store).records(), current_path@, specifier_view(env_specifier)),
        ),
{
    match env_specifier {
        Some(specifier) => {
            let found = env_store.find(specifier);
            resolve_specified(found)
        },
        None => {
            match env_store.list() {
                Err(e) => Err(ResolveError::Storage(e)),
                Ok(all) => {
                    if all.len() == 0 {
                        Err(ResolveError::NothingToSelect)
                    } else if all.len() == 1 {
                        expect_exactly_one(
                            all,
                            ResolveError::NothingToSelect,
                            ResolveError::ConsistencyViolation,
                        )
                    } else {
                        let found = env_store.find_by_path(current_path);
                        resolve_by_directory(found)
                    }
                },
            }
        },
    }
}

/// How an action ended.
#[derive(Debug, PartialEq, Eq)]
pub enum Outcome {
    Init(InitOutcome),
    List(Result<Vec<EnvRecordForList>, Error>),
    Enter(EnterOutcome),
    Kill(KillOutcome),
}

/// Whether `outcome` is what `action` is to yield on a registry that holds
/// `before` and is left holding `after`.
pub open spec fn action_rule(
    action: Action,
    reliable: bool,
    before: Seq<RecordView>,
    after: Seq<RecordView>,
    calls_before: Seq<Call>,
    calls_after: Seq<Call>,
    current_path: Seq<char>,
    outcome: Outcome,
) -> bool {
    match action {
        Action::Init => outcome matches Outcome::Init(o) && init_rule(
            reliable,
            before,
            after,
            calls_before,
            calls_after,
            current_path,
            o,
        ),
        Action::List => outcome matches Outcome::List(o) && list_rule(reliable, before, after, o)
            && calls_after == calls_before,
        Action::Enter(specifier) => outcome matches Outcome::Enter(o) && enter_rule(
            reliable,
            before,
            after,
            calls_before,
            calls_after,
            current_path,
            specifier_view(specifier),
            o,
        ),
        Action::Kill(specifier) => outcome matches Outcome::Kill(o) && kill_rule(
            reliable,
            before,
            after,
            calls_before,
            calls_after,
            current_path,
            specifier_view(specifier),
            o,
        ),
    }
}

/// Entering and destroying select alike: on one registry, from one
/// directory and with one specifier, the environment that would be entered
/// is the one that would be destroyed, and where the registry can be read
/// both give the same reason when there is none.
pub proof fn lemma_enter_and_kill_select_alike(
    reliable: bool,
    registry: Seq<RecordView>,
    after_enter: Seq<RecordView>,
    after_kill: Seq<RecordView>,
    calls: Seq<Call>,
    calls_after_enter: Seq<Call>,
    calls_after_kill: Seq<Call>,
    current_path: Seq<char>,
    specifier: Option<SpecifierView>,
    entered: EnterOutcome,
    killed: KillOutcome,
)
    requires
        enter_rule(
            reliable,
            registry,
            after_enter,
            calls,
            calls_after_enter,
            current_path,
            specifier,
            entered,
        ),
        kill_rule(
            reliable,
            registry,
            after_kill,
            calls,
            calls_after_kill,
            current_path,
            specifier,
            killed,
        ),
    ensures
        match entered {
            EnterOutcome::Entered(record) => !(killed is Unresolved) ==> kill_subject(killed)@
                == record@,
            EnterOutcome::AttachFailed { record, error } => !(killed is Unresolved)
                ==> kill_subject(killed)@ == record@,
            EnterOutcome::Unresolved(why) => match killed {
                KillOutcome::Unresolved(reason) => reliable ==> resolution_of(
                    Err::<EnvRecord, ResolveError>(why),
                ) == resolution_of(Err::<EnvRecord, ResolveError>(reason)),
                _ => !reliable,
            },
        },
        reliable ==> (entered is Unresolved <==> killed is Unresolved),
{
}

/// An outcome, with the runtime and the registry that brought it about.
pub struct Handled<R, S> {
    pub outcome: Outcome,
    pub runtime: R,
    pub env_store: S,
}

/// Carries out `action` from the directory `current_path`, with the given
/// runtime and registry, and hands both back with the outcome.
pub fn handle<R: Runtime, S: EnvStore>(
    action: Action,
    runtime: R,
    env_store: S,
    current_path: &str,
    shared_resources: &SharedResources,
) -> (r: Handled<R, S>)
    ensures
        action_rule(
            action,
            env_store.reliable(),
            env_store.records(),
            r.env_store.records(),
            runtime.calls(),
            r.runtime.calls(),
            current_path@,
            r.outcome,
        ),
        env_store.reliable() && !(r.outcome matches Outcome::Kill(
            KillOutcome::RecordNotRemoved { .. },
        )) ==> r.env_store.reliable(),
{
    match action {
        Action::Init => {
            let mut handler = InitHandler::new(runtime, env_store);
            let outcome = handler.handle(current_path, shared_resources);
            Handled {
                outcome: Outcome::Init(outcome),
                runtime: handler.runtime,
                env_store: handler.env_store,
            }
        },
        Action::Enter(specifier) => {
            let mut handler = EnterHandler::new(runtime, env_store);
            let outcome = handler.handler(current_path, specifier);
            Handled {
                outcome: Outcome::Enter(outcome),
                runtime: handler.runtime,
                env_store: handler.env_store,
            }
        },
        Action::Kill(specifier) => {
            let mut handler = KillHandler::new(runtime, env_store);
            let outcome = handler.handle(current_path, specifier);
            Handled {
                outcome: Outcome::Kill(outcome),
                runtime: handler.runtime,
                env_store: handler.env_store,
            }
        },
        Action::List => {
            let mut handler = ListHandler::new(runtime, env_store);
            let outcome = handler.handle();
            Handled {
                outcome: Outcome::List(outcome),
                runtime: handler.runtime,
                env_store: handler.env_store,
            }
        },
    }
}

} // verus!
