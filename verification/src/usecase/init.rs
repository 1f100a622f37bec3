//! Creating the environment of a project directory.

use vstd::prelude::*;
use crate::ident::fresh_uuid;
use crate::repo::{
    lemma_insert_at_free_path_keeps_one_per_path, one_per_path, selected, Call, EnvRecord,
    EnvSpec, EnvStore, Error, RecordView, Runtime, SharedResources, SpecifierView,
};
use crate::util::{path_file_name, try_entry_name};

verus! {

/// How an attempt to create an environment ended.
#[derive(Debug, PartialEq, Eq)]
pub enum InitOutcome {
    /// The registry could not be asked whether the directory has an
    /// environment. Nothing was done.
    LookupFailed(Error),
    /// The directory already has an environment. Nothing was done.
    AlreadyRunning,
    /// The directory's path has no final component to name the environment
    /// after. Nothing was done.
    InvalidPath,
    /// The runtime could not provision the container. Nothing was recorded.
    ProvisionFailed(Error),
    /// The container runs. `stored` tells whether its record reached the
    /// registry: where it did not, a container exists that the registry does
    /// not know. `entered` tells whether the terminal was attached.
    Provisioned { record: EnvRecord, stored: Result<(), Error>, entered: Result<(), Error> },
}

/// The request to provision the environment of `project_path` under the
/// identifier `uuid`, answered with `container`.
pub open spec fn provision_call(
    uuid: u128,
    project_path: Seq<char>,
    container: Option<Seq<char>>,
) -> Call {
    Call::Init {
        uuid,
        path: project_path,
        name: match path_file_name(project_path) {
            Some(name) => name,
            None => Seq::<char>::empty(),
        },
        container,
    }
}

/// What creating does. Nothing is provisioned for a path that has a record
/// or no final component; otherwise the runtime is asked once to provision
/// the environment, and the record carries the container that it started.
/// The runtime is asked to attach to the container whether or not the
/// record reached the registry. The new record carries the path and is named
/// after the path's final component. The registry changes only by the
/// insertion of that record, once the container is provisioned.
pub open spec fn init_rule(
    reliable: bool,
    before: Seq<RecordView>,
    after: Seq<RecordView>,
    calls_before: Seq<Call>,
    calls_after: Seq<Call>,
    project_path: Seq<char>,
    r: InitOutcome,
) -> bool {
    let existing = selected(before, SpecifierView::Path(project_path));
    &&& !(r is Provisioned) ==> after == before
    &&& r is LookupFailed || r is AlreadyRunning || r is InvalidPath ==> calls_after
        == calls_before
    &&& r is ProvisionFailed ==> exists|uuid: u128|
        calls_after == calls_before.push(
            #[trigger] provision_call(uuid, project_path, None),
        )
    &&& r matches InitOutcome::Provisioned { record, stored, entered } ==> calls_after
        == calls_before.push(
        provision_call(record@.uuid, project_path, Some(record@.container_id)),
    ).push(Call::Enter { record: record@, succeeded: entered is Ok })
    &&& r is AlreadyRunning ==> existing.len() > 0
    &&& r is InvalidPath || r is ProvisionFailed || r is Provisioned ==> existing.len() == 0
    &&& r is InvalidPath ==> path_file_name(project_path) is None
    &&& r is ProvisionFailed || r is Provisioned ==> path_file_name(project_path) is Some
    &&& r matches InitOutcome::Provisioned { record, stored, entered } ==> {
        &&& record@.path == project_path
        &&& Some(record@.name) == path_file_name(project_path)
        &&& stored is Ok ==> after == before.push(record@)
        &&& reliable ==> stored is Ok
    }
    &&& reliable ==> !(r is LookupFailed)
    &&& reliable ==> (r is AlreadyRunning <==> existing.len() > 0)
    &&& reliable && existing.len() == 0 ==> (r is InvalidPath <==> path_file_name(project_path)
        is None)
}

/// Creating keeps the registry at one record per path, whenever the
/// registry's state is known afterwards.
pub proof fn lemma_init_keeps_one_per_path(
    reliable: bool,
    before: Seq<RecordView>,
    after: Seq<RecordView>,
    calls_before: Seq<Call>,
    calls_after: Seq<Call>,
    project_path: Seq<char>,
    r: InitOutcome,
)
    requires
        one_per_path(before),
        init_rule(reliable, before, after, calls_before, calls_after, project_path, r),
        r matches InitOutcome::Provisioned { record, stored, entered } ==> stored is Ok,
    ensures
        one_per_path(after),
{
    if let InitOutcome::Provisioned { record, stored, entered } = r {
        lemma_insert_at_free_path_keeps_one_per_path(before, record@);
    }
}

/// Creates environments with the runtime and the registry that it holds.
pub struct InitHandler<R: Runtime, S: EnvStore> {
    pub runtime: R,
    pub env_store: S,
}

impl<R: Runtime, S: EnvStore> InitHandler<R, S> {
    pub fn new(runtime: R, env_store: S) -> (r: Self)
        ensures
            r.runtime == runtime,
            r.env_store == env_store,
    {
        Self { runtime, env_store }
    }

    /// Creates the environment of `project_path`, unless the registry holds
    /// one for that path already: provisions the container, records it, and
    /// attaches to it. The registry changes only by the insertion of the new
    /// record, and only after the runtime has provisioned the container.
    pub fn handle(&mut self, project_path: &str, shared_resources: &SharedResources) -> (r:
        InitOutcome)
        ensures
            old(self).env_store.reliable() ==> final(self).env_store.reliable(),
            init_rule(
                old(self).env_store.reliable(),
                old(self).env_store.records(),
                final(self).env_store.records(),
                old(self).runtime.calls(),
                final(self).runtime.calls(),
                project_path@,
                r,
            ),
    {
        let existing = match self.env_store.find_by_path(project_path) {
            Ok(found) => found,
            Err(error) => {
                return InitOutcome::LookupFailed(error);
            },
        };
        if existing.len() != 0 {
            return InitOutcome::AlreadyRunning;
        }
        let project_name = match try_entry_name(project_path) {
            Some(name) => name,
            None => {
                return InitOutcome::InvalidPath;
            },
        };
        let env_spec = EnvSpec {
            uuid: fresh_uuid(),
            project_path: String::from_str(project_path),
            project_name,
        };
        let container_info = match self.runtime.init(shared_resources, &env_spec) {
            Ok(info) => info,
            Err(error) => {
                assert(self.runtime.calls() == old(self).runtime.calls().push(
                    provision_call(env_spec.uuid, project_path@, None),
                ));
                return InitOutcome::ProvisionFailed(error);
            },
        };
        let record = EnvRecord { spec: env_spec, container_info };
        let stored = self.env_store.insert(&record);
        let entered = self.runtime.enter(&record);
        InitOutcome::Provisioned { record, stored, entered }
    }
}

} // verus!
