//! The data model of an environment and the two capabilities that the
//! lifecycle operations are built on: a registry of records and a container
//! runtime.

use vstd::prelude::*;
use crate::util::{join_path, joined_path};

verus! {

/// Where the shared templates and the registry's storage file live.
#[derive(Debug, PartialEq, Eq)]
pub struct SharedResources {
    pub shared_dir_path: String,
    pub dockerfile_template_relative_path: String,
    pub compose_template_relative_path: String,
    pub database_relative_path: String,
}

impl SharedResources {
    pub fn dockerfile_template_absolute_path(&self) -> (r: String)
        ensures
            r@ == joined_path(self.shared_dir_path@, self.dockerfile_template_relative_path@),
    {
        join_path(self.shared_dir_path.as_str(), self.dockerfile_template_relative_path.as_str())
    }

    pub fn compose_template_absolute_path(&self) -> (r: String)
        ensures
            r@ == joined_path(self.shared_dir_path@, self.compose_template_relative_path@),
    {
        join_path(self.shared_dir_path.as_str(), self.compose_template_relative_path.as_str())
    }

    pub fn database_absolute_path(&self) -> (r: String)
        ensures
            r@ == joined_path(self.shared_dir_path@, self.database_relative_path@),
    {
        join_path(self.shared_dir_path.as_str(), self.database_relative_path.as_str())
    }
}

/// Every way an operation of this library can fail.
#[derive(Debug, PartialEq, Eq)]
#[allow(inconsistent_fields)]
pub enum Error {
    NotFound { what: String },
    DbConn { path: String, reason: String },
    Db { reason: String },
    Io { path: Option<String>, reason: String },
    YamlSer { reason: String },
    YamlDe { reason: String },
    InvalidComposeConfig { reason: String },
    Command { cmd: String, status: Option<i32>, err: String },
    RemoveFailed { what: String },
    TemplateNotFound { path: String },
    InvalidPath { path: String, msg: String },
    EnvConflict { name: String, path: String, existing: Option<u128> },
    Uuid { reason: String },
}

/// The identifier that the container runtime gave a container.
#[derive(Debug, PartialEq, Eq)]
pub struct ContainerId {
    id: String,
}

impl View for ContainerId {
    type V = Seq<char>;

    closed spec fn view(&self) -> Seq<char> {
        self.id@
    }
}

impl ContainerId {
    pub fn from_str(id: &str) -> (r: Self)
        ensures
            r@ == id@,
    {
        Self { id: String::from_str(id) }
    }

    pub fn to_string(&self) -> (r: String)
        ensures
            r@ == self@,
    {
        self.id.clone()
    }
}

impl Clone for ContainerId {
    fn clone(&self) -> (r: Self)
        ensures
            r == *self,
    {
        Self { id: self.id.clone() }
    }
}

/// A user's way of naming one environment.
#[derive(Debug, PartialEq, Eq)]
pub enum EnvSpecifier {
    Uuid(u128),
    Path(String),
    Name(String),
}

/// What an `EnvSpecifier` says, over sequences of characters.
pub enum SpecifierView {
    Uuid(u128),
    Path(Seq<char>),
    Name(Seq<char>),
}

impl View for EnvSpecifier {
    type V = SpecifierView;

    open spec fn view(&self) -> SpecifierView {
        match *self {
            EnvSpecifier::Uuid(uuid) => SpecifierView::Uuid(uuid),
            EnvSpecifier::Path(path) => SpecifierView::Path(path@),
            EnvSpecifier::Name(name) => SpecifierView::Name(name@),
        }
    }
}

/// The identity of an environment: fixed when it is provisioned.
#[derive(Debug, PartialEq, Eq)]
pub struct EnvSpec {
    pub uuid: u128,
    pub project_path: String,
    pub project_name: String,
}

impl Clone for EnvSpec {
    fn clone(&self) -> (r: Self)
        ensures
            r == *self,
    {
        Self {
            uuid: self.uuid,
            project_path: self.project_path.clone(),
            project_name: self.project_name.clone(),
        }
    }
}

/// The handle on the container that backs an environment.
#[derive(Debug, PartialEq, Eq)]
pub struct ContainerInfo {
    pub container_id: ContainerId,
}

impl Clone for ContainerInfo {
    fn clone(&self) -> (r: Self)
        ensures
            r == *self,
    {
        Self { container_id: self.container_id.clone() }
    }
}

/// The unit of persistence: one record per live environment.
#[derive(Debug, PartialEq, Eq)]
pub struct EnvRecord {
    pub spec: EnvSpec,
    pub container_info: ContainerInfo,
}

impl Clone for EnvRecord {
    fn clone(&self) -> (r: Self)
        ensures
            r == *self,
    {
        Self { spec: self.spec.clone(), container_info: self.container_info.clone() }
    }
}

/// What a record holds, over sequences of characters.
pub struct RecordView {
    pub uuid: u128,
    pub path: Seq<char>,
    pub name: Seq<char>,
    pub container_id: Seq<char>,
}

impl View for EnvRecord {
    type V = RecordView;

    open spec fn view(&self) -> RecordView {
        RecordView {
            uuid: self.spec.uuid,
            path: self.spec.project_path@,
            name: self.spec.project_name@,
            container_id: self.container_info.container_id@,
        }
    }
}

/// One line of the listing of environments.
#[derive(Debug, PartialEq, Eq)]
pub struct EnvRecordForList {
    pub uuid: u128,
    pub path: String,
    pub name: String,
}

impl EnvRecordForList {
    pub fn from_record(record: &EnvRecord) -> (r: Self)
        ensures
            r.uuid == record@.uuid,
            r.path@ == record@.path,
            r.name@ == record@.name,
    {
        Self {
            uuid: record.spec.uuid,
            name: record.spec.project_name.clone(),
            path: record.spec.project_path.clone(),
        }
    }
}

/// The records as the contracts see them.
pub open spec fn views(records: Seq<EnvRecord>) -> Seq<RecordView> {
    records.map_values(|r: EnvRecord| r@)
}

/// Whether `specifier` names `record`.
pub open spec fn names(specifier: SpecifierView, record: RecordView) -> bool {
    match specifier {
        SpecifierView::Uuid(uuid) => record.uuid == uuid,
        SpecifierView::Path(path) => record.path == path,
        SpecifierView::Name(name) => record.name == name,
    }
}

/// The records of `registry` that `specifier` names, in the registry's order.
pub open spec fn selected(registry: Seq<RecordView>, specifier: SpecifierView) -> Seq<RecordView> {
    registry.filter(|r: RecordView| names(specifier, r))
}

/// The records of `registry` that `specifier` does not name.
pub open spec fn remaining(registry: Seq<RecordView>, specifier: SpecifierView) -> Seq<RecordView> {
    registry.filter(|r: RecordView| !names(specifier, r))
}

/// Filtering a sequence of one element keeps it or leaves nothing.
pub proof fn lemma_filter_one<A>(a: A, pred: spec_fn(A) -> bool)
    ensures
        seq![a].filter(pred) == if pred(a) {
            seq![a]
        } else {
            Seq::<A>::empty()
        },
{
    reveal_with_fuel(Seq::filter, 2);
    assert(seq![a].drop_last() =~= Seq::<A>::empty());
    assert(Seq::<A>::empty().push(a) =~= seq![a]);
}

/// Filtering a sequence of two elements filters each of them in turn.
pub proof fn lemma_filter_two<A>(a: A, b: A, pred: spec_fn(A) -> bool)
    ensures
        seq![a, b].filter(pred) == seq![a].filter(pred) + seq![b].filter(pred),
{
    assert(seq![a, b] =~= seq![a] + seq![b]);
    Seq::filter_distributes_over_add(seq![a], seq![b], pred);
}

/// An empty registry answers every lookup with nothing: no specifier names a
/// record of it.
pub proof fn lemma_empty_registry_selects_nothing(specifier: SpecifierView)
    ensures
        selected(Seq::<RecordView>::empty(), specifier) == Seq::<RecordView>::empty(),
        remaining(Seq::<RecordView>::empty(), specifier) == Seq::<RecordView>::empty(),
{
    reveal(Seq::filter);
}

/// After a record is inserted, a lookup by its identifier returns what it
/// returned before, followed by that record. Where the identifier was new to
/// the registry, the lookup returns exactly that record and no other.
pub proof fn lemma_inserted_record_found_by_uuid(registry: Seq<RecordView>, record: RecordView)
    ensures
        selected(registry.push(record), SpecifierView::Uuid(record.uuid)) == selected(
            registry,
            SpecifierView::Uuid(record.uuid),
        ).push(record),
        selected(registry, SpecifierView::Uuid(record.uuid)).len() == 0 ==> selected(
            registry.push(record),
            SpecifierView::Uuid(record.uuid),
        ) == seq![record],
{
    reveal(Seq::filter);
    let s = SpecifierView::Uuid(record.uuid);
    assert(registry.push(record).drop_last() =~= registry);
    assert(selected(registry, s).len() == 0 ==> selected(registry, s).push(record) =~= seq![record]);
}

/// A lookup by identifier finds nothing in a registry once the records of
/// that identifier are removed from it.
pub proof fn lemma_removed_records_not_found(registry: Seq<RecordView>, specifier: SpecifierView)
    ensures
        selected(remaining(registry, specifier), specifier) == Seq::<RecordView>::empty(),
    decreases registry.len(),
{
    reveal(Seq::filter);
    if registry.len() > 0 {
        lemma_removed_records_not_found(registry.drop_last(), specifier);
        if !names(specifier, registry.last()) {
            let kept = remaining(registry.drop_last(), specifier);
            assert(kept.push(registry.last()).drop_last() =~= kept);
        }
    }
}

/// Whether no two records of the registry share a path.
pub open spec fn one_per_path(registry: Seq<RecordView>) -> bool {
    forall|i: int, j: int| 0 <= i < j < registry.len() ==> registry[i].path != registry[j].path
}

/// Inserting a record whose path no record of the registry has keeps the
/// registry at one record per path.
pub proof fn lemma_insert_at_free_path_keeps_one_per_path(
    registry: Seq<RecordView>,
    record: RecordView,
)
    requires
        one_per_path(registry),
        selected(registry, SpecifierView::Path(record.path)).len() == 0,
    ensures
        one_per_path(registry.push(record)),
{
    let pred = |r: RecordView| names(SpecifierView::Path(record.path), r);
    assert forall|i: int| 0 <= i < registry.len() implies registry[i].path != record.path by {
        if registry[i].path == record.path {
            registry.lemma_filter_contains(pred, i);
        }
    }
}

/// Removing records keeps the registry at one record per path.
pub proof fn lemma_removal_keeps_one_per_path(registry: Seq<RecordView>, specifier: SpecifierView)
    requires
        one_per_path(registry),
    ensures
        one_per_path(remaining(registry, specifier)),
    decreases registry.len(),
{
    reveal(Seq::filter);
    if registry.len() > 0 {
        let front = registry.drop_last();
        let pred = |r: RecordView| !names(specifier, r);
        lemma_removal_keeps_one_per_path(front, specifier);
        let kept = remaining(front, specifier);
        if !names(specifier, registry.last()) {
            assert forall|i: int| 0 <= i < kept.len() implies kept[i].path
                != registry.last().path by {
                assert(kept.contains(kept[i]));
                front.lemma_filter_contains_rev(pred, kept[i]);
                let k = choose|k: int| 0 <= k < front.len() && front[k] == kept[i];
                assert(registry[k] == kept[i]);
            }
        }
    }
}

/// A durable table of environment records.
///
/// Every operation may fail with a storage error, unless the store is
/// `reliable`. A failed query leaves the table as it was; after a failed
/// insertion or removal nothing is known of the table.
pub trait EnvStore {
    /// Whether no operation of this store fails. A store defines it to
    /// promise so; one that does not promises nothing.
    open spec fn reliable(&self) -> bool {
        false
    }

    /// The records that the table holds, oldest first. A store defines it
    /// to say what its table holds; one that does not leaves it unspecified.
    open spec fn records(&self) -> Seq<RecordView> {
        arbitrary()
    }

    fn insert(&mut self, record: &EnvRecord) -> (r: Result<(), Error>)
        ensures
            old(self).reliable() ==> r is Ok && final(self).reliable(),
            r is Ok ==> final(self).records() == old(self).records().push(record@),
    ;

    fn list(&mut self) -> (r: Result<Vec<EnvRecord>, Error>)
        ensures
            old(self).reliable() ==> r is Ok && final(self).reliable(),
            final(self).records() == old(self).records(),
            r matches Ok(found) ==> views(found@) == old(self).records(),
    ;

    fn find_by_path(&mut self, path: &str) -> (r: Result<Vec<EnvRecord>, Error>)
        ensures
            old(self).reliable() ==> r is Ok && final(self).reliable(),
            final(self).records() == old(self).records(),
            r matches Ok(found) ==> views(found@) == selected(
                old(self).records(),
                SpecifierView::Path(path@),
            ),
    ;

    fn find_by_name(&mut self, name: String) -> (r: Result<Vec<EnvRecord>, Error>)
        ensures
            old(self).reliable() ==> r is Ok && final(self).reliable(),
            final(self).records() == old(self).records(),
            r matches Ok(found) ==> views(found@) == selected(
                old(self).records(),
                SpecifierView::Name(name@),
            ),
    ;

    fn find_by_uuid(&mut self, uuid: u128) -> (r: Result<Vec<EnvRecord>, Error>)
        ensures
            old(self).reliable() ==> r is Ok && final(self).reliable(),
            final(self).records() == old(self).records(),
            r matches Ok(found) ==> views(found@) == selected(
                old(self).records(),
                SpecifierView::Uuid(uuid),
            ),
    ;

    fn remove_by_path(&mut self, path: &str) -> (r: Result<usize, Error>)
        ensures
            old(self).reliable() ==> r is Ok && final(self).reliable(),
            r matches Ok(count) ==> {
                &&& final(self).records() == remaining(old(self).records(), SpecifierView::Path(path@))
                &&& count == selected(old(self).records(), SpecifierView::Path(path@)).len()
            },
    ;

    fn remove_by_name(&mut self, name: String) -> (r: Result<usize, Error>)
        ensures
            old(self).reliable() ==> r is Ok && final(self).reliable(),
            r matches Ok(count) ==> {
                &&& final(self).records() == remaining(old(self).records(), SpecifierView::Name(name@))
                &&& count == selected(old(self).records(), SpecifierView::Name(name@)).len()
            },
    ;

    fn remove_by_uuid(&mut self, uuid: u128) -> (r: Result<usize, Error>)
        ensures
            old(self).reliable() ==> r is Ok && final(self).reliable(),
            r matches Ok(count) ==> {
                &&& final(self).records() == remaining(old(self).records(), SpecifierView::Uuid(uuid))
                &&& count == selected(old(self).records(), SpecifierView::Uuid(uuid)).len()
            },
    ;

    /// The records that `specifier` names, whatever its kind.
    fn find(&mut self, specifier: EnvSpecifier) -> (r: Result<Vec<EnvRecord>, Error>)
        ensures
            old(self).reliable() ==> r is Ok && final(self).reliable(),
            final(self).records() == old(self).records(),
            r matches Ok(found) ==> views(found@) == selected(old(self).records(), specifier@),
    {
        match specifier {
            EnvSpecifier::Name(name) => self.find_by_name(name),
            EnvSpecifier::Path(path) => self.find_by_path(path.as_str()),
            EnvSpecifier::Uuid(uuid) => self.find_by_uuid(uuid),
        }
    }

    /// Removes the records that `specifier` names, whatever its kind, and
    /// counts them.
    fn remove(&mut self, specifier: EnvSpecifier) -> (r: Result<usize, Error>)
        ensures
            old(self).reliable() ==> r is Ok && final(self).reliable(),
            r matches Ok(count) ==> {
                &&& final(self).records() == remaining(old(self).records(), specifier@)
                &&& count == selected(old(self).records(), specifier@).len()
            },
    {
        match specifier {
            EnvSpecifier::Name(name) => self.remove_by_name(name),
            EnvSpecifier::Path(path) => self.remove_by_path(path.as_str()),
            EnvSpecifier::Uuid(uuid) => self.remove_by_uuid(uuid),
        }
    }
}

/// One request to the container runtime, and how it was answered.
pub enum Call {
    /// The container of an environment was to be provisioned; `container`
    /// is the identifier of the container that was started, if one was.
    Init { uuid: u128, path: Seq<char>, name: Seq<char>, container: Option<Seq<char>> },
    /// The terminal was to be attached to the container of `record`.
    Enter { record: RecordView, succeeded: bool },
    /// The container of `record` was to be torn down.
    Kill { record: RecordView, succeeded: bool },
}

/// The request to provision `env_spec`, answered with `r`.
pub open spec fn init_call(env_spec: EnvSpec, r: Result<ContainerInfo, Error>) -> Call {
    Call::Init {
        uuid: env_spec.uuid,
        path: env_spec.project_path@,
        name: env_spec.project_name@,
        container: match r {
            Ok(info) => Some(info.container_id@),
            Err(_) => None,
        },
    }
}

/// The container runtime: an outside service, known by the requests made
/// to it and by whether each succeeded.
pub trait Runtime {
    /// The requests made so far, oldest first. A runtime defines it to keep
    /// count; one that does not leaves it unspecified.
    open spec fn calls(&self) -> Seq<Call> {
        arbitrary()
    }

    /// Provisions and starts the container of `env_spec`.
    fn init(&mut self, shared_resources: &SharedResources, env_spec: &EnvSpec) -> (r: Result<
        ContainerInfo,
        Error,
    >)
        ensures
            final(self).calls() == old(self).calls().push(init_call(*env_spec, r)),
    ;

    /// Attaches the caller's terminal to the running container.
    fn enter(&mut self, env_record: &EnvRecord) -> (r: Result<(), Error>)
        ensures
            final(self).calls() == old(self).calls().push(
                Call::Enter { record: env_record@, succeeded: r is Ok },
            ),
    ;

    /// Stops and removes the container and what was generated for it.
    fn kill(&mut self, env_record: &EnvRecord) -> (r: Result<(), Error>)
        ensures
            final(self).calls() == old(self).calls().push(
                Call::Kill { record: env_record@, succeeded: r is Ok },
            ),
    ;
}

} // verus!
