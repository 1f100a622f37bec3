use pwnenv::memory::MemoryStore;
use pwnenv::repo::{
    ContainerId, ContainerInfo, EnvRecord, EnvSpec, EnvSpecifier, EnvStore, Error,
};
use pwnenv::usecase::{
    expect_exactly_one, resolve_by_directory, resolve_specified, specify_env_to_operate,
    ResolveError,
};

fn rec(uuid: u128, path: &str, name: &str) -> EnvRecord {
    EnvRecord {
        spec: EnvSpec {
            uuid,
            project_path: path.to_string(),
            project_name: name.to_string(),
        },
        container_info: ContainerInfo { container_id: ContainerId::from_str("c") },
    }
}

fn store_of(records: &[EnvRecord]) -> MemoryStore {
    let mut store = MemoryStore::new();
    for r in records {
        store.insert(r).unwrap();
    }
    store
}

struct Unreadable;

impl EnvStore for Unreadable {
    fn insert(&mut self, _record: &EnvRecord) -> Result<(), Error> {
        Err(Error::Db { reason: "locked".to_string() })
    }
    fn list(&mut self) -> Result<Vec<EnvRecord>, Error> {
        Err(Error::Db { reason: "locked".to_string() })
    }
    fn find_by_path(&mut self, _path: &str) -> Result<Vec<EnvRecord>, Error> {
        Err(Error::Db { reason: "locked".to_string() })
    }
    fn find_by_name(&mut self, _name: String) -> Result<Vec<EnvRecord>, Error> {
        Err(Error::Db { reason: "locked".to_string() })
    }
    fn find_by_uuid(&mut self, _uuid: u128) -> Result<Vec<EnvRecord>, Error> {
        Err(Error::Db { reason: "locked".to_string() })
    }
    fn remove_by_path(&mut self, _path: &str) -> Result<usize, Error> {
        Err(Error::Db { reason: "locked".to_string() })
    }
    fn remove_by_name(&mut self, _name: String) -> Result<usize, Error> {
        Err(Error::Db { reason: "locked".to_string() })
    }
    fn remove_by_uuid(&mut self, _uuid: u128) -> Result<usize, Error> {
        Err(Error::Db { reason: "locked".to_string() })
    }
}

#[test]
fn two_records_resolve_by_current_directory() {
    let a = rec(1, "/w/one", "a");
    let b = rec(2, "/w/two", "b");
    let mut store = store_of(&[a.clone(), b.clone()]);
    assert_eq!(specify_env_to_operate(&mut store, "/w/one", None), Ok(a));
    assert_eq!(specify_env_to_operate(&mut store, "/w/two", None), Ok(b));
    assert_eq!(
        specify_env_to_operate(&mut store, "/elsewhere", None),
        Err(ResolveError::NoMatchForCurrentDirectory)
    );
    assert_eq!(store.len(), 2);
}

#[test]
fn single_record_resolves_from_any_directory() {
    let a = rec(1, "/w/one", "a");
    let mut store = store_of(&[a.clone()]);
    assert_eq!(specify_env_to_operate(&mut store, "/w/one", None), Ok(a.clone()));
    assert_eq!(specify_env_to_operate(&mut store, "/elsewhere", None), Ok(a.clone()));
    assert_eq!(specify_env_to_operate(&mut store, "", None), Ok(a));
}

#[test]
fn shared_name_is_ambiguous() {
    let a = rec(1, "/w/one", "same");
    let b = rec(2, "/w/two", "same");
    let c = rec(3, "/w/three", "other");
    let mut store = store_of(&[a, b, c.clone()]);
    assert_eq!(
        specify_env_to_operate(&mut store, "/w/one", Some(EnvSpecifier::Name("same".to_string()))),
        Err(ResolveError::Ambiguous)
    );
    assert_eq!(
        specify_env_to_operate(&mut store, "/w/one", Some(EnvSpecifier::Name("other".to_string()))),
        Ok(c)
    );
}

#[test]
fn specifier_that_matches_nothing_is_not_found() {
    let a = rec(1, "/w/one", "a");
    let mut store = store_of(&[a]);
    assert_eq!(
        specify_env_to_operate(&mut store, "/w/one", Some(EnvSpecifier::Uuid(2))),
        Err(ResolveError::NotFound)
    );
    assert_eq!(
        specify_env_to_operate(&mut store, "/w/one", Some(EnvSpecifier::Path("/p".to_string()))),
        Err(ResolveError::NotFound)
    );
    let mut empty = MemoryStore::new();
    assert_eq!(
        specify_env_to_operate(&mut empty, "/w/one", Some(EnvSpecifier::Name("a".to_string()))),
        Err(ResolveError::NotFound)
    );
}

#[test]
fn specifier_wins_over_current_directory() {
    let a = rec(1, "/w/one", "a");
    let b = rec(2, "/w/two", "b");
    let mut store = store_of(&[a.clone(), b.clone()]);
    assert_eq!(specify_env_to_operate(&mut store, "/w/one", Some(EnvSpecifier::Uuid(2))), Ok(b));
    assert_eq!(
        specify_env_to_operate(&mut store, "/w/two", Some(EnvSpecifier::Path("/w/one".to_string()))),
        Ok(a)
    );
}

#[test]
fn empty_registry_has_nothing_to_select() {
    let mut store = MemoryStore::new();
    assert_eq!(
        specify_env_to_operate(&mut store, "/w/one", None),
        Err(ResolveError::NothingToSelect)
    );
}

#[test]
fn records_sharing_the_current_directory_violate_consistency() {
    let a = rec(1, "/w/one", "a");
    let b = rec(2, "/w/one", "b");
    let c = rec(3, "/w/three", "c");
    let mut store = store_of(&[a, b, c]);
    assert_eq!(
        specify_env_to_operate(&mut store, "/w/one", None),
        Err(ResolveError::ConsistencyViolation)
    );
    assert_eq!(
        specify_env_to_operate(&mut store, "/w/one", Some(EnvSpecifier::Path("/w/one".to_string()))),
        Err(ResolveError::Ambiguous)
    );
}

#[test]
fn unreadable_registry_is_a_storage_error() {
    let mut store = Unreadable;
    let failure = Err(ResolveError::Storage(Error::Db { reason: "locked".to_string() }));
    assert_eq!(specify_env_to_operate(&mut store, "/w/one", None), failure);
    assert_eq!(
        specify_env_to_operate(&mut store, "/w/one", Some(EnvSpecifier::Uuid(1))),
        failure
    );
}

#[test]
fn exactly_one_of_none_one_and_many() {
    let a = rec(1, "/w/one", "a");
    let b = rec(2, "/w/two", "b");
    assert_eq!(
        expect_exactly_one(vec![], ResolveError::NotFound, ResolveError::Ambiguous),
        Err(ResolveError::NotFound)
    );
    assert_eq!(
        expect_exactly_one(vec![a.clone()], ResolveError::NotFound, ResolveError::Ambiguous),
        Ok(a.clone())
    );
    assert_eq!(
        expect_exactly_one(vec![a.clone(), b], ResolveError::NotFound, ResolveError::Ambiguous),
        Err(ResolveError::Ambiguous)
    );
    assert_eq!(
        expect_exactly_one(
            vec![],
            ResolveError::NoMatchForCurrentDirectory,
            ResolveError::ConsistencyViolation
        ),
        Err(ResolveError::NoMatchForCurrentDirectory)
    );
}

#[test]
fn resolution_from_registry_answers() {
    let a = rec(1, "/w/one", "a");
    let b = rec(2, "/w/one", "b");
    let failure = Error::Db { reason: "locked".to_string() };
    assert_eq!(resolve_specified(Ok(vec![])), Err(ResolveError::NotFound));
    assert_eq!(resolve_specified(Ok(vec![a.clone()])), Ok(a.clone()));
    assert_eq!(resolve_specified(Ok(vec![a.clone(), b.clone()])), Err(ResolveError::Ambiguous));
    assert_eq!(
        resolve_specified(Err(Error::Db { reason: "locked".to_string() })),
        Err(ResolveError::Storage(Error::Db { reason: "locked".to_string() }))
    );
    assert_eq!(
        resolve_by_directory(Ok(vec![])),
        Err(ResolveError::NoMatchForCurrentDirectory)
    );
    assert_eq!(resolve_by_directory(Ok(vec![b.clone()])), Ok(b.clone()));
    assert_eq!(
        resolve_by_directory(Ok(vec![a, b])),
        Err(ResolveError::ConsistencyViolation)
    );
    assert_eq!(resolve_by_directory(Err(failure)), Err(ResolveError::Storage(Error::Db {
        reason: "locked".to_string()
    })));
}
