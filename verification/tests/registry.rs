use pwnenv::memory::{names_record, MemoryStore};
use pwnenv::repo::{
    ContainerId, ContainerInfo, EnvRecord, EnvRecordForList, EnvSpec, EnvSpecifier, EnvStore,
    Error,
};

fn record(uuid: u128, path: &str, name: &str, container: &str) -> EnvRecord {
    EnvRecord {
        spec: EnvSpec {
            uuid,
            project_path: path.to_string(),
            project_name: name.to_string(),
        },
        container_info: ContainerInfo { container_id: ContainerId::from_str(container) },
    }
}

/// A registry whose every operation fails.
struct BrokenStore;

fn broken<T>() -> Result<T, Error> {
    Err(Error::Db { reason: "disk is gone".to_string() })
}

impl EnvStore for BrokenStore {
    fn insert(&mut self, _record: &EnvRecord) -> Result<(), Error> {
        broken()
    }
    fn list(&mut self) -> Result<Vec<EnvRecord>, Error> {
        broken()
    }
    fn find_by_path(&mut self, _path: &str) -> Result<Vec<EnvRecord>, Error> {
        broken()
    }
    fn find_by_name(&mut self, _name: String) -> Result<Vec<EnvRecord>, Error> {
        broken()
    }
    fn find_by_uuid(&mut self, _uuid: u128) -> Result<Vec<EnvRecord>, Error> {
        broken()
    }
    fn remove_by_path(&mut self, _path: &str) -> Result<usize, Error> {
        broken()
    }
    fn remove_by_name(&mut self, _name: String) -> Result<usize, Error> {
        broken()
    }
    fn remove_by_uuid(&mut self, _uuid: u128) -> Result<usize, Error> {
        broken()
    }
}

fn three() -> (MemoryStore, EnvRecord, EnvRecord, EnvRecord) {
    let mut store = MemoryStore::new();
    let a = record(1, "/home/u/a", "web", "c-a");
    let b = record(2, "/home/u/b", "web", "c-b");
    let c = record(3, "/home/u/c", "db", "c-c");
    assert_eq!(store.insert(&a), Ok(()));
    assert_eq!(store.insert(&b), Ok(()));
    assert_eq!(store.insert(&c), Ok(()));
    (store, a, b, c)
}

#[test]
fn empty_registry_lists_and_finds_nothing() {
    let mut store = MemoryStore::new();
    assert_eq!(store.list(), Ok(vec![]));
    assert_eq!(store.find_by_path("/home/u/proj"), Ok(vec![]));
    assert_eq!(store.find_by_name("proj".to_string()), Ok(vec![]));
    assert_eq!(store.find_by_uuid(7), Ok(vec![]));
    assert_eq!(store.find(EnvSpecifier::Uuid(7)), Ok(vec![]));
    assert_eq!(store.find(EnvSpecifier::Path("/".to_string())), Ok(vec![]));
    assert_eq!(store.find(EnvSpecifier::Name(String::new())), Ok(vec![]));
    assert_eq!(store.len(), 0);
}

#[test]
fn empty_registry_removes_nothing() {
    let mut store = MemoryStore::new();
    assert_eq!(store.remove_by_uuid(1), Ok(0));
    assert_eq!(store.remove_by_path("/home/u/a"), Ok(0));
    assert_eq!(store.remove_by_name("web".to_string()), Ok(0));
    assert_eq!(store.len(), 0);
}

#[test]
fn inserted_record_is_found_by_its_identifier_alone() {
    let (mut store, a, b, c) = three();
    assert_eq!(store.find_by_uuid(1), Ok(vec![a.clone()]));
    assert_eq!(store.find_by_uuid(2), Ok(vec![b.clone()]));
    assert_eq!(store.find_by_uuid(3), Ok(vec![c.clone()]));
    assert_eq!(store.find_by_uuid(4), Ok(vec![]));
    assert_eq!(store.list(), Ok(vec![a, b, c]));
    assert_eq!(store.len(), 3);
}

#[test]
fn lookup_by_path_and_by_name() {
    let (mut store, a, b, c) = three();
    assert_eq!(store.find_by_path("/home/u/b"), Ok(vec![b.clone()]));
    assert_eq!(store.find_by_path("/home/u"), Ok(vec![]));
    assert_eq!(store.find_by_name("web".to_string()), Ok(vec![a.clone(), b.clone()]));
    assert_eq!(store.find_by_name("db".to_string()), Ok(vec![c.clone()]));
    assert_eq!(store.find(EnvSpecifier::Name("web".to_string())), Ok(vec![a, b]));
    assert_eq!(store.find(EnvSpecifier::Path("/home/u/c".to_string())), Ok(vec![c]));
}

#[test]
fn removal_deletes_every_match_and_counts() {
    let (mut store, a, b, c) = three();
    assert_eq!(store.remove_by_name("web".to_string()), Ok(2));
    assert_eq!(store.list(), Ok(vec![c.clone()]));
    assert_eq!(store.remove_by_name("web".to_string()), Ok(0));
    assert_eq!(store.remove_by_path("/home/u/c"), Ok(1));
    assert_eq!(store.list(), Ok(vec![]));

    let (mut store, _, _, _) = three();
    assert_eq!(store.remove_by_uuid(2), Ok(1));
    assert_eq!(store.list(), Ok(vec![a.clone(), c.clone()]));
    assert_eq!(store.find_by_uuid(2), Ok(vec![]));
    assert_eq!(store.remove(EnvSpecifier::Uuid(1)), Ok(1));
    assert_eq!(store.remove(EnvSpecifier::Path("/nowhere".to_string())), Ok(0));
    assert_eq!(store.remove(EnvSpecifier::Name("db".to_string())), Ok(1));
    assert_eq!(store.len(), 0);
    let _ = b;
}

#[test]
fn records_sharing_an_identifier_are_all_returned() {
    let mut store = MemoryStore::new();
    let a = record(9, "/p", "n", "c1");
    let b = record(9, "/q", "m", "c2");
    store.insert(&a).unwrap();
    store.insert(&b).unwrap();
    assert_eq!(store.find_by_uuid(9), Ok(vec![a, b]));
    assert_eq!(store.remove_by_uuid(9), Ok(2));
}

#[test]
fn specifier_names_record_by_its_kind() {
    let a = record(1, "/home/u/a", "web", "c-a");
    assert!(names_record(&EnvSpecifier::Uuid(1), &a));
    assert!(!names_record(&EnvSpecifier::Uuid(2), &a));
    assert!(names_record(&EnvSpecifier::Path("/home/u/a".to_string()), &a));
    assert!(!names_record(&EnvSpecifier::Path("web".to_string()), &a));
    assert!(names_record(&EnvSpecifier::Name("web".to_string()), &a));
    assert!(!names_record(&EnvSpecifier::Name("/home/u/a".to_string()), &a));
}

#[test]
fn broken_store_dispatches_to_its_failures() {
    let mut store = BrokenStore;
    let failure = Err(Error::Db { reason: "disk is gone".to_string() });
    assert_eq!(store.find(EnvSpecifier::Name("x".to_string())), failure);
    assert!(store.find(EnvSpecifier::Path("x".to_string())).is_err());
    assert!(store.find(EnvSpecifier::Uuid(1)).is_err());
    assert!(store.remove(EnvSpecifier::Uuid(1)).is_err());
    assert!(store.remove(EnvSpecifier::Name("x".to_string())).is_err());
    assert!(store.remove(EnvSpecifier::Path("x".to_string())).is_err());
}

#[test]
fn container_id_keeps_its_text() {
    let id = ContainerId::from_str("3f2a9c");
    assert_eq!(id.to_string(), "3f2a9c");
    assert_eq!(id.clone(), id);
    assert_eq!(ContainerId::from_str("").to_string(), "");
}

#[test]
fn listing_line_shows_identifier_path_and_name() {
    let a = record(5, "/home/u/a", "web", "c-a");
    let line = EnvRecordForList::from_record(&a);
    assert_eq!(
        line,
        EnvRecordForList { uuid: 5, path: "/home/u/a".to_string(), name: "web".to_string() }
    );
}

#[test]
fn clones_are_equal() {
    let a = record(5, "/home/u/a", "web", "c-a");
    assert_eq!(a.clone(), a);
    assert_eq!(a.spec.clone(), a.spec);
    assert_eq!(a.container_info.clone(), a.container_info);
}
