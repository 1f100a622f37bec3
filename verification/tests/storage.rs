use pwnenv::repo::{ContainerId, ContainerInfo, EnvRecord, EnvSpec, Error};
use pwnenv::sqlite::{
    record_from_parts, record_to_parts, records_from_rows, stored_uuid, StoredRow,
};

const ID_TEXT: &str = "a1a2a3a4-b1b2-c1c2-d1d2-d3d4d5d6d7d8";
const ID: u128 = 0xa1a2a3a4b1b2c1c2d1d2d3d4d5d6d7d8;

fn row(uuid: &str, path: &str, name: &str, container: &str) -> StoredRow {
    StoredRow {
        uuid: uuid.to_string(),
        path: path.to_string(),
        name: name.to_string(),
        container_id: container.to_string(),
    }
}

fn rec(uuid: u128, path: &str, name: &str, container: &str) -> EnvRecord {
    EnvRecord {
        spec: EnvSpec {
            uuid,
            project_path: path.to_string(),
            project_name: name.to_string(),
        },
        container_info: ContainerInfo { container_id: ContainerId::from_str(container) },
    }
}

#[test]
fn row_parts_make_a_record() {
    assert_eq!(
        record_from_parts(
            ID_TEXT.to_string(),
            "/home/u/proj".to_string(),
            "proj".to_string(),
            "c0ffee".to_string()
        ),
        Ok(rec(ID, "/home/u/proj", "proj", "c0ffee"))
    );
}

#[test]
fn identifier_is_read_in_other_spellings() {
    let simple = "a1a2a3a4b1b2c1c2d1d2d3d4d5d6d7d8".to_string();
    let upper = ID_TEXT.to_uppercase();
    for text in [simple, upper] {
        let r = record_from_parts(text, "/p".to_string(), "p".to_string(), "c".to_string());
        assert_eq!(r, Ok(rec(ID, "/p", "p", "c")));
    }
}

#[test]
fn unreadable_identifier_is_a_uuid_error() {
    for text in ["", "not-a-uuid", "a1a2a3a4-b1b2-c1c2-d1d2-d3d4d5d6d7", "1"] {
        let r = record_from_parts(
            text.to_string(),
            "/p".to_string(),
            "p".to_string(),
            "c".to_string(),
        );
        assert!(matches!(r, Err(Error::Uuid { .. })), "{:?}", r);
    }
}

#[test]
fn record_is_stored_in_canonical_text() {
    assert_eq!(
        record_to_parts(&rec(ID, "/home/u/proj", "proj", "c0ffee")),
        row(ID_TEXT, "/home/u/proj", "proj", "c0ffee")
    );
    assert_eq!(
        record_to_parts(&rec(0, "", "", "")),
        row("00000000-0000-0000-0000-000000000000", "", "", "")
    );
    assert_eq!(
        record_to_parts(&rec(u128::MAX, "/", "x", "y")).uuid,
        "ffffffff-ffff-ffff-ffff-ffffffffffff"
    );
}

#[test]
fn stored_record_reads_back() {
    for id in [0u128, 1, ID, u128::MAX] {
        let record = rec(id, "/home/u/proj", "proj", "c0ffee");
        let stored = record_to_parts(&record);
        assert_eq!(
            record_from_parts(stored.uuid, stored.path, stored.name, stored.container_id),
            Ok(record)
        );
    }
}

#[test]
fn rows_become_records_in_order() {
    let rows = vec![
        row(ID_TEXT, "/w/one", "a", "c1"),
        row("00000000-0000-0000-0000-000000000002", "/w/two", "b", "c2"),
    ];
    assert_eq!(
        records_from_rows(&rows),
        Ok(vec![rec(ID, "/w/one", "a", "c1"), rec(2, "/w/two", "b", "c2")])
    );
    assert_eq!(records_from_rows(&vec![]), Ok(vec![]));
}

#[test]
fn one_unreadable_row_fails_the_query() {
    let rows = vec![row(ID_TEXT, "/w/one", "a", "c1"), row("zz", "/w/two", "b", "c2")];
    assert!(matches!(records_from_rows(&rows), Err(Error::Uuid { .. })));
}

#[test]
fn identifier_is_looked_up_by_its_canonical_text() {
    assert_eq!(stored_uuid(ID), ID_TEXT);
    assert_eq!(stored_uuid(0x10), "00000000-0000-0000-0000-000000000010");
}
