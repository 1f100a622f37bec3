//! The registry's storage format: one table of four text columns, and the
//! conversion between its rows and environment records.

use vstd::prelude::*;
use crate::ident::{parse_uuid, uuid_parse, uuid_text, uuid_to_text};
use crate::repo::{
    views, ContainerId, ContainerInfo, EnvRecord, EnvSpec, Error, RecordView,
};

verus! {

pub const CREATE_TABLE: &'static str =
    "CREATE TABLE IF NOT EXISTS env_records (id TEXT PRIMARY KEY, path TEXT NOT NULL, name TEXT NOT NULL, container_id TEXT NOT NULL)";

pub const INSERT: &'static str =
    "INSERT INTO env_records (id, path, name, container_id) VALUES (?1, ?2, ?3, ?4)";

pub const SELECT_ALL: &'static str = "SELECT id, path, name, container_id FROM env_records";

pub const SELECT_BY_UUID: &'static str =
    "SELECT id, path, name, container_id FROM env_records WHERE id = ?1";

pub const SELECT_BY_PATH: &'static str =
    "SELECT id, path, name, container_id FROM env_records WHERE path = ?1";

pub const SELECT_BY_NAME: &'static str =
    "SELECT id, path, name, container_id FROM env_records WHERE name = ?1";

pub const DELETE_BY_UUID: &'static str = "DELETE FROM env_records WHERE id = ?1";

pub const DELETE_BY_PATH: &'static str = "DELETE FROM env_records WHERE path = ?1";

pub const DELETE_BY_NAME: &'static str = "DELETE FROM env_records WHERE name = ?1";

/// One row of the table.
#[derive(Debug, PartialEq, Eq)]
pub struct StoredRow {
    pub uuid: String,
    pub path: String,
    pub name: String,
    pub container_id: String,
}

/// The record that a row stands for, where its identifier can be read.
pub open spec fn row_record(row: StoredRow) -> Option<RecordView> {
    match uuid_parse(row.uuid@) {
        Some(uuid) => Some(
            RecordView { uuid, path: row.path@, name: row.name@, container_id: row.container_id@ },
        ),
        None => None,
    }
}

/// Whether every row stands for a record.
pub open spec fn all_readable(rows: Seq<StoredRow>) -> bool {
    forall|i: int| 0 <= i < rows.len() ==> (#[trigger] row_record(rows[i])) is Some
}

/// The records that the rows stand for.
pub open spec fn row_records(rows: Seq<StoredRow>) -> Seq<RecordView> {
    rows.map_values(|row: StoredRow| row_record(row).unwrap())
}

/// The text under which an identifier is stored and looked up.
pub fn stored_uuid(uuid: u128) -> (r: String)
    ensures
        r@ == uuid_text(uuid),
        uuid_parse(r@) == Some(uuid),
{
    uuid_to_text(uuid)
}

/// The record of the four columns of a row. The identifier is parsed;
/// the other three are taken as they are. A row whose identifier cannot
/// be read gives `Error::Uuid`.
pub fn record_from_parts(
    uuid_s: String,
    path_s: String,
    name_s: String,
    container_id_s: String,
) -> (r: Result<EnvRecord, Error>)
    ensures
        match uuid_parse(uuid_s@) {
            Some(uuid) => r matches Ok(record) && record@ == (RecordView {
                uuid,
                path: path_s@,
                name: name_s@,
                container_id: container_id_s@,
            }),
            None => r matches Err(Error::Uuid { reason }),
        },
{
    let uuid = match parse_uuid(uuid_s.as_str()) {
        Ok(uuid) => uuid,
        Err(reason) => {
            return Err(Error::Uuid { reason });
        },
    };
    let spec = EnvSpec { uuid, project_path: path_s, project_name: name_s };
    let container_info = ContainerInfo {
        container_id: ContainerId::from_str(container_id_s.as_str()),
    };
    Ok(EnvRecord { spec, container_info })
}

/// The row that stores a record: its identifier in canonical text, and
/// path, name and container identifier as they are. Reading the row back
/// gives the record again.
pub fn record_to_parts(record: &EnvRecord) -> (row: StoredRow)
    ensures
        row.uuid@ == uuid_text(record@.uuid),
        row.path@ == record@.path,
        row.name@ == record@.name,
        row.container_id@ == record@.container_id,
        row_record(row) == Some(record@),
{
    StoredRow {
        uuid: stored_uuid(record.spec.uuid),
        path: record.spec.project_path.clone(),
        name: record.spec.project_name.clone(),
        container_id: record.container_info.container_id.to_string(),
    }
}

/// The records of the rows that a query returned, in their order. The
/// first row whose identifier cannot be read fails the whole query.
pub fn records_from_rows(rows: &Vec<StoredRow>) -> (r: Result<Vec<EnvRecord>, Error>)
    ensures
        all_readable(rows@) ==> (r matches Ok(records) && views(records@) == row_records(
            rows@,
        )),
        !all_readable(rows@) ==> (r matches Err(Error::Uuid { reason })),
{
    let mut out: Vec<EnvRecord> = Vec::new();
    let mut i: usize = 0;
    while i < rows.len()
        invariant
            i <= rows.len(),
            all_readable(rows@.take(i as int)),
            views(out@) =~= row_records(rows@.take(i as int)),
        decreases rows.len() - i,
    {
        let row = &rows[i];
        let record = match record_from_parts(
            row.uuid.clone(),
            row.path.clone(),
            row.name.clone(),
            row.container_id.clone(),
        ) {
            Ok(record) => record,
            Err(error) => {
                assert(row_record(rows@[i as int]) is None);
                return Err(error);
            },
        };
        let ghost before = out@;
        out.push(record);
        proof {
            let next = rows@.take(i + 1);
            assert(next.drop_last() =~= rows@.take(i as int));
            assert forall|k: int| 0 <= k < next.len() implies (#[trigger] row_record(
                next[k],
            )) is Some by {
                if k < i {
                    assert(next[k] == rows@.take(i as int)[k]);
                }
            }
            assert(views(out@) =~= views(before).push(record@));
            assert(row_records(next) =~= row_records(rows@.take(i as int)).push(
                row_record(rows@[i as int]).unwrap(),
            ));
        }
        i += 1;
    }
    assert(rows@.take(i as int) =~= rows@);
    Ok(out)
}

} // verus!
