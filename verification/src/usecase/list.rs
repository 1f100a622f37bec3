//! Listing the environments.

use vstd::prelude::*;
use crate::repo::{EnvRecordForList, EnvStore, Error, RecordView, Runtime};

verus! {

/// Whether `line` shows `record`.
pub open spec fn shows(line: EnvRecordForList, record: RecordView) -> bool {
    &&& line.uuid == record.uuid
    &&& line.path@ == record.path
    &&& line.name@ == record.name
}

/// What listing does: the registry stays as it was, and the listing has one
/// line for each of its records, in the registry's order.
pub open spec fn list_rule(
    reliable: bool,
    before: Seq<RecordView>,
    after: Seq<RecordView>,
    r: Result<Vec<EnvRecordForList>, Error>,
) -> bool {
    &&& after == before
    &&& reliable ==> r is Ok
    &&& r matches Ok(lines) ==> {
        &&& lines@.len() == before.len()
        &&& forall|i: int| 0 <= i < lines@.len() ==> shows(#[trigger] lines@[i], before[i])
    }
}

/// Lists the environments of the registry that it holds.
pub struct ListHandler<R: Runtime, S: EnvStore> {
    pub runtime: R,
    pub env_store: S,
}

impl<R: Runtime, S: EnvStore> ListHandler<R, S> {
    pub fn new(runtime: R, env_store: S) -> (r: Self)
        ensures
            r.runtime == runtime,
            r.env_store == env_store,
    {
        Self { runtime, env_store }
    }

    /// One line for each record of the registry, in the registry's order. An
    /// empty registry gives an empty listing, which is no error.
    pub fn handle(&mut self) -> (r: Result<Vec<EnvRecordForList>, Error>)
        ensures
            old(self).env_store.reliable() ==> final(self).env_store.reliable(),
            list_rule(
                old(self).env_store.reliable(),
                old(self).env_store.records(),
                final(self).env_store.records(),
                r,
            ),
            final(self).runtime == old(self).runtime,
    {
        let records = match self.env_store.list() {
            Ok(records) => records,
            Err(error) => {
                return Err(error);
            },
        };
        let mut lines: Vec<EnvRecordForList> = Vec::new();
        let mut i: usize = 0;
        while i < records.len()
            invariant
                i <= records.len(),
                lines@.len() == i,
                forall|k: int| 0 <= k < i ==> shows(#[trigger] lines@[k], records@[k]@),
            decreases records.len() - i,
        {
            lines.push(EnvRecordForList::from_record(&records[i]));
            i += 1;
        }
        Ok(lines)
    }
}

} // verus!
