//! A registry that lives in memory: the reference behaviour of `EnvStore`,
//! and the registry to hand to the lifecycle operations where no storage file
//! is wanted.

use vstd::prelude::*;
use crate::repo::{
    names, remaining, selected, views, EnvRecord, EnvSpecifier, EnvStore, Error, RecordView,
};

verus! {

/// Filtering one element further either appends that element or changes
/// nothing.
pub proof fn lemma_filter_take_next<A>(s: Seq<A>, i: int, pred: spec_fn(A) -> bool)
    requires
        0 <= i < s.len(),
    ensures
        s.take(i + 1).filter(pred) == if pred(s[i]) {
            s.take(i).filter(pred).push(s[i])
        } else {
            s.take(i).filter(pred)
        },
{
    reveal(Seq::filter);
    assert(s.take(i + 1).drop_last() =~= s.take(i));
}

/// Whether `specifier` names `record`.
pub fn names_record(specifier: &EnvSpecifier, record: &EnvRecord) -> (b: bool)
    ensures
        b == names(specifier@, record@),
{
    match specifier {
        EnvSpecifier::Uuid(uuid) => record.spec.uuid == *uuid,
        EnvSpecifier::Path(path) => record.spec.project_path == *path,
        EnvSpecifier::Name(name) => record.spec.project_name == *name,
    }
}

/// A registry held in a vector, oldest record first. It never fails.
pub struct MemoryStore {
    rows: Vec<EnvRecord>,
}

impl MemoryStore {
    /// A registry without records.
    pub fn new() -> (r: Self)
        ensures
            r.records() == Seq::<RecordView>::empty(),
    {
        let r = Self { rows: Vec::new() };
        assert(views(r.rows@) =~= Seq::<RecordView>::empty());
        r
    }

    /// The number of records held.
    pub fn len(&self) -> (n: usize)
        ensures
            n == self.records().len(),
    {
        self.rows.len()
    }

    fn collect(&self, specifier: &EnvSpecifier) -> (found: Vec<EnvRecord>)
        ensures
            views(found@) == selected(self.records(), specifier@),
    {
        let mut found: Vec<EnvRecord> = Vec::new();
        let mut i: usize = 0;
        proof {
            reveal(Seq::filter);
            assert(views(self.rows@).take(0) =~= Seq::<RecordView>::empty());
            assert(views(found@) =~= Seq::<RecordView>::empty());
        }
        while i < self.rows.len()
            invariant
                i <= self.rows.len(),
                views(found@) == selected(views(self.rows@).take(i as int), specifier@),
            decreases self.rows.len() - i,
        {
            proof {
                lemma_filter_take_next(
                    views(self.rows@),
                    i as int,
                    |r: RecordView| names(specifier@, r),
                );
            }
            if names_record(specifier, &self.rows[i]) {
                let ghost before = found@;
                found.push(self.rows[i].clone());
                assert(views(found@) =~= views(before).push(self.rows@[i as int]@));
            }
            i += 1;
        }
        assert(views(self.rows@).take(i as int) =~= views(self.rows@));
        found
    }

    fn discard(&mut self, specifier: &EnvSpecifier) -> (count: usize)
        ensures
            final(self).records() == remaining(old(self).records(), specifier@),
            count == selected(old(self).records(), specifier@).len(),
    {
        let mut kept: Vec<EnvRecord> = Vec::new();
        let mut count: usize = 0;
        let mut i: usize = 0;
        proof {
            reveal(Seq::filter);
            assert(views(self.rows@).take(0) =~= Seq::<RecordView>::empty());
            assert(views(kept@) =~= Seq::<RecordView>::empty());
        }
        while i < self.rows.len()
            invariant
                i <= self.rows.len(),
                self.rows == old(self).rows,
                views(kept@) == remaining(views(self.rows@).take(i as int), specifier@),
                count == selected(views(self.rows@).take(i as int), specifier@).len(),
                count <= i,
            decreases self.rows.len() - i,
        {
            proof {
                lemma_filter_take_next(
                    views(self.rows@),
                    i as int,
                    |r: RecordView| names(specifier@, r),
                );
                lemma_filter_take_next(
                    views(self.rows@),
                    i as int,
                    |r: RecordView| !names(specifier@, r),
                );
            }
            if names_record(specifier, &self.rows[i]) {
                count += 1;
            } else {
                let ghost before = kept@;
                kept.push(self.rows[i].clone());
                assert(views(kept@) =~= views(before).push(self.rows@[i as int]@));
            }
            i += 1;
        }
        assert(views(self.rows@).take(i as int) =~= views(self.rows@));
        self.rows = kept;
        count
    }
}

impl EnvStore for MemoryStore {
    open spec fn reliable(&self) -> bool {
        true
    }

    closed spec fn records(&self) -> Seq<RecordView> {
        views(self.rows@)
    }

    fn insert(&mut self, record: &EnvRecord) -> (r: Result<(), Error>) {
        let ghost before = self.rows@;
        self.rows.push(record.clone());
        assert(views(self.rows@) =~= views(before).push(record@));
        Ok(())
    }

    fn list(&mut self) -> (r: Result<Vec<EnvRecord>, Error>) {
        let mut all: Vec<EnvRecord> = Vec::new();
        let mut i: usize = 0;
        while i < self.rows.len()
            invariant
                i <= self.rows.len(),
                views(all@) =~= views(self.rows@).take(i as int),
            decreases self.rows.len() - i,
        {
            let ghost before = all@;
            all.push(self.rows[i].clone());
            assert(views(all@) =~= views(before).push(self.rows@[i as int]@));
            i += 1;
        }
        assert(views(self.rows@).take(i as int) =~= views(self.rows@));
        Ok(all)
    }

    fn find_by_path(&mut self, path: &str) -> (r: Result<Vec<EnvRecord>, Error>) {
        Ok(self.collect(&EnvSpecifier::Path(String::from_str(path))))
    }

    fn find_by_name(&mut self, name: String) -> (r: Result<Vec<EnvRecord>, Error>) {
        Ok(self.collect(&EnvSpecifier::Name(name)))
    }

    fn find_by_uuid(&mut self, uuid: u128) -> (r: Result<Vec<EnvRecord>, Error>) {
        Ok(self.collect(&EnvSpecifier::Uuid(uuid)))
    }

    fn remove_by_path(&mut self, path: &str) -> (r: Result<usize, Error>) {
        Ok(self.discard(&EnvSpecifier::Path(String::from_str(path))))
    }

    fn remove_by_name(&mut self, name: String) -> (r: Result<usize, Error>) {
        Ok(self.discard(&EnvSpecifier::Name(name)))
    }

    fn remove_by_uuid(&mut self, uuid: u128) -> (r: Result<usize, Error>) {
        Ok(self.discard(&EnvSpecifier::Uuid(uuid)))
    }
}

} // verus!
