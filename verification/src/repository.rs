//! The table of job records, keyed by identifier.
//!
//! A [`Repository`] holds the rows of the table as plain values. Its view is
//! the sequence of the rows in the order in which they were inserted, and no
//! two rows of it share an identifier.

use vstd::prelude::*;
use crate::error::JobError;
use crate::record::{views, Jobs, JobsView};

verus! {

/// Whether some row carries the identifier `id`.
pub open spec fn has_id(rows: Seq<JobsView>, id: Seq<char>) -> bool {
    exists|i: int| 0 <= i < rows.len() && (#[trigger] rows[i]).id == id
}

/// Whether no two rows share an identifier.
pub open spec fn unique_ids(rows: Seq<JobsView>) -> bool {
    forall|i: int, j: int|
        0 <= i < j < rows.len() ==> (#[trigger] rows[i]).id != (#[trigger] rows[j]).id
}

/// The place of a row that carries `id`. Where the identifiers are unique
/// there is one such place at most; where there is none the value is
/// arbitrary.
pub open spec fn place_of(rows: Seq<JobsView>, id: Seq<char>) -> int {
    choose|i: int| 0 <= i < rows.len() && (#[trigger] rows[i]).id == id
}

/// The row that carries `id`, if there is one.
pub open spec fn row_with(rows: Seq<JobsView>, id: Seq<char>) -> Option<JobsView> {
    if has_id(rows, id) {
        Some(rows[place_of(rows, id)])
    } else {
        None
    }
}

/// The table after the row that carries the identifier of `record` has been
/// replaced by `record`; the table itself where there is no such row.
pub open spec fn replaced(rows: Seq<JobsView>, record: JobsView) -> Seq<JobsView> {
    if has_id(rows, record.id) {
        rows.update(place_of(rows, record.id), record)
    } else {
        rows
    }
}

/// The table without the row that carries `id`; the table itself where there
/// is no such row.
pub open spec fn removed(rows: Seq<JobsView>, id: Seq<char>) -> Seq<JobsView> {
    if has_id(rows, id) {
        rows.remove(place_of(rows, id))
    } else {
        rows
    }
}

/// In a table of unique identifiers, a row that carries `id` stands at
/// `place_of(rows, id)`.
pub proof fn lemma_place_of(rows: Seq<JobsView>, id: Seq<char>, i: int)
    requires
        unique_ids(rows),
        0 <= i < rows.len(),
        rows[i].id == id,
    ensures
        has_id(rows, id),
        place_of(rows, id) == i,
        row_with(rows, id) == Some(rows[i]),
{
    let p = place_of(rows, id);
    assert(0 <= p < rows.len() && rows[p].id == id);
    if p < i {
        assert(rows[p].id != rows[i].id);
    } else if i < p {
        assert(rows[i].id != rows[p].id);
    }
}

/// The table of job records.
#[derive(Debug)]
pub struct Repository {
    rows: Vec<Jobs>,
}

impl View for Repository {
    type V = Seq<JobsView>;

    closed spec fn view(&self) -> Seq<JobsView> {
        views(self.rows@)
    }
}

impl Repository {
    /// What holds of every table at all times: no two rows share an
    /// identifier.
    #[verifier::type_invariant]
    pub open spec fn keys_are_unique(&self) -> bool {
        unique_ids(self@)
    }

    /// An empty table.
    pub fn new() -> (table: Repository)
        ensures
            table@ == Seq::<JobsView>::empty(),
    {
        let rows: Vec<Jobs> = Vec::new();
        assert(views(rows@) =~= Seq::<JobsView>::empty());
        Repository { rows }
    }

    /// The number of rows.
    pub fn len(&self) -> (count: usize)
        ensures
            count == self@.len(),
    {
        self.rows.len()
    }

    /// The place of the row that carries `id`, if there is one.
    fn position(&self, id: &str) -> (place: Option<usize>)
        ensures
            unique_ids(self@),
            match place {
                Some(i) => i < self@.len() && self@[i as int].id == id@ && has_id(self@, id@)
                    && place_of(self@, id@) == i,
                None => !has_id(self@, id@),
            },
    {
        proof {
            use_type_invariant(self);
        }
        let key = id.to_owned();
        let mut i: usize = 0;
        while i < self.rows.len()
            invariant
                i <= self.rows.len(),
                key@ == id@,
                self@ == views(self.rows@),
                unique_ids(self@),
                forall|j: int| 0 <= j < i ==> (#[trigger] self@[j]).id != id@,
            decreases self.rows.len() - i,
        {
            if self.rows[i].id == key {
                proof {
                    lemma_place_of(self@, id@, i as int);
                }
                return Some(i);
            }
            i += 1;
        }
        None
    }

    /// Whether a row carries `id`: the check that guards an insertion.
    pub fn contains_id(&self, id: &str) -> (found: bool)
        ensures
            unique_ids(self@),
            found == has_id(self@, id@),
    {
        self.position(id).is_some()
    }

    /// Adds `record` as the last row and hands a copy of it back. A record
    /// whose identifier is already in the table violates the key constraint:
    /// it is refused, and the table stays as it is.
    pub fn insert(&mut self, record: Jobs) -> (outcome: Result<Jobs, JobError>)
        ensures
            unique_ids(final(self)@),
            has_id(old(self)@, record@.id) ==> outcome == Err::<Jobs, JobError>(JobError::Store)
                && final(self)@ == old(self)@,
            !has_id(old(self)@, record@.id) ==> (outcome matches Ok(stored) && stored@ == record@)
                && final(self)@ == old(self)@.push(record@),
    {
        if self.position(record.id.as_str()).is_some() {
            return Err(JobError::Store);
        }
        let stored = record.clone();
        let mut rows: Vec<Jobs> = Vec::new();
        core::mem::swap(&mut rows, &mut self.rows);
        rows.push(record);
        proof {
            assert(views(rows@) =~= old(self)@.push(record@));
        }
        self.rows = rows;
        Ok(stored)
    }

    /// A copy of the row that carries `id`.
    pub fn find_by_id(&self, id: &str) -> (outcome: Result<Jobs, JobError>)
        ensures
            unique_ids(self@),
            match row_with(self@, id@) {
                Some(row) => outcome matches Ok(job) && job@ == row,
                None => outcome == Err::<Jobs, JobError>(JobError::NotFound),
            },
    {
        match self.position(id) {
            Some(i) => Ok(self.rows[i].clone()),
            None => Err(JobError::NotFound),
        }
    }

    /// Copies of all rows, in the order of the table.
    pub fn list_all(&self) -> (all: Vec<Jobs>)
        ensures
            unique_ids(self@),
            views(all@) == self@,
    {
        proof {
            use_type_invariant(self);
        }
        let mut all: Vec<Jobs> = Vec::new();
        let mut i: usize = 0;
        while i < self.rows.len()
            invariant
                i <= self.rows.len(),
                all@.len() == i,
                forall|j: int| 0 <= j < i ==> (#[trigger] all@[j])@ == self.rows@[j]@,
            decreases self.rows.len() - i,
        {
            all.push(self.rows[i].clone());
            i += 1;
        }
        assert(views(all@) =~= views(self.rows@));
        all
    }

    /// Puts `record` in the place of the row that carries its identifier:
    /// every other field of that row is replaced. Hands a copy of the new row
    /// back. Without such a row the table stays as it is.
    pub fn update(&mut self, record: Jobs) -> (outcome: Result<Jobs, JobError>)
        ensures
            unique_ids(final(self)@),
            final(self)@ == replaced(old(self)@, record@),
            has_id(old(self)@, record@.id) ==> (outcome matches Ok(stored) && stored@ == record@),
            !has_id(old(self)@, record@.id) ==> outcome == Err::<Jobs, JobError>(
                JobError::NotFound,
            ),
    {
        match self.position(record.id.as_str()) {
            Some(i) => {
                let stored = record.clone();
                let mut rows: Vec<Jobs> = Vec::new();
                core::mem::swap(&mut rows, &mut self.rows);
                rows.set(i, record);
                proof {
                    assert(views(rows@) =~= old(self)@.update(i as int, record@));
                }
                self.rows = rows;
                Ok(stored)
            },
            None => Err(JobError::NotFound),
        }
    }

    /// Removes the row that carries `id` and says how many rows went: one, or
    /// none where no row carries it. Since identifiers are unique it is never
    /// more than one.
    pub fn delete_by_id(&mut self, id: &str) -> (count: usize)
        ensures
            unique_ids(final(self)@),
            final(self)@ == removed(old(self)@, id@),
            count == if has_id(old(self)@, id@) { 1usize } else { 0usize },
    {
        match self.position(id) {
            Some(i) => {
                let mut rows: Vec<Jobs> = Vec::new();
                core::mem::swap(&mut rows, &mut self.rows);
                rows.remove(i);
                proof {
                    assert(views(rows@) =~= old(self)@.remove(i as int));
                }
                self.rows = rows;
                1
            },
            None => 0,
        }
    }

    /// The table that holds `rows`, in their order. Rows of which two share an
    /// identifier are no table: they are refused.
    pub fn from_rows(rows: Vec<Jobs>) -> (outcome: Result<Repository, JobError>)
        ensures
            match outcome {
                Ok(table) => unique_ids(views(rows@)) && table@ == views(rows@),
                Err(e) => e == JobError::Store && !unique_ids(views(rows@)),
            },
    {
        let ghost all = views(rows@);
        let mut j: usize = 0;
        while j < rows.len()
            invariant
                j <= rows.len(),
                all == views(rows@),
                forall|a: int, b: int|
                    0 <= a < b < j ==> (#[trigger] all[a]).id != (#[trigger] all[b]).id,
            decreases rows.len() - j,
        {
            let mut i: usize = 0;
            while i < j
                invariant
                    i <= j,
                    j < rows.len(),
                    all == views(rows@),
                    forall|a: int| 0 <= a < i ==> (#[trigger] all[a]).id != all[j as int].id,
                decreases j - i,
            {
                if rows[i].id == rows[j].id {
                    assert(all[i as int].id == all[j as int].id);
                    return Err(JobError::Store);
                }
                i += 1;
            }
            j += 1;
        }
        Ok(Repository { rows })
    }
}

} // verus!
