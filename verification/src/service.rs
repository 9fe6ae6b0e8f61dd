//! The operations on job records: create, find, update, delete.
//!
//! Each operation is one step on a [`Repository`]: it sanitizes what it was
//! given, and then reads or changes the table. What each step does to the
//! table and what it answers is written down once, as a function of the
//! table before the step, and the contracts refer to that.

use vstd::prelude::*;
use crate::clock::{clock_text, now};
use crate::error::JobError;
use crate::identifier::{allocate, random_uuid_text};
use crate::record::{Jobs, JobsView};
use crate::repository::{has_id, removed, replaced, row_with, unique_ids, Repository};
use crate::sanitizer::{sanitize_text, sanitized, sanitized_record};

verus! {

/// The answer of an operation that hands a record back, over views.
pub open spec fn answer(outcome: Result<Jobs, JobError>) -> Result<JobsView, JobError> {
    match outcome {
        Ok(job) => Ok(job@),
        Err(e) => Err(e),
    }
}

/// What creating `record` under the identity `id`, `created_at` answers: the
/// record under that identity, whatever identity it came with; a conflict
/// where `id` is taken.
pub open spec fn create_answer(
    rows: Seq<JobsView>,
    record: JobsView,
    id: Seq<char>,
    created_at: Seq<char>,
) -> Result<JobsView, JobError> {
    if has_id(rows, id) {
        Err(JobError::Conflict)
    } else {
        Ok(record.with_identity(id, created_at))
    }
}

/// The table after creating `record` under the identity `id`, `created_at`:
/// one row longer, or unchanged where `id` is taken.
pub open spec fn create_table(
    rows: Seq<JobsView>,
    record: JobsView,
    id: Seq<char>,
    created_at: Seq<char>,
) -> Seq<JobsView> {
    if has_id(rows, id) {
        rows
    } else {
        rows.push(record.with_identity(id, created_at))
    }
}

/// What looking for `id` answers.
pub open spec fn find_answer(rows: Seq<JobsView>, id: Seq<char>) -> Result<JobsView, JobError> {
    match row_with(rows, id) {
        Some(row) => Ok(row),
        None => Err(JobError::NotFound),
    }
}

/// What looking for `id` answers where `id` is sanitized first.
pub open spec fn find_raw_answer(rows: Seq<JobsView>, id: Seq<char>) -> Result<
    JobsView,
    JobError,
> {
    match sanitized(id) {
        Some(clean) => find_answer(rows, clean),
        None => Err(JobError::Sanitization),
    }
}

/// The row that an update with `record` leaves: the content of `record`,
/// under the identity of the row that it replaces.
pub open spec fn revised(rows: Seq<JobsView>, record: JobsView) -> JobsView {
    record.with_identity(record.id, row_with(rows, record.id)->0.created_at)
}

/// What an update with `record` answers.
pub open spec fn update_answer(rows: Seq<JobsView>, record: JobsView) -> Result<
    JobsView,
    JobError,
> {
    if has_id(rows, record.id) {
        Ok(revised(rows, record))
    } else {
        Err(JobError::NotFound)
    }
}

/// The table after an update with `record`: unchanged where no row carries
/// the identifier of `record`.
pub open spec fn update_table(rows: Seq<JobsView>, record: JobsView) -> Seq<JobsView> {
    if has_id(rows, record.id) {
        replaced(rows, revised(rows, record))
    } else {
        rows
    }
}

/// The number of rows that deleting `id` removes.
pub open spec fn delete_count(rows: Seq<JobsView>, id: Seq<char>) -> int {
    if has_id(rows, id) {
        1
    } else {
        0
    }
}

impl Jobs {
    /// Creates `record` under the identity given: `id` and `created_at` take
    /// the place of whatever the record came with. If a row already carries
    /// `id` the record is not stored.
    pub fn create_with(
        store: &mut Repository,
        record: Jobs,
        id: String,
        created_at: String,
    ) -> (outcome: Result<Jobs, JobError>)
        ensures
            unique_ids(final(store)@),
            answer(outcome) == create_answer(old(store)@, record@, id@, created_at@),
            final(store)@ == create_table(old(store)@, record@, id@, created_at@),
    {
        if store.contains_id(id.as_str()) {
            return Err(JobError::Conflict);
        }
        let fresh = Jobs {
            id,
            status: record.status,
            title: record.title,
            company: record.company,
            url: record.url,
            location: record.location,
            note: record.note,
            created_at,
        };
        store.insert(fresh)
    }

    /// Creates a record from `job`: sanitizes its free text, gives it a fresh
    /// random identifier and the current time, makes sure that no row carries
    /// that identifier, and stores it. The `id` and `created_at` that `job`
    /// came with are ignored.
    ///
    /// The identifier and the time are not known beforehand. Whatever they
    /// are: a stored record is the sanitized form of `job` under them, and the
    /// table is longer by that record; after a failure the table is as it was.
    /// The creation succeeds if the text can be sanitized and no row of the
    /// table carries a random UUID.
    pub fn create(store: &mut Repository, job: Jobs) -> (outcome: Result<Jobs, JobError>)
        ensures
            unique_ids(final(store)@),
            match outcome {
                Ok(stored) => {
                    &&& sanitized_record(job@) matches Some(clean)
                    &&& stored@ == clean.with_identity(stored@.id, stored@.created_at)
                    &&& random_uuid_text(stored@.id)
                    &&& clock_text(stored@.created_at)
                    &&& !has_id(old(store)@, stored@.id)
                    &&& final(store)@ == old(store)@.push(stored@)
                },
                Err(e) => {
                    &&& final(store)@ == old(store)@
                    &&& e == JobError::Sanitization || e == JobError::Conflict
                    &&& e == JobError::Sanitization <==> sanitized_record(job@) is None
                    &&& e == JobError::Conflict ==> exists|id: Seq<char>| #[trigger]
                        random_uuid_text(id) && has_id(old(store)@, id)
                },
            },
            sanitized_record(job@) is Some && (forall|id: Seq<char>| #[trigger]
                has_id(old(store)@, id) ==> !random_uuid_text(id)) ==> outcome is Ok,
    {
        let clean = match Jobs::sanitize_inputs(job) {
            Ok(clean) => clean,
            Err(e) => {
                proof {
                    use_type_invariant(&*store);
                }
                return Err(e);
            },
        };
        let id = allocate();
        let created_at = now();
        Jobs::create_with(store, clean, id, created_at)
    }

    /// Looks for the record whose identifier is `id`, once `id` itself has
    /// been sanitized.
    pub fn find(store: &Repository, id: String) -> (outcome: Result<Jobs, JobError>)
        ensures
            answer(outcome) == find_raw_answer(store@, id@),
    {
        match sanitize_text(id.as_str()) {
            Some(clean) => store.find_by_id(clean.as_str()),
            None => Err(JobError::Sanitization),
        }
    }

    /// Replaces the content of the row that carries the identifier of
    /// `record` by the content of `record`. The identity of the row stays:
    /// the `created_at` that `record` came with is ignored.
    pub fn update_stored(store: &mut Repository, record: Jobs) -> (outcome: Result<
        Jobs,
        JobError,
    >)
        ensures
            unique_ids(final(store)@),
            answer(outcome) == update_answer(old(store)@, record@),
            final(store)@ == update_table(old(store)@, record@),
    {
        match store.find_by_id(record.id.as_str()) {
            Ok(current) => {
                let revision = Jobs {
                    id: record.id,
                    status: record.status,
                    title: record.title,
                    company: record.company,
                    url: record.url,
                    location: record.location,
                    note: record.note,
                    created_at: current.created_at,
                };
                store.update(revision)
            },
            Err(_) => Err(JobError::NotFound),
        }
    }

    /// Updates the record whose identifier is that of `job`: sanitizes the
    /// free text of `job` and puts it in the place of what the row held. The
    /// identifier is taken as it is given.
    pub fn update(store: &mut Repository, job: Jobs) -> (outcome: Result<Jobs, JobError>)
        ensures
            unique_ids(final(store)@),
            match sanitized_record(job@) {
                Some(clean) => answer(outcome) == update_answer(old(store)@, clean)
                    && final(store)@ == update_table(old(store)@, clean),
                None => outcome == Err::<Jobs, JobError>(JobError::Sanitization) && final(store)@
                    == old(store)@,
            },
    {
        match Jobs::sanitize_inputs(job) {
            Ok(clean) => Jobs::update_stored(store, clean),
            Err(e) => {
                proof {
                    use_type_invariant(&*store);
                }
                Err(e)
            },
        }
    }

    /// Deletes the record whose identifier is `id`, once `id` itself has been
    /// sanitized, and says how many rows went. That no row carries the
    /// identifier is no error: the count is zero then.
    pub fn delete(store: &mut Repository, id: String) -> (outcome: Result<usize, JobError>)
        ensures
            unique_ids(final(store)@),
            match sanitized(id@) {
                Some(clean) => outcome matches Ok(count) && count == delete_count(
                    old(store)@,
                    clean,
                ) && final(store)@ == removed(old(store)@, clean),
                None => outcome == Err::<usize, JobError>(JobError::Sanitization) && final(store)@
                    == old(store)@,
            },
    {
        match sanitize_text(id.as_str()) {
            Some(clean) => Ok(store.delete_by_id(clean.as_str())),
            None => {
                proof {
                    use_type_invariant(&*store);
                }
                Err(JobError::Sanitization)
            },
        }
    }
}

} // verus!
