//! What holds of the operations taken together, proved from their
//! definitions.

use vstd::prelude::*;
use crate::error::JobError;
use crate::record::JobsView;
use crate::repository::{has_id, lemma_place_of, place_of, removed, row_with, unique_ids};
use crate::sanitizer::{sanitized, sanitized_record, settled};
use crate::service::{
    create_answer, create_table, delete_count, find_answer, find_raw_answer, revised,
    update_answer, update_table,
};

verus! {

/// A record whose free text the transform leaves alone is its own sanitized
/// form: sanitizing it changes nothing, the identity fields and the absence
/// of a note included.
pub proof fn lemma_settled_record_unchanged(job: JobsView)
    requires
        settled(job),
    ensures
        sanitized_record(job) == Some(job),
{
}

/// Sanitizing twice gives what sanitizing once gives, for every record whose
/// sanitized text the transform leaves alone.
pub proof fn lemma_sanitize_twice(job: JobsView)
    requires
        sanitized_record(job) matches Some(clean) && settled(clean),
    ensures
        sanitized_record(sanitized_record(job)->0) == sanitized_record(job),
{
    lemma_settled_record_unchanged(sanitized_record(job)->0);
}

/// Sanitizing never looks at the identity of a record, and never changes it.
pub proof fn lemma_sanitize_keeps_identity(job: JobsView)
    requires
        sanitized_record(job) is Some,
    ensures
        sanitized_record(job)->0.id == job.id,
        sanitized_record(job)->0.created_at == job.created_at,
        (sanitized_record(job)->0.note is Some) == (job.note is Some),
{
}

/// Every step leaves a table of unique identifiers a table of unique
/// identifiers.
pub proof fn lemma_identifiers_stay_unique(
    rows: Seq<JobsView>,
    record: JobsView,
    id: Seq<char>,
    created_at: Seq<char>,
)
    requires
        unique_ids(rows),
    ensures
        unique_ids(create_table(rows, record, id, created_at)),
        unique_ids(update_table(rows, record)),
        unique_ids(removed(rows, id)),
{
    let shrunk = removed(rows, id);
    if has_id(rows, id) {
        let p = place_of(rows, id);
        assert forall|i: int, j: int| 0 <= i < j < shrunk.len() implies (
        #[trigger] shrunk[i]).id != (#[trigger] shrunk[j]).id by {
            // the rows that are left stand in the order in which they stood
            let a = if i < p { i } else { i + 1 };
            let b = if j < p { j } else { j + 1 };
            assert(shrunk[i] == rows[a] && shrunk[j] == rows[b]);
        }
    }
}

/// A record that was created is found again under its identifier, equal to
/// what the creation answered.
pub proof fn lemma_create_then_find(
    rows: Seq<JobsView>,
    record: JobsView,
    id: Seq<char>,
    created_at: Seq<char>,
)
    requires
        unique_ids(rows),
        create_answer(rows, record, id, created_at) is Ok,
    ensures
        find_answer(create_table(rows, record, id, created_at), id) == create_answer(
            rows,
            record,
            id,
            created_at,
        ),
{
    let grown = create_table(rows, record, id, created_at);
    lemma_identifiers_stay_unique(rows, record, id, created_at);
    // the new row is the last one
    lemma_place_of(grown, id, rows.len() as int);
}

/// The same for an identifier that is sanitized before it is looked up, as
/// [`crate::record::Jobs::find`] does, where the transform leaves the
/// identifier as it is.
pub proof fn lemma_create_then_find_raw(
    rows: Seq<JobsView>,
    record: JobsView,
    id: Seq<char>,
    created_at: Seq<char>,
)
    requires
        unique_ids(rows),
        create_answer(rows, record, id, created_at) is Ok,
        sanitized(id) == Some(id),
    ensures
        find_raw_answer(create_table(rows, record, id, created_at), id) == create_answer(
            rows,
            record,
            id,
            created_at,
        ),
{
    lemma_create_then_find(rows, record, id, created_at);
}

/// The identity that a candidate comes with has no part in what is created:
/// two candidates of the same content give the same record.
pub proof fn lemma_create_ignores_identity(
    rows: Seq<JobsView>,
    one: JobsView,
    other: JobsView,
    id: Seq<char>,
    created_at: Seq<char>,
)
    requires
        one.same_content(other),
    ensures
        sanitized_record(one) is Some <==> sanitized_record(other) is Some,
        sanitized_record(one) is Some ==> create_answer(
            rows,
            sanitized_record(one)->0,
            id,
            created_at,
        ) == create_answer(rows, sanitized_record(other)->0, id, created_at) && create_table(
            rows,
            sanitized_record(one)->0,
            id,
            created_at,
        ) == create_table(rows, sanitized_record(other)->0, id, created_at),
        create_answer(rows, one, id, created_at) matches Ok(stored) ==> stored.id == id
            && stored.created_at == created_at,
{
}

/// Of two creations under one identifier the second is refused as a
/// conflict and changes nothing, and the table holds that identifier in
/// exactly one row.
pub proof fn lemma_second_create_conflicts(
    rows: Seq<JobsView>,
    first: JobsView,
    second: JobsView,
    id: Seq<char>,
    first_at: Seq<char>,
    second_at: Seq<char>,
)
    requires
        unique_ids(rows),
    ensures
        ({
            let once = create_table(rows, first, id, first_at);
            &&& create_answer(once, second, id, second_at) == Err::<JobsView, JobError>(
                JobError::Conflict,
            )
            &&& create_table(once, second, id, second_at) == once
            &&& has_id(once, id)
            &&& forall|i: int, j: int|
                0 <= i < once.len() && 0 <= j < once.len() && (#[trigger] once[i]).id == id && (
                #[trigger] once[j]).id == id ==> i == j
        }),
{
    let once = create_table(rows, first, id, first_at);
    lemma_identifiers_stay_unique(rows, first, id, first_at);
    if !has_id(rows, id) {
        assert(once[rows.len() as int].id == id);
    }
}

/// Deleting an identifier that no row carries removes nothing.
pub proof fn lemma_delete_absent(rows: Seq<JobsView>, id: Seq<char>)
    requires
        !has_id(rows, id),
    ensures
        delete_count(rows, id) == 0,
        removed(rows, id) == rows,
{
}

/// Deleting an identifier that a row carries removes that one row and leaves
/// every other row; the identifier is not found afterwards.
pub proof fn lemma_delete_present(rows: Seq<JobsView>, id: Seq<char>)
    requires
        unique_ids(rows),
        has_id(rows, id),
    ensures
        delete_count(rows, id) == 1,
        removed(rows, id).len() == rows.len() - 1,
        !has_id(removed(rows, id), id),
        find_answer(removed(rows, id), id) == Err::<JobsView, JobError>(JobError::NotFound),
        forall|other: Seq<char>| other != id ==> #[trigger] row_with(removed(rows, id), other)
            == row_with(rows, other),
{
    let p = place_of(rows, id);
    let shrunk = removed(rows, id);
    lemma_identifiers_stay_unique(rows, rows[p], id, id);
    assert forall|i: int| 0 <= i < shrunk.len() implies (#[trigger] shrunk[i]).id != id by {
        let a = if i < p { i } else { i + 1 };
        assert(shrunk[i] == rows[a] && a != p);
    }
    assert forall|other: Seq<char>| other != id implies #[trigger] row_with(shrunk, other)
        == row_with(rows, other) by {
        if has_id(rows, other) {
            let q = place_of(rows, other);
            let b = if q < p { q } else { q - 1 };
            assert(shrunk[b] == rows[q]);
            lemma_place_of(shrunk, other, b);
        } else if has_id(shrunk, other) {
            let b = place_of(shrunk, other);
            let q = if b < p { b } else { b + 1 };
            assert(rows[q].id == other);
        }
    }
}

/// An update that targets an identifier that no row carries is refused and
/// leaves the table unchanged.
pub proof fn lemma_update_absent(rows: Seq<JobsView>, record: JobsView)
    requires
        !has_id(rows, record.id),
    ensures
        update_answer(rows, record) == Err::<JobsView, JobError>(JobError::NotFound),
        update_table(rows, record) == rows,
{
}

/// An update keeps the identity of the row that it changes and the number of
/// rows, takes the content from the record, leaves every other row, and is
/// what a later look under the identifier finds.
pub proof fn lemma_update_present(rows: Seq<JobsView>, record: JobsView)
    requires
        unique_ids(rows),
        has_id(rows, record.id),
    ensures
        update_answer(rows, record) == Ok::<JobsView, JobError>(revised(rows, record)),
        revised(rows, record).id == record.id,
        revised(rows, record).created_at == row_with(rows, record.id)->0.created_at,
        revised(rows, record).same_content(record),
        update_table(rows, record).len() == rows.len(),
        find_answer(update_table(rows, record), record.id) == update_answer(rows, record),
        forall|other: Seq<char>|
            other != record.id ==> #[trigger] row_with(update_table(rows, record), other)
                == row_with(rows, other),
{
    let p = place_of(rows, record.id);
    let changed = update_table(rows, record);
    lemma_identifiers_stay_unique(rows, record, record.id, record.id);
    assert(changed == rows.update(p, revised(rows, record)));
    lemma_place_of(changed, record.id, p);
    assert forall|other: Seq<char>| other != record.id implies #[trigger] row_with(
        changed,
        other,
    ) == row_with(rows, other) by {
        if has_id(rows, other) {
            let q = place_of(rows, other);
            assert(changed[q] == rows[q]);
            lemma_place_of(changed, other, q);
        } else if has_id(changed, other) {
            let q = place_of(changed, other);
            assert(rows[q].id == other);
        }
    }
}

} // verus!
