//! The job-application record and its mathematical view.

use vstd::prelude::*;

verus! {

/// One job application, as it is received, kept and handed back.
///
/// `id` and `created_at` are the identity of a record: the system assigns both
/// when the record is created. The other fields are free text; `note` may be
/// absent, which is not the same as an empty note.
#[derive(Debug, PartialEq, Eq)]
pub struct Jobs {
    pub id: String,
    pub status: String,
    pub title: String,
    pub company: String,
    pub url: String,
    pub location: String,
    pub note: Option<String>,
    pub created_at: String,
}

/// A record as a value of sequences of characters: what contracts speak of.
pub struct JobsView {
    pub id: Seq<char>,
    pub status: Seq<char>,
    pub title: Seq<char>,
    pub company: Seq<char>,
    pub url: Seq<char>,
    pub location: Seq<char>,
    pub note: Option<Seq<char>>,
    pub created_at: Seq<char>,
}

impl View for Jobs {
    type V = JobsView;

    open spec fn view(&self) -> JobsView {
        JobsView {
            id: self.id@,
            status: self.status@,
            title: self.title@,
            company: self.company@,
            url: self.url@,
            location: self.location@,
            note: match self.note {
                Some(text) => Some(text@),
                None => None,
            },
            created_at: self.created_at@,
        }
    }
}

impl JobsView {
    /// This record under another identity: `id` and `created_at` replaced,
    /// every other field kept.
    pub open spec fn with_identity(self, id: Seq<char>, created_at: Seq<char>) -> JobsView {
        JobsView { id, created_at, ..self }
    }

    /// Whether two records agree in everything but `id` and `created_at`.
    pub open spec fn same_content(self, other: JobsView) -> bool {
        &&& self.status == other.status
        &&& self.title == other.title
        &&& self.company == other.company
        &&& self.url == other.url
        &&& self.location == other.location
        &&& self.note == other.note
    }
}

/// The views of a sequence of records, in the same order.
pub open spec fn views(records: Seq<Jobs>) -> Seq<JobsView> {
    records.map_values(|record: Jobs| record@)
}

impl Clone for Jobs {
    /// A copy that holds the same text in every field.
    fn clone(&self) -> (copy: Jobs)
        ensures
            copy@ == self@,
    {
        Jobs {
            id: self.id.clone(),
            status: self.status.clone(),
            title: self.title.clone(),
            company: self.company.clone(),
            url: self.url.clone(),
            location: self.location.clone(),
            note: match &self.note {
                Some(text) => Some(text.clone()),
                None => None,
            },
            created_at: self.created_at.clone(),
        }
    }
}

} // verus!
