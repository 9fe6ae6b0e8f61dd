//! Stripping unsafe markup from the free text of a record.
//!
//! The transform itself is the work of the `sanitize_html` crate. Nothing is
//! proved of it here: its result has a name, [`sanitized`], and every contract
//! in this module is stated over that name.

use vstd::prelude::*;
use crate::error::JobError;
use crate::record::{Jobs, JobsView};

verus! {

/// The error type of `sanitize_html`, carried through but never looked into.
#[verifier::external_type_specification]
#[verifier::external_body]
pub struct ExSanitizeError(sanitize_html::errors::SanitizeError);

/// What `sanitize_html::sanitize_str` makes of `text` under the crate's
/// `DEFAULT` rules: `Some` of the text that is left, or `None` where the crate
/// reports an error.
pub uninterp spec fn sanitized(text: Seq<char>) -> Option<Seq<char>>;

/// The characters of an optional text.
pub open spec fn text_of(text: Option<String>) -> Option<Seq<char>> {
    match text {
        Some(text) => Some(text@),
        None => None,
    }
}

/// Calls `sanitize_html::sanitize_str` with the rules
/// `sanitize_html::rules::predefined::DEFAULT`.
///
/// Trusted: the result is a function of the text alone, so it is [`sanitized`]
/// of that text, with the crate's error standing for `None`. The crate parses
/// the text as a document, keeps the text nodes, puts a space around the
/// block-level elements that the rules name, drops `script`, `style` and the
/// like with all they hold, and writes the rest out again; none of that is
/// stated here.
#[verifier::external_body]
fn strip_markup(text: &str) -> (outcome: Result<String, sanitize_html::errors::SanitizeError>)
    ensures
        match outcome {
            Ok(clean) => sanitized(text@) == Some(clean@),
            Err(_) => sanitized(text@) is None,
        },
{
    sanitize_html::sanitize_str(&sanitize_html::rules::predefined::DEFAULT, text)
}

/// Strips unsafe markup from one text. `None` means that the transform could
/// not process it.
pub fn sanitize_text(text: &str) -> (outcome: Option<String>)
    ensures
        text_of(outcome) == sanitized(text@),
{
    match strip_markup(text) {
        Ok(clean) => Some(clean),
        Err(_) => None,
    }
}

/// The record that is left of `job` once each free-text field has been through
/// the transform, given what the transform returned for each of them (`None`:
/// it failed on that field). One failure spoils the whole record. `id` and
/// `created_at` stay as they are, and a record without a note stays without:
/// `note` counts only where `job` has one.
pub open spec fn reassembled(
    job: JobsView,
    status: Option<Seq<char>>,
    title: Option<Seq<char>>,
    company: Option<Seq<char>>,
    url: Option<Seq<char>>,
    location: Option<Seq<char>>,
    note: Option<Seq<char>>,
) -> Option<JobsView> {
    if status is None || title is None || company is None || url is None || location is None
        || (job.note is Some && note is None) {
        None
    } else {
        Some(
            JobsView {
                id: job.id,
                status: status->0,
                title: title->0,
                company: company->0,
                url: url->0,
                location: location->0,
                note: if job.note is Some {
                    note
                } else {
                    None
                },
                created_at: job.created_at,
            },
        )
    }
}

/// What the transform returns for the note of `job`; `None` also where there
/// is no note to transform.
pub open spec fn sanitized_note(job: JobsView) -> Option<Seq<char>> {
    match job.note {
        Some(text) => sanitized(text),
        None => None,
    }
}

/// The sanitized form of a record, or `None` where the transform fails on one
/// of its free-text fields.
pub open spec fn sanitized_record(job: JobsView) -> Option<JobsView> {
    reassembled(
        job,
        sanitized(job.status),
        sanitized(job.title),
        sanitized(job.company),
        sanitized(job.url),
        sanitized(job.location),
        sanitized_note(job),
    )
}

/// Whether the transform leaves every free-text field of `job` as it is.
pub open spec fn settled(job: JobsView) -> bool {
    &&& sanitized(job.status) == Some(job.status)
    &&& sanitized(job.title) == Some(job.title)
    &&& sanitized(job.company) == Some(job.company)
    &&& sanitized(job.url) == Some(job.url)
    &&& sanitized(job.location) == Some(job.location)
    &&& job.note matches Some(text) ==> sanitized(text) == Some(text)
}

impl Jobs {
    /// Puts the transformed texts in the place of the free-text fields of
    /// `self`. Each argument is what the transform returned for the field of
    /// that name, `None` where it failed; the whole record is rejected if it
    /// failed on any field that the record has.
    pub fn with_clean_text(
        self,
        status: Option<String>,
        title: Option<String>,
        company: Option<String>,
        url: Option<String>,
        location: Option<String>,
        note: Option<String>,
    ) -> (outcome: Result<Jobs, JobError>)
        ensures
            match reassembled(
                self@,
                text_of(status),
                text_of(title),
                text_of(company),
                text_of(url),
                text_of(location),
                text_of(note),
            ) {
                Some(clean) => outcome matches Ok(job) && job@ == clean,
                None => outcome == Err::<Jobs, JobError>(JobError::Sanitization),
            },
    {
        let note = match self.note {
            Some(_) => match note {
                Some(text) => Some(text),
                None => {
                    return Err(JobError::Sanitization);
                },
            },
            None => None,
        };
        match (status, title, company, url, location) {
            (Some(status), Some(title), Some(company), Some(url), Some(location)) => Ok(
                Jobs {
                    id: self.id,
                    status,
                    title,
                    company,
                    url,
                    location,
                    note,
                    created_at: self.created_at,
                },
            ),
            _ => Err(JobError::Sanitization),
        }
    }

    /// Strips unsafe markup from every free-text field of `job`: `status`,
    /// `title`, `company`, `url`, `location`, and `note` where there is one.
    /// `id` and `created_at` are not touched. If the transform fails on a
    /// field, nothing of the record is handed back.
    pub fn sanitize_inputs(job: Jobs) -> (outcome: Result<Jobs, JobError>)
        ensures
            match sanitized_record(job@) {
                Some(clean) => outcome matches Ok(sanitized_job) && sanitized_job@ == clean,
                None => outcome == Err::<Jobs, JobError>(JobError::Sanitization),
            },
    {
        let status = sanitize_text(job.status.as_str());
        let title = sanitize_text(job.title.as_str());
        let company = sanitize_text(job.company.as_str());
        let url = sanitize_text(job.url.as_str());
        let location = sanitize_text(job.location.as_str());
        let note = match &job.note {
            Some(text) => sanitize_text(text.as_str()),
            None => None,
        };
        job.with_clean_text(status, title, company, url, location, note)
    }
}

} // verus!
