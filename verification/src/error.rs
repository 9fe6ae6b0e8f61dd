//! The typed outcomes of a failed operation.

use vstd::prelude::*;

verus! {

/// Why an operation on job records did not succeed. Every kind is recoverable:
/// the caller decides what to show for it.
#[derive(Clone, Copy, Debug, PartialEq, Eq, Structural)]
pub enum JobError {
    /// The markup transform could not process a free-text field.
    Sanitization,
    /// The identifier of a record to be created is already in the table.
    Conflict,
    /// No record carries the identifier that the operation targets.
    NotFound,
    /// The table itself failed or holds rows it must not hold.
    Store,
}

impl JobError {
    /// The status code of an HTTP response that reports this error.
    pub open spec fn status(self) -> int {
        match self {
            JobError::Sanitization => 400,
            JobError::Conflict => 409,
            JobError::NotFound => 404,
            JobError::Store => 500,
        }
    }

    /// The wording of this error, in place of a `Display` impl.
    pub open spec fn wording(self) -> Seq<char> {
        match self {
            JobError::Sanitization => "Error while sanitizing job input"@,
            JobError::Conflict => "Job id conflict found"@,
            JobError::NotFound => "Job not found"@,
            JobError::Store => "Job store failure"@,
        }
    }

    /// Computes [`JobError::status`].
    pub fn status_code(&self) -> (code: u16)
        ensures
            code == self.status(),
    {
        match self {
            JobError::Sanitization => 400,
            JobError::Conflict => 409,
            JobError::NotFound => 404,
            JobError::Store => 500,
        }
    }

    /// Computes [`JobError::wording`].
    pub fn message(&self) -> (text: String)
        ensures
            text@ == self.wording(),
    {
        match self {
            JobError::Sanitization => "Error while sanitizing job input".to_owned(),
            JobError::Conflict => "Job id conflict found".to_owned(),
            JobError::NotFound => "Job not found".to_owned(),
            JobError::Store => "Job store failure".to_owned(),
        }
    }
}

} // verus!
