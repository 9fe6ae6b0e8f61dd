//! Record keeping for job applications: the checks and rules that stand
//! between an inbound record and the table it is kept in.
//!
//! - [`record`]: the record, [`record::Jobs`], and its view.
//! - [`sanitizer`]: stripping unsafe markup from the free text of a record.
//! - [`identifier`]: random UUIDs as identifiers.
//! - [`clock`]: the time of creation, as text.
//! - [`repository`]: the table, [`repository::Repository`], keyed by
//!   identifier.
//! - [`service`]: create, find, update and delete, as methods of
//!   [`record::Jobs`].
//! - [`error`]: the typed outcomes of a failed operation.
//! - [`theorems`]: what holds of the operations taken together.

pub mod clock;
pub mod error;
pub mod identifier;
pub mod record;
pub mod repository;
pub mod sanitizer;
pub mod service;
pub mod theorems;
