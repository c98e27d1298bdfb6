//! Accounts and profiles of a social service: immutable entities built from
//! value objects, the repository interfaces that isolate persistence, the
//! interactors that compose them into use cases, and the error chain that
//! carries failures from the storage layer up to the use-case boundary.

pub mod adaptor;
pub mod entities;
pub mod error;
pub mod interactor;
pub mod repository;
pub mod transfer;

pub use self::error::{
    application_error_of, convert_text, lemma_error_mapping_total, not_found_text,
    ApplicationError, DriverError, KernelError,
};
