//! Core of a conference-registration service: extraction and validation of
//! submitted form fields, construction of the immutable `Registration`
//! record, persistence of that record into a relational store, and the
//! deterministic construction of the confirmation e-mail, together with the
//! error taxonomy that ties the steps into one submission pipeline.

pub mod addr;
pub mod categories;
pub mod config;
pub mod db;
pub mod errors;
pub mod form;
pub mod handler;
pub mod mail;
pub mod numbers;
pub mod registration;
pub mod session;

pub use config::{ConfigError, Configuration};
pub use db::DBConnection;
pub use errors::HandleError;
pub use form::{FormMap, FormValue};
pub use handler::{RejectReason, SubmissionOutcome};
pub use registration::Registration;
