//! Stable, structured identities for application errors.
//!
//! Every variant of an error type is declared with a short code, an
//! application status and an optional message that is safe to show to
//! clients.  [`deriver`] turns such a declaration into a dispatch table with
//! one arm per variant, and [`info`] holds the record that an arm builds from
//! an error's diagnostic text.  [`digest`] computes the short token by which
//! repeated occurrences of one error are recognised.

pub mod deriver;
pub mod digest;
pub mod info;

pub use deriver::{process_error_info, Dispatch};
pub use info::{ErrorInfo, ToErrorInfo};
