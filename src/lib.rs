//! Request-processing core of a multi-tenant school library backend:
//! mapping of failures to responses, include parsing, JSON payload decoding, tenant-scoped
//! outcome checks for the resource models, and credential verification.

pub mod assignments;
pub mod books;
pub mod clock;
pub mod error;
pub mod includes;
pub mod json;
pub mod middleware;
pub mod people;
pub mod resources;
pub mod schools;
pub mod secrets;
pub mod sessions;
pub mod store;
pub mod text;
