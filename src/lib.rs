//! Customer and dependent records, their materialisation, and the
//! all-or-nothing write of a customer together with its dependents.
pub mod error;
pub mod identity;
pub mod records;
pub mod store;
pub mod aggregate;
pub mod operations;
