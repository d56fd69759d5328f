//! A federated query layer between a row-oriented host database engine and a
//! columnar execution engine over object-storage-backed table files.
//!
//! The crate is organised leaf to root: a string-keyed dictionary and option
//! surfaces at the bottom, then the object-store registry, the schema/table
//! resolver, the session/catalog manager, the scan-execution protocol, and the
//! query-interception layer on top.

pub mod batch;
pub mod cli;
pub mod dict;
pub mod fdw;
pub mod guc;
pub mod hooks;
pub mod location;
pub mod options;
pub mod provider;
pub mod registry;
pub mod scan;
pub mod schema;
pub mod session;
pub mod telemetry;
pub mod stores;
