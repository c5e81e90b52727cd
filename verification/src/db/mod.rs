//! The database side of the station: the records it stores and the rows
//! and insert plans that seed its tables.

pub mod models;
pub mod inserter;
