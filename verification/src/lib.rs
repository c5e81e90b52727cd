//! Verified core of the VIT servicing station: the data model that the
//! GraphQL endpoint serves, the server context, the rows that seed the
//! database, and the decisions of the CSV loading command.

pub mod context;
pub mod db;
pub mod graphql;
pub mod loaders;
pub mod load_runs;
