//! What the server stores: the statements that it sends to its database, what
//! they mean for the tables, and how it reads the rows that come back.

pub mod admins;
pub mod agents;
pub mod answers;
pub mod bindings;
pub mod domains;
pub mod laws;
pub mod list_laws;
pub mod models;
pub mod profiles;
pub mod query;
pub mod schema;
pub mod statements;
pub mod sums;
pub mod tables;
pub mod usage;
pub mod value_laws;
pub mod write;
