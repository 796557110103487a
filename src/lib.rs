//! A record store of user-owned entries kept in a wide-column table: the
//! entry and cursor types, and the repository's verified decisions about what
//! to ask the table and what to make of its answers.

pub mod structs;
pub mod parameters;
pub mod error;
pub mod dynamo_service;
pub mod table;
