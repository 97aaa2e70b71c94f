//! A small quotes service: the records, the rules that map each storage
//! outcome to an HTTP reply, a model of the `quotes` table, and the
//! startup configuration.

pub mod config;
pub mod handlers;
pub mod quote;
pub mod quotes;
pub mod reply;
pub mod table;
