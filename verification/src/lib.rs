//! Read-only introspection of a SQLite database file's schema: every
//! table of the file's catalog, with each column's name and declared
//! type, accumulated in table-then-column order and rendered as plain
//! text for a host application's slash command.

mod db;
pub mod commands;
pub mod render;
pub mod schema;
