//! Resolve, list and switch the identity (`user.name` / `user.email`) that git
//! records on commits, from a list of named identities kept in a config file.

pub mod catalog;
pub mod command;
pub mod config;
pub mod table;
pub mod text;
