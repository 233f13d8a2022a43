//! Command line client library for PersonalMediaVault: the vault's data model,
//! request paths, argument parsing and the decisions behind each command.
use vstd::prelude::*;

pub mod text;
pub mod table;
pub mod lists;
pub mod sorting;
pub mod models;
pub mod url_encoding;
pub mod api;
pub mod vault_uri;
pub mod commands;

verus! {
}
