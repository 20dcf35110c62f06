//! Chart-of-accounts library of a small ERP system: account models, their
//! text encodings, error responses, configuration, the account command
//! protocol and the decisions behind the accounts pages.

pub mod text;
pub mod ids;
pub mod time;
pub mod money;
pub mod account_type;
pub mod account_category;
pub mod account;
pub mod error;
pub mod config;
pub mod commands;
pub mod frontend;
