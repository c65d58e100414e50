//! A library for the Taiga REST API and its command-line client.
//!
//! - [`client`]: URL normalization, the description of every API call as a
//!   request, and how answers and errors are read.
//! - [`json`]: the JSON values that requests carry and answers hold.
//! - [`cli_args`], [`cli_plan`], [`dispatch`]: the commands of the CLI, the
//!   queries and bodies they send, and the steps each command takes.
//! - [`renewal`]: the state machine that keeps a session alive.
//! - [`session`]: JWT expiry and the password store of silent re-login.
//! - [`update`]: release archive names, checksum checks and extraction.
//! - [`upgrade`]: the decisions of `update`: newer or current, what to
//!   download, and the binary of a verified archive.
//! - [`ids`], [`text`]: identifiers and character-level helpers.

pub mod cli_args;
pub mod cli_plan;
pub mod client;
pub mod dispatch;
pub mod ids;
pub mod json;
pub mod renewal;
pub mod session;
pub mod text;
pub mod update;
pub mod upgrade;
