//! Restoring a database from a table-level backup: the decisions of the
//! restore pipeline, stated and proved. Reading files, asking the operator and
//! talking to the database server are left to the caller, which hands plain
//! values in and acts on the plain values that come back.
//!
//! A restore has two parts. [`prepare`] finds out what the backup is,
//! resolves the preset, and unpacks and decompresses the table dumps, with
//! the help of [`archive`], [`preset`] and [`extract`]; it ends with a
//! [`plan`]. [`restore`] takes the plan through the confirmations and the
//! replay, and [`report`] words what the operator is shown. [`laws`] holds
//! what is true of every preparation and every run.

pub mod archive;
pub mod config;
pub mod db;
pub mod doctor;
pub mod error;
pub mod extract;
pub mod laws;
pub mod paths;
pub mod plan;
pub mod prepare;
pub mod preset;
pub mod report;
pub mod restore;
pub mod text;
