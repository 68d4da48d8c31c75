//! A verified core for a single-user note-taking application.
//!
//! The application keeps one user, workspaces and notes in three tables of a
//! relational storage. This crate holds what is decided about them:
//!
//! - [`record`]: the three kinds of record;
//! - [`statement`]: the fixed statements that the storage runs;
//! - [`row`]: the rows that come back, and the records read from them;
//! - [`model`]: what each statement means on the tables, as mathematics;
//! - [`database`]: the tables held in memory, running every statement as
//!   the model says;
//! - [`commands`]: the commands of the application on such a database;
//! - [`surface`]: the commands as values, for a shell that keeps the
//!   storage elsewhere;
//! - [`provision`]: the provisioning of the single user, one statement at a
//!   time;
//! - [`laws`]: what holds of the commands taken together;
//! - [`error`] and [`ident`]: failures and identifiers.

pub mod commands;
pub mod database;
pub mod error;
pub mod ident;
pub mod laws;
pub mod model;
pub mod provision;
pub mod record;
pub mod row;
pub mod statement;
pub mod surface;
