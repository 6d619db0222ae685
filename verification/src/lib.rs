//! A spreadsheet editor's engine for scripts that are written by a machine.
//!
//! A user says in plain words what should be done to a table. A
//! text-generation service turns the request into a short script, and the
//! script is run on the table as a child process, to analyse the table or
//! to propose edits. This library holds what is decided on the way:
//!
//! - [`ai_script`] vets a script before it runs, speaks the line protocol
//!   with the child process, follows its progress, keeps the registry of
//!   executions and turns the outcome of a run, good or bad, into a result
//!   for the user;
//! - [`ai`] reads requests and answers of the service, and carries out the
//!   simple transformations itself;
//! - [`csv_engine`] validates, cleanses, searches, edits and exports tables;
//! - [`commands`] holds the requests of the user interface and answers
//!   those that the registry of executions can answer;
//! - [`json`], [`pattern`], [`dates`] and [`text`] are what the others stand
//!   on: JSON documents, regular expressions, calendar dates and plain text.
//!
//! Nothing here reads a file, starts a process or asks the network; a
//! caller does that and hands over what it found. Arithmetic on numbers with
//! a fractional part is left to the caller as well.

pub mod ai;
pub mod ai_script;
pub mod chat;
pub mod commands;
pub mod csv_engine;
pub mod dates;
pub mod json;
pub mod pattern;
pub mod settings;
pub mod text;
pub mod utils;
