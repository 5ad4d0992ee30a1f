//! The decisions of a construction-management back office, apart from the
//! web server and the database that carry them out.
//!
//! For every request the library says which statements to run, with which
//! values bound, in which order and inside which transaction, and what to
//! reply to each outcome. It never talks to the database itself: a caller
//! runs a statement and hands back what came of it.
//!
//! * [`sql`] builds statements: text with numbered placeholders, and the
//!   values bound to them. No value ever becomes part of the text.
//! * [`general`] holds the shared enumerations, pagination and sorting, and
//!   the notification that every mutation answers with.
//! * [`flow`] holds the checks that stand before a mutation and the reads
//!   behind a page; [`transaction`] the stages of a mutation of several
//!   statements, and the rule that any failure rolls all of it back.
//! * [`subtype`] is the model of entities that come in kinds, against which
//!   the mutations of sites, workers and technical personnel are stated.
//! * One module for each resource holds its statements, checks and replies.

pub mod areas;
pub mod brigades;
pub mod clients;
pub mod departments;
pub mod equipment;
pub mod flow;
pub mod general;
pub mod helpers;
pub mod impls;
pub mod materials;
pub mod sites;
pub mod sql;
pub mod subtype;
pub mod tasks;
pub mod technical_personnel;
pub mod text;
pub mod transaction;
pub mod utils;
pub mod values;
pub mod workers;
