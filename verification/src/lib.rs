//! Equipment templates, filled by an answer set solver.
//!
//! A template gives a character of one class an item for each of its slots.
//! This library writes the facts that tell the solver what there is to choose
//! from, follows a run of the solver step by step, and reads the solver's
//! choices back into templates.
//!
//! The library makes no call into the solver. Each step of a run is a
//! function from what the engine answered to what is to be done next, so that
//! everything the library decides is stated in its contracts and proved. The
//! program that drives the library makes the calls and reports the answers.
//!
//! - `domain` holds the entities of the game: stats, classes, slots, items
//!   and templates, and what the items of a template add up to.
//! - `clingo` holds what the library makes of the engine's answers: errors,
//!   symbols, models, the result of a search, and how far a session and a
//!   search have come.
//! - `optimization` holds the facts of an instance and what holds of their
//!   text, the reading of choices, the worker that follows a run, and what
//!   holds of every run.
//! - `initialization` reads items whose fields are texts.
//! - `text` holds what all of them need of texts and bytes.

pub mod clingo;
pub mod domain;
pub mod initialization;
pub mod optimization;
pub mod text;
