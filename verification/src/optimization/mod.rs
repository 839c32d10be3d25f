//! The optimization of a template: what the solver is told, and what is made
//! of its answers.

pub mod choices;
pub mod facts;
pub mod instance;
pub mod run;
pub mod worker;
