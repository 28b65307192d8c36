//! A safe boundary between an application and native incremental SAT solving
//! engines that speak the IPASIR protocol and its extension for external
//! propagators.
//!
//! The engines themselves are foreign code. Each front end in [`solvers`]
//! states the entry points that it needs of its engine as a trait, drives
//! any engine behind that trait, and is verified for whatever the engine
//! answers: it keeps the state of the solver itself, lets that state decide
//! which operations may run, and treats an answer outside the protocol as a
//! fatal error. Contracts of functions that ask the engine therefore speak
//! of "some answer" of the engine; the functions that take an answer as an
//! argument say what it leads to.
//!
//! [`types`] holds variables, literals and clauses with their integer
//! encoding, [`text`] the wording of error descriptions, and [`timing`] the
//! measurement of the CPU time of a search.

pub mod solvers;
pub mod text;
pub mod timing;
pub mod types;
