//! A bounded-time execution supervisor for test bodies, together with the
//! setup-time validation and test-case planning that surround it.
//!
//! A work item (a test body) is raced against a millisecond deadline under one
//! of two strategies: a helper-unit race, which hands the body to a helper and
//! waits on a one-shot rendezvous, or a calling-unit watchdog, which keeps the
//! body on the caller's own execution unit and lets a watchdog end the process
//! on overrun.  How the body finished is classified into a four-way outcome
//! and turned into a host-framework-visible report.

pub mod cases;
pub mod checks;
pub mod directive;
pub mod ident;
pub mod meta;
pub mod outcome;
pub mod supervisor;
pub mod text;

pub use outcome::TimeoutResult;
