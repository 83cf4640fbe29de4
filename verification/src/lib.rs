//! Terminal capability negotiation: deciding whether the attached terminal
//! understands the kitty graphics protocol.
//!
//! The crate holds every decision of the negotiation and none of its
//! input/output.  A caller owns the descriptors; it performs the action that
//! [`probe::Prober`] asks for and reports what happened.
//!
//! - [`terminal`]: what to apply to a terminal for raw, non-blocking input,
//!   and what to put back.
//! - [`marker`] and [`buffer`]: the answer's bytes and the search in them.
//! - [`probe`]: the probe, step by step; [`course`]: what holds of every
//!   probe from its first step to its last.
//! - [`cli`], [`kitty`] and [`text`]: the command line and the pictures it
//!   names.

pub mod buffer;
pub mod cli;
pub mod course;
pub mod kitty;
pub mod marker;
pub mod probe;
pub mod terminal;
pub mod text;
