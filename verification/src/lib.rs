//! Orchestration of proof generation for an insurance-eligibility circuit.
//!
//! Two numbers, an age and a body-mass index scaled by ten, are rendered into
//! the circuit tool's input file; the tool is asked to compile and then to
//! execute the circuit; the witness it leaves behind is encoded as text and
//! reported. Everything that touches a socket, a directory or a subprocess is
//! left to the caller: the machines in [`attempt`] and [`session`] say what
//! is to be done next and take back what came of it.

pub mod artifact;
pub mod attempt;
pub mod attempt_runs;
pub mod error;
pub mod model;
pub mod prover;
pub mod report;
pub mod session;
pub mod session_runs;
pub mod template;
pub mod text;

