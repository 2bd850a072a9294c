//! What can go wrong in an attempt and in a session.

use crate::attempt::ToolVerb;
use vstd::prelude::*;
use vstd::string::StringExecFns;

verus! {

/// Why a proof attempt produced no witness. Each kind belongs to one phase
/// of the attempt, so that the report can say where it stopped.
#[derive(Clone, Debug, PartialEq, Eq)]
pub enum AttemptError {
    /// The workspace could not be created or filled.
    Workspace { diagnostic: String },
    /// The tool could not be run at all, for `verb` or for anything.
    ToolNotStarted { verb: ToolVerb, diagnostic: String },
    /// The tool ran and did not compile the circuit.
    CompileFailed { diagnostic: String },
    /// The tool ran and did not execute the circuit it had compiled. The circuit
    /// enforces the policy when it is executed, so this is what inputs
    /// outside the policy come to.
    ExecuteFailed { diagnostic: String },
    /// The tool reported success and left no witness behind.
    ArtifactMissing,
    /// The witness is there and could not be read or encoded.
    ArtifactUnreadable { diagnostic: String },
}

/// An [`AttemptError`] as contracts see it.
pub enum AttemptErrorView {
    Workspace { diagnostic: Seq<char> },
    ToolNotStarted { verb: ToolVerb, diagnostic: Seq<char> },
    CompileFailed { diagnostic: Seq<char> },
    ExecuteFailed { diagnostic: Seq<char> },
    ArtifactMissing,
    ArtifactUnreadable { diagnostic: Seq<char> },
}

impl View for AttemptError {
    type V = AttemptErrorView;

    open spec fn view(&self) -> AttemptErrorView {
        match *self {
            AttemptError::Workspace { diagnostic } => AttemptErrorView::Workspace {
                diagnostic: diagnostic@,
            },
            AttemptError::ToolNotStarted { verb, diagnostic } => AttemptErrorView::ToolNotStarted {
                verb,
                diagnostic: diagnostic@,
            },
            AttemptError::CompileFailed { diagnostic } => AttemptErrorView::CompileFailed {
                diagnostic: diagnostic@,
            },
            AttemptError::ExecuteFailed { diagnostic } => AttemptErrorView::ExecuteFailed {
                diagnostic: diagnostic@,
            },
            AttemptError::ArtifactMissing => AttemptErrorView::ArtifactMissing,
            AttemptError::ArtifactUnreadable { diagnostic } => AttemptErrorView::ArtifactUnreadable {
                diagnostic: diagnostic@,
            },
        }
    }
}

/// What is said of a tool that could not be run with `verb`.
pub open spec fn not_started(verb: ToolVerb) -> Seq<char> {
    match verb {
        ToolVerb::Compile => "Error generating proof: Failed to compile Noir circuit: "@,
        ToolVerb::Execute => "Error generating proof: Failed to execute circuit: "@,
    }
}

/// The message that a failed attempt is reported with: a phrase that names
/// the phase, then the diagnostic. Only a tool that ran and failed to
/// execute the circuit puts the blame on the inputs.
pub open spec fn failure_message(error: AttemptErrorView) -> Seq<char> {
    match error {
        AttemptErrorView::Workspace { diagnostic } => "Error generating proof: "@ + diagnostic,
        AttemptErrorView::ToolNotStarted { verb, diagnostic } => not_started(verb) + diagnostic,
        AttemptErrorView::CompileFailed { diagnostic } => "Circuit compilation failed: "@
            + diagnostic,
        AttemptErrorView::ExecuteFailed { diagnostic } =>
            "Circuit execution failed. Likely the inputs don't satisfy the constraints: "@
            + diagnostic,
        AttemptErrorView::ArtifactMissing => "Failed to read witness file"@,
        AttemptErrorView::ArtifactUnreadable { diagnostic } => "Failed to read witness file: "@
            + diagnostic,
    }
}

impl AttemptError {
    /// The message that this failure is reported with.
    pub fn message(&self) -> (message: String)
        ensures
            message@ == failure_message(self@),
    {
        match self {
            AttemptError::Workspace { diagnostic } => String::from_str(
                "Error generating proof: ",
            ).concat(diagnostic.as_str()),
            AttemptError::ToolNotStarted { verb: ToolVerb::Compile, diagnostic } => String::from_str(
                "Error generating proof: Failed to compile Noir circuit: ",
            ).concat(diagnostic.as_str()),
            AttemptError::ToolNotStarted { verb: ToolVerb::Execute, diagnostic } => String::from_str(
                "Error generating proof: Failed to execute circuit: ",
            ).concat(diagnostic.as_str()),
            AttemptError::CompileFailed { diagnostic } => String::from_str(
                "Circuit compilation failed: ",
            ).concat(diagnostic.as_str()),
            AttemptError::ExecuteFailed { diagnostic } => String::from_str(
                "Circuit execution failed. Likely the inputs don't satisfy the constraints: ",
            ).concat(diagnostic.as_str()),
            AttemptError::ArtifactMissing => String::from_str("Failed to read witness file"),
            AttemptError::ArtifactUnreadable { diagnostic } => String::from_str(
                "Failed to read witness file: ",
            ).concat(diagnostic.as_str()),
        }
    }
}

/// One of the two fields that a session asks for.
#[derive(Clone, Copy, Debug, PartialEq, Eq, Structural)]
pub enum Field {
    Age,
    Bmi,
}

/// Why a session ended before its report was delivered.
#[derive(Clone, Debug, PartialEq, Eq)]
pub enum SessionError {
    /// A line from the peer was not an unsigned number.
    InvalidInput { field: Field },
    /// Reading from or writing to the peer, or storing the result, failed.
    Io { diagnostic: String },
    /// The session was handed an answer to a question it had not asked.
    OutOfTurn,
}

/// A [`SessionError`] as contracts see it.
pub enum SessionErrorView {
    InvalidInput { field: Field },
    Io { diagnostic: Seq<char> },
    OutOfTurn,
}

impl View for SessionError {
    type V = SessionErrorView;

    open spec fn view(&self) -> SessionErrorView {
        match *self {
            SessionError::InvalidInput { field } => SessionErrorView::InvalidInput { field },
            SessionError::Io { diagnostic } => SessionErrorView::Io { diagnostic: diagnostic@ },
            SessionError::OutOfTurn => SessionErrorView::OutOfTurn,
        }
    }
}

/// What is said of a session that ended with `error`, for the peer and for
/// the record.
pub open spec fn session_failure_message(error: SessionErrorView) -> Seq<char> {
    match error {
        SessionErrorView::InvalidInput { field: Field::Age } => "Invalid age input"@,
        SessionErrorView::InvalidInput { field: Field::Bmi } => "Invalid BMI input"@,
        SessionErrorView::Io { diagnostic } => diagnostic,
        SessionErrorView::OutOfTurn => "the session was answered out of turn"@,
    }
}

impl SessionError {
    /// What is said of a session that ended with this error.
    pub fn message(&self) -> (message: String)
        ensures
            message@ == session_failure_message(self@),
    {
        match self {
            SessionError::InvalidInput { field: Field::Age } => String::from_str(
                "Invalid age input",
            ),
            SessionError::InvalidInput { field: Field::Bmi } => String::from_str(
                "Invalid BMI input",
            ),
            SessionError::Io { diagnostic } => diagnostic.clone(),
            SessionError::OutOfTurn => String::from_str("the session was answered out of turn"),
        }
    }
}

} // verus!
