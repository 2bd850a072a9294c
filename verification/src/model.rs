//! The values that pass between the parts of the pipeline.

use crate::error::{failure_message, AttemptError, AttemptErrorView};
use vstd::prelude::*;
use vstd::string::StringExecFns;

verus! {

/// The two inputs of one proof attempt. Neither is checked against the
/// policy here: the circuit enforces the ranges when it is executed.
#[derive(Clone, Copy, Debug, PartialEq, Eq, Structural)]
pub struct ProofRequest {
    /// Age in years.
    pub age: u32,
    /// Body-mass index times ten, so that one decimal place needs no fraction.
    pub bmi_scaled: u32,
}

/// The public range limits that accompany every result.
#[derive(Clone, Copy, Debug, PartialEq, Eq, Structural)]
pub struct PolicyBounds {
    pub min_age: u32,
    pub max_age: u32,
    pub min_bmi_scaled: u32,
    pub max_bmi_scaled: u32,
}

impl PolicyBounds {
    /// The limits of the policy in force: ages 10 to 25, body-mass index
    /// 18.5 to 24.9.
    pub open spec fn policy() -> PolicyBounds {
        PolicyBounds { min_age: 10, max_age: 25, min_bmi_scaled: 185, max_bmi_scaled: 249 }
    }

    /// The limits of the policy in force.
    pub fn standard() -> (bounds: PolicyBounds)
        ensures
            bounds == PolicyBounds::policy(),
    {
        PolicyBounds { min_age: 10, max_age: 25, min_bmi_scaled: 185, max_bmi_scaled: 249 }
    }
}

/// What one run of the circuit tool came to.
#[derive(Clone, Debug, PartialEq, Eq)]
pub struct ToolOutcome {
    /// Whether the tool exited with success.
    pub succeeded: bool,
    /// What the tool wrote to its error stream.
    pub diagnostic: String,
}

/// A [`ToolOutcome`] as contracts see it.
pub struct ToolOutcomeView {
    pub succeeded: bool,
    pub diagnostic: Seq<char>,
}

impl View for ToolOutcome {
    type V = ToolOutcomeView;

    open spec fn view(&self) -> ToolOutcomeView {
        ToolOutcomeView { succeeded: self.succeeded, diagnostic: self.diagnostic@ }
    }
}

/// The outcome of one proof attempt, as it is reported and stored.
#[derive(Clone, Debug, PartialEq, Eq)]
pub struct ProofResult {
    /// The witness, encoded as text; empty when the attempt failed.
    pub proof: String,
    /// A stand-in for a verification key: a fixed label and the time of the
    /// attempt. It has no cryptographic meaning. Empty when the attempt
    /// failed.
    pub verification_key: String,
    /// The policy limits the proof speaks of.
    pub public_inputs: PolicyBounds,
    /// Whether a witness was produced.
    pub success: bool,
    /// What happened, for a human reader.
    pub message: String,
}

/// A [`ProofResult`] as contracts see it.
pub struct ProofResultView {
    pub proof: Seq<char>,
    pub verification_key: Seq<char>,
    pub public_inputs: PolicyBounds,
    pub success: bool,
    pub message: Seq<char>,
}

impl View for ProofResult {
    type V = ProofResultView;

    open spec fn view(&self) -> ProofResultView {
        ProofResultView {
            proof: self.proof@,
            verification_key: self.verification_key@,
            public_inputs: self.public_inputs,
            success: self.success,
            message: self.message@,
        }
    }
}

impl ProofResultView {
    /// A result is fully populated: one that reports failure carries neither
    /// a proof nor a key.
    pub open spec fn well_formed(self) -> bool {
        !self.success ==> self.proof.len() == 0 && self.verification_key.len() == 0
    }

    /// The result of an attempt that produced a witness.
    pub open spec fn witnessed(
        proof: Seq<char>,
        verification_key: Seq<char>,
        bounds: PolicyBounds,
    ) -> ProofResultView {
        ProofResultView {
            proof,
            verification_key,
            public_inputs: bounds,
            success: true,
            message: success_message(),
        }
    }

    /// The result of an attempt that produced none.
    pub open spec fn failed(error: AttemptErrorView, bounds: PolicyBounds) -> ProofResultView {
        ProofResultView {
            proof: Seq::empty(),
            verification_key: Seq::empty(),
            public_inputs: bounds,
            success: false,
            message: failure_message(error),
        }
    }
}

/// The message of every successful result.
pub open spec fn success_message() -> Seq<char> {
    "Proof generated successfully! The user is eligible for insurance discount."@
}

impl ProofResult {
    /// The result of an attempt that produced a witness.
    pub fn witnessed(proof: String, verification_key: String, bounds: PolicyBounds) -> (result:
        ProofResult)
        ensures
            result@ == ProofResultView::witnessed(proof@, verification_key@, bounds),
            result@.well_formed(),
    {
        ProofResult {
            proof,
            verification_key,
            public_inputs: bounds,
            success: true,
            message: String::from_str(
                "Proof generated successfully! The user is eligible for insurance discount.",
            ),
        }
    }

    /// The result of an attempt that produced no witness: no proof, no key,
    /// and the message of the failure.
    pub fn failed(error: &AttemptError, bounds: PolicyBounds) -> (result: ProofResult)
        ensures
            result@ == ProofResultView::failed(error@, bounds),
            result@.well_formed(),
    {
        ProofResult {
            proof: String::new(),
            verification_key: String::new(),
            public_inputs: bounds,
            success: false,
            message: error.message(),
        }
    }
}

} // verus!
