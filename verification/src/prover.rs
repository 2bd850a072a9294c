//! Where the circuit's template is, and the start of an attempt on it.

use crate::attempt::{Attempt, AttemptAction, AttemptActionView, AttemptView};
use crate::model::{PolicyBounds, ProofRequest};
use vstd::prelude::*;
use vstd::string::StringExecFns;

verus! {

/// Where the template is when the program runs in its container.
pub open spec fn container_template() -> Seq<char> {
    "/app/noir-circuit"@
}

/// Where the template is when the program runs from its source tree.
pub open spec fn local_template() -> Seq<char> {
    "../noir-circuit"@
}

/// Where the template is when the program runs in its container; that the
/// place exists is the sign that it does.
pub fn container_template_path() -> (path: &'static str)
    ensures
        path@ == container_template(),
{
    "/app/noir-circuit"
}

/// The prover of one circuit: it knows where the circuit's template is.
#[derive(Clone, Debug, PartialEq, Eq)]
pub struct NoirProver {
    /// The directory that holds the circuit's project file and source.
    pub circuit_path: String,
}

impl NoirProver {
    /// The prover for the place the program runs in. Whether that is the
    /// container is for the caller to find out, once, when the program
    /// starts: in the container the template has a fixed absolute place,
    /// elsewhere it lies beside the working directory.
    pub fn new(in_container: bool) -> (prover: NoirProver)
        ensures
            prover.circuit_path@ == if in_container {
                container_template()
            } else {
                local_template()
            },
    {
        let circuit_path = if in_container {
            String::from_str(container_template_path())
        } else {
            String::from_str("../noir-circuit")
        };
        NoirProver { circuit_path }
    }

    /// Begins a proof attempt for `request` under the policy in force. The
    /// attempt is a machine of its own from here on; the first thing it asks
    /// for is its workspace.
    pub fn begin_proof(&self, request: ProofRequest) -> (begun: (Attempt, AttemptAction))
        ensures
            begun.0@ == AttemptView::begun(request, PolicyBounds::policy(), self.circuit_path@),
            begun.1@ == AttemptActionView::CreateWorkspace,
    {
        Attempt::begin(request, PolicyBounds::standard(), self.circuit_path.clone())
    }
}

} // verus!
