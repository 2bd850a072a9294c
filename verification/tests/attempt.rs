use insurance_prover::attempt::{Attempt, AttemptAction, AttemptEvent, ToolVerb};
use insurance_prover::model::{PolicyBounds, ProofRequest, ProofResult, ToolOutcome};
use insurance_prover::prover::NoirProver;

/// A stand-in for everything outside the machine: it answers each action
/// from a script and keeps a record of what it was asked.
struct Fake {
    workspace: Result<(), String>,
    compile: ToolOutcome,
    execute: ToolOutcome,
    artifact: Option<Vec<u8>>,
    asked: Vec<String>,
    written: Vec<(String, String)>,
}

fn outcome(succeeded: bool, diagnostic: &str) -> ToolOutcome {
    ToolOutcome { succeeded, diagnostic: String::from(diagnostic) }
}

fn all_goes_well() -> Fake {
    Fake {
        workspace: Ok(()),
        compile: outcome(true, ""),
        execute: outcome(true, ""),
        artifact: Some(vec![0x1f, 0x8b, 0x08, 0x00]),
        asked: Vec::new(),
        written: Vec::new(),
    }
}

impl Fake {
    fn answer(&mut self, action: &AttemptAction) -> AttemptEvent {
        match action {
            AttemptAction::CreateWorkspace => {
                self.asked.push(String::from("create"));
                match &self.workspace {
                    Ok(()) => AttemptEvent::Done,
                    Err(why) => AttemptEvent::Failed { diagnostic: why.clone() },
                }
            }
            AttemptAction::CopyTemplate { template_root, path } => {
                self.asked.push(format!("copy {}/{}", template_root, path));
                AttemptEvent::Done
            }
            AttemptAction::CreateDirectory { path } => {
                self.asked.push(format!("mkdir {}", path));
                AttemptEvent::Done
            }
            AttemptAction::WriteFile { path, text } => {
                self.asked.push(format!("write {}", path));
                self.written.push((path.clone(), text.clone()));
                AttemptEvent::Done
            }
            AttemptAction::RunTool { verb: ToolVerb::Compile } => {
                self.asked.push(String::from("compile"));
                AttemptEvent::ToolExited { outcome: self.compile.clone() }
            }
            AttemptAction::RunTool { verb: ToolVerb::Execute } => {
                self.asked.push(String::from("execute"));
                AttemptEvent::ToolExited { outcome: self.execute.clone() }
            }
            AttemptAction::ReadArtifact { path } => {
                self.asked.push(format!("read {}", path));
                match &self.artifact {
                    Some(bytes) => AttemptEvent::ArtifactRead { bytes: bytes.clone() },
                    None => AttemptEvent::ArtifactAbsent,
                }
            }
            AttemptAction::RemoveWorkspace => {
                self.asked.push(String::from("remove"));
                AttemptEvent::Done
            }
            AttemptAction::Finish { .. } => unreachable!(),
        }
    }
}

fn run(fake: &mut Fake, request: ProofRequest, now: i64) -> ProofResult {
    let prover = NoirProver::new(false);
    let (mut attempt, mut action) = prover.begin_proof(request);
    for _ in 0..32 {
        if let AttemptAction::Finish { result } = action {
            assert!(attempt.is_finished());
            assert!(!attempt.holds_workspace());
            assert_eq!(attempt.advance_at(AttemptEvent::Done, now), None);
            return result;
        }
        let event = fake.answer(&action);
        action = attempt.advance_at(event, now).unwrap();
    }
    panic!("the attempt did not finish");
}

fn request() -> ProofRequest {
    ProofRequest { age: 15, bmi_scaled: 220 }
}

#[test]
fn attempt_within_bounds_with_a_tool_that_succeeds() {
    let mut fake = all_goes_well();
    let result = run(&mut fake, request(), 1700000000);
    assert!(result.success);
    assert_eq!(
        result.public_inputs,
        PolicyBounds { min_age: 10, max_age: 25, min_bmi_scaled: 185, max_bmi_scaled: 249 }
    );
    assert!(!result.proof.is_empty());
    assert_eq!(result.proof, "H4sIAA==");
    assert_eq!(result.verification_key, "witness_verification_placeholder_1700000000");
    assert_eq!(
        result.message,
        "Proof generated successfully! The user is eligible for insurance discount."
    );
}

#[test]
fn attempt_asks_for_everything_in_order() {
    let mut fake = all_goes_well();
    run(&mut fake, request(), 0);
    assert_eq!(
        fake.asked,
        vec![
            "create",
            "copy ../noir-circuit/Nargo.toml",
            "mkdir src",
            "copy ../noir-circuit/src/main.nr",
            "write Prover.toml",
            "compile",
            "execute",
            "read target/insurance_verifier.gz",
            "remove",
        ]
    );
}

#[test]
fn attempt_writes_the_configuration_of_its_own_request() {
    let mut one = all_goes_well();
    let mut other = all_goes_well();
    run(&mut one, ProofRequest { age: 15, bmi_scaled: 220 }, 0);
    run(&mut other, ProofRequest { age: 24, bmi_scaled: 190 }, 0);
    assert_eq!(
        one.written,
        vec![(
            String::from("Prover.toml"),
            String::from(
                "age = \"15\"\nbmi = \"220\"\nmin_age = \"10\"\nmax_age = \"25\"\nmin_bmi = \"185\"\nmax_bmi = \"249\""
            )
        )]
    );
    assert_eq!(
        other.written,
        vec![(
            String::from("Prover.toml"),
            String::from(
                "age = \"24\"\nbmi = \"190\"\nmin_age = \"10\"\nmax_age = \"25\"\nmin_bmi = \"185\"\nmax_bmi = \"249\""
            )
        )]
    );
}

#[test]
fn attempt_whose_compile_fails_never_executes() {
    let mut fake = all_goes_well();
    fake.compile = outcome(false, "error: expected type");
    let result = run(&mut fake, request(), 1700000000);
    assert!(!result.success);
    assert_eq!(result.message, "Circuit compilation failed: error: expected type");
    assert!(result.message.contains("compilation"));
    assert!(result.proof.is_empty());
    assert!(result.verification_key.is_empty());
    assert!(!fake.asked.contains(&String::from("execute")));
    assert_eq!(fake.asked.last().unwrap(), "remove");
    assert_eq!(fake.asked[fake.asked.len() - 2], "compile");
}

#[test]
fn attempt_whose_execute_fails_says_the_inputs_are_at_fault() {
    let mut fake = all_goes_well();
    fake.execute = outcome(false, "constraint failed");
    let result = run(&mut fake, ProofRequest { age: 99, bmi_scaled: 1 }, 0);
    assert!(!result.success);
    assert_eq!(
        result.message,
        "Circuit execution failed. Likely the inputs don't satisfy the constraints: constraint failed"
    );
    assert!(result.proof.is_empty());
    assert!(result.verification_key.is_empty());
    assert!(!fake.asked.iter().any(|asked| asked.starts_with("read")));
    assert_eq!(fake.asked.last().unwrap(), "remove");
}

#[test]
fn attempt_without_a_workspace_ends_at_once() {
    let mut fake = all_goes_well();
    fake.workspace = Err(String::from("disk full"));
    let result = run(&mut fake, request(), 0);
    assert!(!result.success);
    assert_eq!(result.message, "Error generating proof: disk full");
    assert_eq!(fake.asked, vec!["create"]);
}

#[test]
fn attempt_whose_witness_is_missing_fails() {
    let mut fake = all_goes_well();
    fake.artifact = None;
    let result = run(&mut fake, request(), 0);
    assert!(!result.success);
    assert_eq!(result.message, "Failed to read witness file");
    assert!(result.proof.is_empty());
    assert_eq!(fake.asked.last().unwrap(), "remove");
}

#[test]
fn attempt_with_an_empty_witness_succeeds_with_an_empty_proof() {
    let mut fake = all_goes_well();
    fake.artifact = Some(Vec::new());
    let result = run(&mut fake, request(), 7);
    assert!(result.success);
    assert_eq!(result.proof, "");
    assert_eq!(result.verification_key, "witness_verification_placeholder_7");
}

fn begun() -> Attempt {
    let (attempt, _) = Attempt::begin(request(), PolicyBounds::standard(), String::from("t"));
    attempt
}

fn advanced_to_compiling() -> Attempt {
    let mut attempt = begun();
    for _ in 0..4 {
        attempt.advance_at(AttemptEvent::Done, 0).unwrap();
    }
    assert_eq!(
        attempt.advance_at(AttemptEvent::Done, 0),
        Some(AttemptAction::RunTool { verb: ToolVerb::Compile })
    );
    attempt
}

fn finish(attempt: &mut Attempt) -> ProofResult {
    match attempt.advance_at(AttemptEvent::Done, 0) {
        Some(AttemptAction::Finish { result }) => result,
        other => panic!("not finished: {:?}", other),
    }
}

#[test]
fn attempt_whose_template_cannot_be_copied_removes_its_workspace() {
    let mut attempt = begun();
    attempt.advance_at(AttemptEvent::Done, 0).unwrap();
    assert!(attempt.holds_workspace());
    let action = attempt.advance_at(AttemptEvent::Failed { diagnostic: String::from("gone") }, 0);
    assert_eq!(action, Some(AttemptAction::RemoveWorkspace));
    let result = finish(&mut attempt);
    assert_eq!(result.message, "Error generating proof: gone");
    assert!(!attempt.holds_workspace());
}

#[test]
fn attempt_whose_tool_cannot_be_started_does_not_blame_the_circuit() {
    let mut attempt = advanced_to_compiling();
    let action =
        attempt.advance_at(AttemptEvent::Failed { diagnostic: String::from("no such tool") }, 0);
    assert_eq!(action, Some(AttemptAction::RemoveWorkspace));
    let result = finish(&mut attempt);
    assert!(!result.success);
    assert_eq!(
        result.message,
        "Error generating proof: Failed to compile Noir circuit: no such tool"
    );
    assert!(result.proof.is_empty());
}

#[test]
fn attempt_whose_tool_cannot_be_started_to_execute_does_not_blame_the_inputs() {
    let mut attempt = advanced_to_compiling();
    attempt.advance_at(AttemptEvent::ToolExited { outcome: outcome(true, "") }, 0).unwrap();
    let action =
        attempt.advance_at(AttemptEvent::Failed { diagnostic: String::from("killed") }, 0);
    assert_eq!(action, Some(AttemptAction::RemoveWorkspace));
    let result = finish(&mut attempt);
    assert_eq!(result.message, "Error generating proof: Failed to execute circuit: killed");
    assert!(!result.message.contains("inputs"));
}

#[test]
fn attempt_told_something_out_of_turn_fails_where_it_stands() {
    let mut attempt = advanced_to_compiling();
    let action = attempt.advance_at(AttemptEvent::ArtifactAbsent, 0);
    assert_eq!(action, Some(AttemptAction::RemoveWorkspace));
    assert_eq!(
        finish(&mut attempt).message,
        "Error generating proof: Failed to compile Noir circuit: unexpected response"
    );
}

#[test]
fn attempt_for_inputs_outside_the_policy_fails_when_the_circuit_is_executed() {
    let mut fake = all_goes_well();
    fake.execute = outcome(false, "Failed constraint");
    let result = run(&mut fake, ProofRequest { age: 5, bmi_scaled: 300 }, 0);
    assert!(!result.success);
    assert!(result.message.contains("Likely the inputs don't satisfy the constraints"));
    assert!(fake.asked.contains(&String::from("compile")));
    assert!(fake.asked.contains(&String::from("execute")));
}

#[test]
fn attempt_whose_witness_cannot_be_read_fails() {
    let mut attempt = advanced_to_compiling();
    attempt.advance_at(AttemptEvent::ToolExited { outcome: outcome(true, "") }, 0).unwrap();
    let action = attempt.advance_at(AttemptEvent::ToolExited { outcome: outcome(true, "") }, 0);
    assert_eq!(
        action,
        Some(AttemptAction::ReadArtifact { path: String::from("target/insurance_verifier.gz") })
    );
    let action =
        attempt.advance_at(AttemptEvent::Failed { diagnostic: String::from("permission denied") }, 0);
    assert_eq!(action, Some(AttemptAction::RemoveWorkspace));
    assert_eq!(finish(&mut attempt).message, "Failed to read witness file: permission denied");
}

#[test]
fn attempt_hands_out_its_result_once() {
    let mut attempt = begun();
    let first = attempt.advance_at(AttemptEvent::ArtifactAbsent, 0);
    assert!(matches!(first, Some(AttemptAction::Finish { .. })));
    assert!(attempt.is_finished());
    assert_eq!(attempt.advance_at(AttemptEvent::Done, 0), None);
    assert_eq!(attempt.advance(AttemptEvent::Done), None);
}

#[test]
fn attempt_is_over_after_ten_events_whatever_they_are() {
    let mut attempt = begun();
    let mut results = 0;
    for _ in 0..10 {
        if let Some(AttemptAction::Finish { .. }) = attempt.advance_at(AttemptEvent::Done, 0) {
            results += 1;
        }
    }
    assert!(attempt.is_finished());
    assert_eq!(results, 1);
}

#[test]
fn attempt_stamps_only_a_witness_that_was_read() {
    let mut attempt = advanced_to_compiling();
    let read = AttemptEvent::ArtifactRead { bytes: vec![1, 2, 3] };
    assert!(!attempt.stamps(&read));
    attempt.advance_at(AttemptEvent::ToolExited { outcome: outcome(true, "") }, 0).unwrap();
    attempt.advance_at(AttemptEvent::ToolExited { outcome: outcome(true, "") }, 0).unwrap();
    assert!(attempt.stamps(&read));
    assert!(!attempt.stamps(&AttemptEvent::ArtifactAbsent));
}

#[test]
fn attempt_reads_the_clock_for_the_key() {
    let mut attempt = advanced_to_compiling();
    attempt.advance(AttemptEvent::ToolExited { outcome: outcome(true, "") }).unwrap();
    attempt.advance(AttemptEvent::ToolExited { outcome: outcome(true, "") }).unwrap();
    let action = attempt.advance(AttemptEvent::ArtifactRead { bytes: vec![1, 2, 3] });
    assert_eq!(action, Some(AttemptAction::RemoveWorkspace));
    match attempt.advance(AttemptEvent::Done) {
        Some(AttemptAction::Finish { result }) => {
            assert!(result.success);
            assert_eq!(result.proof, "AQID");
            let stamp = result
                .verification_key
                .strip_prefix("witness_verification_placeholder_")
                .unwrap();
            assert!(stamp.parse::<i64>().unwrap() > 1_600_000_000);
        }
        other => panic!("not finished: {:?}", other),
    }
}
