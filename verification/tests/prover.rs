use insurance_prover::attempt::AttemptAction;
use insurance_prover::model::ProofRequest;
use insurance_prover::prover::{container_template_path, NoirProver};

#[test]
fn prover_in_the_container_uses_the_absolute_template() {
    assert_eq!(NoirProver::new(true).circuit_path, "/app/noir-circuit");
}

#[test]
fn container_template_is_where_the_container_keeps_it() {
    assert_eq!(container_template_path(), "/app/noir-circuit");
    assert_eq!(NoirProver::new(true).circuit_path, container_template_path());
}

#[test]
fn prover_elsewhere_uses_the_template_beside_it() {
    assert_eq!(NoirProver::new(false).circuit_path, "../noir-circuit");
}

#[test]
fn prover_begins_by_asking_for_a_workspace() {
    let prover = NoirProver::new(false);
    let (attempt, action) = prover.begin_proof(ProofRequest { age: 15, bmi_scaled: 220 });
    assert_eq!(action, AttemptAction::CreateWorkspace);
    assert!(!attempt.is_finished());
    assert!(!attempt.holds_workspace());
}
