use insurance_prover::model::{PolicyBounds, ProofRequest};
use insurance_prover::template::render;

#[test]
fn render_gives_the_six_quoted_entries() {
    let request = ProofRequest { age: 15, bmi_scaled: 220 };
    let text = render(&request, &PolicyBounds::standard());
    assert_eq!(
        text,
        "age = \"15\"\nbmi = \"220\"\nmin_age = \"10\"\nmax_age = \"25\"\nmin_bmi = \"185\"\nmax_bmi = \"249\""
    );
}

#[test]
fn render_does_not_end_the_last_line() {
    let text = render(&ProofRequest { age: 1, bmi_scaled: 2 }, &PolicyBounds::standard());
    assert!(text.ends_with("max_bmi = \"249\""));
    assert_eq!(text.lines().count(), 6);
}

#[test]
fn render_twice_gives_the_same_bytes() {
    let request = ProofRequest { age: 24, bmi_scaled: 199 };
    let bounds = PolicyBounds::standard();
    let first = render(&request, &bounds);
    let second = render(&request, &bounds);
    assert_eq!(first.as_bytes(), second.as_bytes());
}

#[test]
fn render_takes_values_outside_the_policy() {
    let request = ProofRequest { age: 0, bmi_scaled: u32::MAX };
    let text = render(&request, &PolicyBounds::standard());
    assert!(text.starts_with("age = \"0\"\nbmi = \"4294967295\"\n"));
}

#[test]
fn render_writes_the_bounds_it_is_given() {
    let bounds = PolicyBounds { min_age: 1, max_age: 2, min_bmi_scaled: 3, max_bmi_scaled: 4 };
    let text = render(&ProofRequest { age: 5, bmi_scaled: 6 }, &bounds);
    assert_eq!(
        text,
        "age = \"5\"\nbmi = \"6\"\nmin_age = \"1\"\nmax_age = \"2\"\nmin_bmi = \"3\"\nmax_bmi = \"4\""
    );
}

#[test]
fn render_tells_different_requests_apart() {
    let bounds = PolicyBounds::standard();
    let one = render(&ProofRequest { age: 15, bmi_scaled: 220 }, &bounds);
    let other = render(&ProofRequest { age: 152, bmi_scaled: 20 }, &bounds);
    let third = render(&ProofRequest { age: 15, bmi_scaled: 221 }, &bounds);
    assert_ne!(one, other);
    assert_ne!(one, third);
    assert_ne!(other, third);
}

#[test]
fn standard_bounds_are_those_of_the_policy() {
    let bounds = PolicyBounds::standard();
    assert_eq!(
        bounds,
        PolicyBounds { min_age: 10, max_age: 25, min_bmi_scaled: 185, max_bmi_scaled: 249 }
    );
}
