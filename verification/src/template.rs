//! The input file of the circuit tool.

use crate::model::{PolicyBounds, ProofRequest};
use crate::text::{decimal, is_digit, lemma_embedded_decimal, push_decimal};
use vstd::prelude::*;
use vstd::string::StringExecFns;

verus! {

/// One entry of the input file: the key, then the value as a quoted decimal
/// number. The tool's format writes every scalar as quoted text.
pub open spec fn config_entry(key: Seq<char>, value: nat) -> Seq<char> {
    key + " = \""@ + decimal(value) + "\""@
}

/// The entries of the bounds, one to a line, the last line not terminated.
pub open spec fn bounds_entries(bounds: PolicyBounds) -> Seq<char> {
    config_entry("min_age"@, bounds.min_age as nat) + "\n"@ + config_entry(
        "max_age"@,
        bounds.max_age as nat,
    ) + "\n"@ + config_entry("min_bmi"@, bounds.min_bmi_scaled as nat) + "\n"@ + config_entry(
        "max_bmi"@,
        bounds.max_bmi_scaled as nat,
    )
}

/// The input file for `request` under `bounds`: six entries, one to a line,
/// the last line not terminated. The two entries of the request come first,
/// then the four of the bounds.
pub open spec fn config_text(request: ProofRequest, bounds: PolicyBounds) -> Seq<char> {
    config_entry("age"@, request.age as nat) + "\n"@ + config_entry(
        "bmi"@,
        request.bmi_scaled as nat,
    ) + "\n"@ + bounds_entries(bounds)
}

fn push_entry(out: &mut String, key: &str, value: u32)
    ensures
        final(out)@ == old(out)@ + config_entry(key@, value as nat),
{
    out.append(key);
    out.append(" = \"");
    push_decimal(out, value as u64);
    out.append("\"");
    assert(out@ =~= old(out)@ + config_entry(key@, value as nat));
}

/// Renders the input file for `request` under `bounds`.
///
/// The text depends on the two arguments and on nothing else, so the same
/// arguments always give the same text.
pub fn render(request: &ProofRequest, bounds: &PolicyBounds) -> (text: String)
    ensures
        text@ == config_text(*request, *bounds),
{
    let mut text = String::new();
    push_entry(&mut text, "age", request.age);
    text.append("\n");
    push_entry(&mut text, "bmi", request.bmi_scaled);
    text.append("\n");
    let ghost head = text@;
    push_entry(&mut text, "min_age", bounds.min_age);
    text.append("\n");
    push_entry(&mut text, "max_age", bounds.max_age);
    text.append("\n");
    push_entry(&mut text, "min_bmi", bounds.min_bmi_scaled);
    text.append("\n");
    push_entry(&mut text, "max_bmi", bounds.max_bmi_scaled);
    assert(text@ =~= head + bounds_entries(*bounds));
    text
}

/// The text is a function of the request and the bounds: rendering the same
/// arguments again gives the same text, character for character.
pub proof fn lemma_render_repeats(
    request: ProofRequest,
    bounds: PolicyBounds,
    again: ProofRequest,
    again_bounds: PolicyBounds,
)
    requires
        request == again,
        bounds == again_bounds,
    ensures
        config_text(request, bounds) == config_text(again, again_bounds),
{
}

proof fn lemma_regroup(
    h: Seq<char>,
    x: Seq<char>,
    q: Seq<char>,
    n: Seq<char>,
    k: Seq<char>,
    y: Seq<char>,
    b: Seq<char>,
)
    ensures
        (h + x + q) + n + (k + y + q) + n + b == (h + x) + (q + n + k + y + (q + n + b)),
{
    assert((h + x + q) + n + (k + y + q) + n + b =~= (h + x) + (q + n + k + y + (q + n + b)));
}

/// An input file belongs to one request only: under the same bounds, two
/// requests that render to the same text are the same request. So no
/// attempt's input file can pass for that of an attempt on other inputs.
pub proof fn lemma_render_injective(one: ProofRequest, other: ProofRequest, bounds: PolicyBounds)
    requires
        config_text(one, bounds) == config_text(other, bounds),
    ensures
        one == other,
{
    let h = "age"@ + " = \""@;
    let k = "bmi"@ + " = \""@;
    let q = "\""@;
    let n = "\n"@;
    let b = bounds_entries(bounds);
    let tail = q + n + b;
    assert(q.len() > 0 && !is_digit(q[0])) by {
        reveal_strlit("\"");
    }
    let one_age = decimal(one.age as nat);
    let one_bmi = decimal(one.bmi_scaled as nat);
    let other_age = decimal(other.age as nat);
    let other_bmi = decimal(other.bmi_scaled as nat);
    lemma_regroup(h, one_age, q, n, k, one_bmi, b);
    lemma_regroup(h, other_age, q, n, k, other_bmi, b);
    let one_rest = q + n + k + one_bmi + tail;
    let other_rest = q + n + k + other_bmi + tail;
    assert(one_rest[0] == q[0] && other_rest[0] == q[0]);
    lemma_embedded_decimal(h, one.age as nat, one_rest, other.age as nat, other_rest);
    assert(tail[0] == q[0]);
    lemma_embedded_decimal(q + n + k, one.bmi_scaled as nat, tail, other.bmi_scaled as nat, tail);
}

} // verus!
