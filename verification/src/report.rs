//! What a session says to its peer.

use crate::error::{session_failure_message, Field, SessionErrorView};
use crate::model::{PolicyBounds, ProofResult, ProofResultView};
use crate::text::{decimal, push_decimal, push_signed_decimal, signed_decimal};
use vstd::prelude::*;
use vstd::string::{StrSliceExecFns, StringExecFns};

verus! {

/// The most characters of a proof that a report shows.
pub const PREVIEW_LENGTH: usize = 50;

/// The greeting and the first question.
pub open spec fn welcome() -> Seq<char> {
    "ZK Insurance Verifier Server\n============================\nEnter age (10-25): "@
}

/// The second question.
pub open spec fn bmi_prompt() -> Seq<char> {
    "Enter BMI multiplied by 10 (185-249): "@
}

/// What is said while the proof is being made.
pub open spec fn proving_notice() -> Seq<char> {
    "Generating proof...\n"@
}

/// The last thing an orderly session says.
pub open spec fn farewell() -> Seq<char> {
    "\nConnection will close. Thanks for using ZK Insurance Verifier!\n"@
}

/// What the peer is told when a line it sent for `field` is no number: the
/// message of the error, on a line of its own.
pub open spec fn invalid_input_notice(field: Field) -> Seq<char> {
    session_failure_message(SessionErrorView::InvalidInput { field }) + "\n"@
}

/// A truth value in words.
pub open spec fn truth(value: bool) -> Seq<char> {
    if value {
        "true"@
    } else {
        "false"@
    }
}

/// The head of every report: whether the attempt succeeded, and its message.
pub open spec fn report_header(result: ProofResultView) -> Seq<char> {
    "\n=== PROOF RESPONSE ===\nSuccess: "@ + truth(result.success) + "\nMessage: "@
        + result.message + "\n"@
}

/// The part of `proof` that a report shows: all of it up to
/// [`PREVIEW_LENGTH`] characters.
pub open spec fn preview_of(proof: Seq<char>) -> Seq<char> {
    if proof.len() <= PREVIEW_LENGTH {
        proof
    } else {
        proof.take(PREVIEW_LENGTH as int)
    }
}

/// The line of a report that shows the beginning of the proof.
pub open spec fn proof_preview(proof: Seq<char>) -> Seq<char> {
    "\nProof (Base64): "@ + preview_of(proof) + "...\n"@
}

/// A number of tenths, written with one decimal place.
pub open spec fn tenths(n: nat) -> Seq<char> {
    decimal(n / 10) + "."@ + decimal(n % 10)
}

/// The lines of a report that show the policy: ages as they are, the
/// body-mass index as the ratio it stands for.
pub open spec fn bounds_summary(bounds: PolicyBounds) -> Seq<char> {
    "\nAge Range: "@ + decimal(bounds.min_age as nat) + " - "@ + decimal(bounds.max_age as nat)
        + "\nBMI Range: "@ + tenths(bounds.min_bmi_scaled as nat) + " - "@ + tenths(
        bounds.max_bmi_scaled as nat,
    ) + "\n"@
}

/// The part of a report that shows the result in structured form.
pub open spec fn structured_block(structured: Seq<char>) -> Seq<char> {
    "\nFull JSON Response:\n"@ + structured + "\n"@
}

/// The whole report of `result`, whose structured form is `structured`: the
/// head, the beginning of the proof, the policy and the structured form, for
/// a failure as for a success. The proof of a failure is empty, and so is
/// what is shown of it.
pub open spec fn report_text(result: ProofResultView, structured: Seq<char>) -> Seq<char> {
    report_header(result) + proof_preview(result.proof) + bounds_summary(result.public_inputs)
        + structured_block(structured)
}

/// The name of the file that stores a result reported at time `now`.
pub open spec fn proof_file_name(now: int) -> Seq<char> {
    "proof_"@ + signed_decimal(now) + ".json"@
}

/// What the peer is told once the result is stored in `file_name`.
pub open spec fn saved_notice(file_name: Seq<char>) -> Seq<char> {
    "Proof saved to: "@ + file_name + "\n"@
}

/// The last words of a session whose result was stored in `stored`, if it
/// was stored at all.
pub open spec fn closing_text(stored: Option<Seq<char>>) -> Seq<char> {
    match stored {
        Some(file_name) => saved_notice(file_name) + farewell(),
        None => farewell(),
    }
}

fn push_tenths(out: &mut String, n: u32)
    ensures
        final(out)@ == old(out)@ + tenths(n as nat),
{
    push_decimal(out, (n / 10) as u64);
    out.append(".");
    push_decimal(out, (n % 10) as u64);
    assert(out@ =~= old(out)@ + tenths(n as nat));
}

/// Renders the whole report of `result`, whose structured form is
/// `structured`.
pub fn render_report(result: &ProofResult, structured: &str) -> (text: String)
    ensures
        text@ == report_text(result@, structured@),
{
    let mut text = String::from_str("\n=== PROOF RESPONSE ===\nSuccess: ");
    text.append(if result.success { "true" } else { "false" });
    text.append("\nMessage: ");
    text.append(result.message.as_str());
    text.append("\n");
    assert(text@ =~= report_header(result@));
    let proof = result.proof.as_str();
    let length: usize = proof.unicode_len();
    let shown: usize = if length <= PREVIEW_LENGTH {
        length
    } else {
        PREVIEW_LENGTH
    };
    let preview = proof.substring_char(0, shown);
    assert(preview@ =~= preview_of(result@.proof));
    text.append("\nProof (Base64): ");
    text.append(preview);
    text.append("...\n");
    assert(text@ =~= report_header(result@) + proof_preview(result@.proof));
    let ghost before = text@;
    let bounds = result.public_inputs;
    text.append("\nAge Range: ");
    push_decimal(&mut text, bounds.min_age as u64);
    text.append(" - ");
    push_decimal(&mut text, bounds.max_age as u64);
    text.append("\nBMI Range: ");
    push_tenths(&mut text, bounds.min_bmi_scaled);
    text.append(" - ");
    push_tenths(&mut text, bounds.max_bmi_scaled);
    text.append("\n");
    assert(text@ =~= before + bounds_summary(bounds));
    let ghost before = text@;
    text.append("\nFull JSON Response:\n");
    text.append(structured);
    text.append("\n");
    assert(text@ =~= before + structured_block(structured@));
    text
}

/// The name of the file that stores a result reported at time `now`.
pub fn name_proof_file(now: i64) -> (file_name: String)
    ensures
        file_name@ == proof_file_name(now as int),
{
    let mut file_name = String::from_str("proof_");
    push_signed_decimal(&mut file_name, now);
    file_name.append(".json");
    file_name
}

/// The last words of a session whose result was stored in `stored`, if it
/// was stored at all.
pub fn render_closing(stored: Option<String>) -> (text: String)
    ensures
        text@ == closing_text(
            match stored {
                Some(file_name) => Some(file_name@),
                None => None,
            },
        ),
{
    let mut text = String::new();
    match stored {
        Some(file_name) => {
            text.append("Proof saved to: ");
            text.append(file_name.as_str());
            text.append("\n");
            assert(text@ =~= saved_notice(file_name@));
        },
        None => {},
    }
    text.append("\nConnection will close. Thanks for using ZK Insurance Verifier!\n");
    text
}

} // verus!
