//! Whole runs of a session, and what holds of every one of them.
//!
//! A run is the sequence of outcomes that a session is told, one after the
//! other, from the moment it has greeted its peer. Nothing is assumed of the
//! outcomes.

use crate::error::{Field, SessionErrorView};
use crate::model::{ProofRequest, ProofResultView};
use crate::report::{closing_text, proof_file_name, proving_notice, report_text};
use crate::session::{reject, session_step, SessionActionView, SessionEventView, SessionState};
use crate::text::field_value;
use vstd::prelude::*;

verus! {

/// One outcome that a session is told, and the time at which it is told.
pub struct SessionInput {
    pub event: SessionEventView,
    pub now: int,
}

/// The state of a session that has been told `inputs` since it opened.
pub open spec fn session_after(inputs: Seq<SessionInput>) -> SessionState
    decreases inputs.len(),
{
    if inputs.len() == 0 {
        SessionState::AwaitingAge
    } else {
        session_step(session_after(inputs.drop_last()), inputs.last().event, inputs.last().now).0
    }
}

/// What a session asks for on being told `inputs[i]`, having been told all
/// that comes before it.
pub open spec fn session_reply(inputs: Seq<SessionInput>, i: int) -> Option<SessionActionView>
    recommends
        0 <= i < inputs.len(),
{
    session_step(session_after(inputs.take(i)), inputs[i].event, inputs[i].now).1
}

/// The place of a state in the order of states.
pub open spec fn rank(state: SessionState) -> int {
    match state {
        SessionState::AwaitingAge => 0,
        SessionState::AwaitingBmi { .. } => 1,
        SessionState::Proving { .. } => 2,
        SessionState::Reporting { .. } => 3,
        SessionState::Closed => 4,
    }
}

/// Being told one more outcome is one more step.
pub proof fn lemma_session_after_step(inputs: Seq<SessionInput>, k: int)
    requires
        0 < k <= inputs.len(),
    ensures
        session_after(inputs.take(k)) == session_step(
            session_after(inputs.take(k - 1)),
            inputs[k - 1].event,
            inputs[k - 1].now,
        ).0,
{
    assert(inputs.take(k).drop_last() =~= inputs.take(k - 1));
    assert(inputs.take(k).last() == inputs[k - 1]);
}

/// Every step moves a session on to the next state or closes it, and a
/// closed session stays closed and asks for nothing: there is no way back to
/// the first question.
pub proof fn lemma_session_moves_on(state: SessionState, event: SessionEventView, now: int)
    ensures
        !(state is Closed) ==> rank(session_step(state, event, now).0) == rank(state) + 1
            || session_step(state, event, now).0 is Closed,
        state is Closed ==> session_step(state, event, now) == (
            SessionState::Closed,
            None::<SessionActionView>,
        ),
{
}

/// While a session is open, its state tells how many outcomes it has been
/// told.
pub proof fn lemma_state_counts_inputs(inputs: Seq<SessionInput>, k: int)
    requires
        0 <= k <= inputs.len(),
    ensures
        !(session_after(inputs.take(k)) is Closed) ==> rank(session_after(inputs.take(k))) == k,
    decreases k,
{
    if k > 0 {
        lemma_state_counts_inputs(inputs, k - 1);
        lemma_session_after_step(inputs, k);
        lemma_session_moves_on(
            session_after(inputs.take(k - 1)),
            inputs[k - 1].event,
            inputs[k - 1].now,
        );
    }
}

/// A session is closed after four outcomes at the latest, whatever they are.
pub proof fn lemma_session_closes(inputs: Seq<SessionInput>)
    requires
        inputs.len() >= 4,
    ensures
        session_after(inputs) is Closed,
{
    assert(inputs.take(inputs.len() as int) =~= inputs);
    lemma_state_counts_inputs(inputs, inputs.len() as int);
}

/// Two lines that are unsigned numbers get one proof attempt, for exactly
/// those numbers, whatever the numbers are; the result of the attempt is
/// reported, stored if it reports success, and the session closes.
pub proof fn lemma_valid_fields_are_proved(
    inputs: Seq<SessionInput>,
    age: u32,
    bmi_scaled: u32,
    result: ProofResultView,
    structured: Seq<char>,
)
    requires
        inputs.len() == 4,
        inputs[0].event is Line,
        field_value(inputs[0].event->Line_text) == Some(age),
        inputs[1].event is Line,
        field_value(inputs[1].event->Line_text) == Some(bmi_scaled),
        inputs[2].event == (SessionEventView::Proved { result, structured }),
        inputs[3].event is Done,
    ensures
        session_reply(inputs, 1) == Some(
            SessionActionView::Prove {
                text: proving_notice(),
                request: ProofRequest { age, bmi_scaled },
            },
        ),
        result.success ==> session_reply(inputs, 2) == Some(
            SessionActionView::ReportAndStore {
                text: report_text(result, structured),
                file_name: proof_file_name(inputs[2].now),
                contents: structured,
            },
        ),
        !result.success ==> session_reply(inputs, 2) == Some(
            SessionActionView::Report { text: report_text(result, structured) },
        ),
        session_reply(inputs, 3) == Some(
            SessionActionView::Close {
                text: closing_text(
                    if result.success {
                        Some(proof_file_name(inputs[2].now))
                    } else {
                        None
                    },
                ),
            },
        ),
        session_after(inputs) is Closed,
{
    assert(inputs.take(0) =~= Seq::<SessionInput>::empty());
    lemma_session_after_step(inputs, 1);
    lemma_session_after_step(inputs, 2);
    lemma_session_after_step(inputs, 3);
    lemma_session_after_step(inputs, 4);
    assert(inputs.take(4) =~= inputs);
}

/// A proof is attempted only for two fields that were read: the session
/// asks for one in answer to its second line, both lines being unsigned
/// numbers, and the request holds those numbers.
pub proof fn lemma_proof_needs_both_fields(
    inputs: Seq<SessionInput>,
    i: int,
    text: Seq<char>,
    request: ProofRequest,
)
    requires
        0 <= i < inputs.len(),
        session_reply(inputs, i) == Some(SessionActionView::Prove { text, request }),
    ensures
        i == 1,
        inputs[0].event is Line,
        field_value(inputs[0].event->Line_text) == Some(request.age),
        inputs[1].event is Line,
        field_value(inputs[1].event->Line_text) == Some(request.bmi_scaled),
{
    lemma_state_counts_inputs(inputs, i);
    lemma_session_after_step(inputs, i);
    assert(inputs.take(0) =~= Seq::<SessionInput>::empty());
}

/// One connection, one attempt: a session asks for a proof once and no more.
pub proof fn lemma_one_proof(inputs: Seq<SessionInput>, i: int, j: int)
    requires
        0 <= i < inputs.len(),
        0 <= j < inputs.len(),
        session_reply(inputs, i) is Some,
        session_reply(inputs, i)->Some_0 is Prove,
        session_reply(inputs, j) is Some,
        session_reply(inputs, j)->Some_0 is Prove,
    ensures
        i == j,
{
    lemma_state_counts_inputs(inputs, i);
    lemma_state_counts_inputs(inputs, j);
}

/// A first line that is no unsigned number ends the session at once: the
/// peer is told, the session is closed with the error, and no proof is ever
/// asked for, so that no workspace comes to be.
pub proof fn lemma_invalid_age_ends_session(inputs: Seq<SessionInput>, i: int)
    requires
        0 <= i < inputs.len(),
        inputs[0].event is Line,
        field_value(inputs[0].event->Line_text) is None,
    ensures
        session_reply(inputs, 0) == reject(Field::Age).1,
        session_reply(inputs, 0)->Some_0->Abort_error == (SessionErrorView::InvalidInput {
            field: Field::Age,
        }),
        session_after(inputs.take(1)) is Closed,
        !(session_reply(inputs, i) is Some && session_reply(inputs, i)->Some_0 is Prove),
{
    assert(inputs.take(0) =~= Seq::<SessionInput>::empty());
    lemma_session_after_step(inputs, 1);
    if session_reply(inputs, i) is Some && session_reply(inputs, i)->Some_0 is Prove {
        let action = session_reply(inputs, i)->Some_0;
        lemma_proof_needs_both_fields(inputs, i, action->Prove_text, action->Prove_request);
    }
}

/// What is reported is the result that the attempt came to: a report
/// follows the attempt at once, renders the result it was handed, and is
/// stored exactly when that result reports success.
pub proof fn lemma_report_is_of_the_result(inputs: Seq<SessionInput>, i: int)
    requires
        0 <= i < inputs.len(),
        session_reply(inputs, i) is Some,
        session_reply(inputs, i)->Some_0 is Report || session_reply(inputs, i)->Some_0
            is ReportAndStore,
    ensures
        i == 2,
        inputs[2].event is Proved,
        session_reply(inputs, 1) is Some && session_reply(inputs, 1)->Some_0 is Prove,
        session_reply(inputs, 2)->Some_0 is ReportAndStore <==> inputs[2].event->result.success,
        session_reply(inputs, 2)->Some_0 is Report ==> session_reply(inputs, 2)->Some_0->Report_text
            == report_text(inputs[2].event->result, inputs[2].event->structured),
        session_reply(inputs, 2)->Some_0 is ReportAndStore ==> session_reply(
            inputs,
            2,
        )->Some_0->ReportAndStore_text == report_text(
            inputs[2].event->result,
            inputs[2].event->structured,
        ),
{
    lemma_state_counts_inputs(inputs, i);
    lemma_session_after_step(inputs, i);
    lemma_state_counts_inputs(inputs, i - 1);
}

} // verus!
