//! Whole runs of an attempt, and what holds of every one of them.
//!
//! A run is the sequence of outcomes that an attempt is told, one after the
//! other, from the moment it has asked for its workspace. Nothing is assumed
//! of the outcomes: they may be failures, or answers to questions that were
//! never asked.

use crate::artifact::{max_encodable, placeholder_key, standard_base64};
use crate::attempt::{
    artifact_path, config_path, extraction, step, AttemptActionView, AttemptEventView, AttemptView,
    StageView, ToolVerb,
};
use crate::model::ProofResultView;
use crate::template::config_text;
use vstd::prelude::*;

verus! {

/// One outcome that an attempt is told, and the time at which it is told.
pub struct Input {
    pub event: AttemptEventView,
    pub now: int,
}

/// The state of an attempt that began in `start` and has been told `inputs`.
pub open spec fn state_after(start: AttemptView, inputs: Seq<Input>) -> AttemptView
    decreases inputs.len(),
{
    if inputs.len() == 0 {
        start
    } else {
        step(state_after(start, inputs.drop_last()), inputs.last().event, inputs.last().now).0
    }
}

/// What an attempt that began in `start` asks for on being told
/// `inputs[i]`, having been told all that comes before it.
pub open spec fn reply(start: AttemptView, inputs: Seq<Input>, i: int) -> Option<
    AttemptActionView,
>
    recommends
        0 <= i < inputs.len(),
{
    step(state_after(start, inputs.take(i)), inputs[i].event, inputs[i].now).1
}

/// The place of a stage in the order of stages.
pub open spec fn ordinal(stage: StageView) -> int {
    match stage {
        StageView::CreatingWorkspace => 0,
        StageView::CopyingManifest => 1,
        StageView::CreatingSourceDirectory => 2,
        StageView::CopyingSource => 3,
        StageView::WritingConfig => 4,
        StageView::Compiling => 5,
        StageView::Executing => 6,
        StageView::Extracting => 7,
        StageView::Releasing { .. } => 8,
        StageView::Finished => 9,
    }
}

/// The request to run the tool with `verb`.
pub open spec fn run_tool(verb: ToolVerb) -> Option<AttemptActionView> {
    Some(AttemptActionView::RunTool { verb })
}

/// Being told one more outcome is one more step.
pub proof fn lemma_state_after_step(start: AttemptView, inputs: Seq<Input>, k: int)
    requires
        0 < k <= inputs.len(),
    ensures
        state_after(start, inputs.take(k)) == step(
            state_after(start, inputs.take(k - 1)),
            inputs[k - 1].event,
            inputs[k - 1].now,
        ).0,
{
    assert(inputs.take(k).drop_last() =~= inputs.take(k - 1));
    assert(inputs.take(k).last() == inputs[k - 1]);
}

/// Every step but one out of the last stage moves an attempt to a later
/// stage, and leaves what it works on untouched.
pub proof fn lemma_step_moves_on(state: AttemptView, event: AttemptEventView, now: int)
    ensures
        !(state.stage is Finished) ==> ordinal(step(state, event, now).0.stage) > ordinal(
            state.stage,
        ),
        state.stage is Finished ==> step(state, event, now) == (state, None::<AttemptActionView>),
        step(state, event, now).0.request == state.request,
        step(state, event, now).0.bounds == state.bounds,
        step(state, event, now).0.template_root == state.template_root,
{
}

/// An attempt is over after ten outcomes at the latest, whatever they are,
/// and stays over.
pub proof fn lemma_attempt_finishes(start: AttemptView, inputs: Seq<Input>)
    requires
        inputs.len() >= 10 - ordinal(start.stage),
    ensures
        state_after(start, inputs).stage is Finished,
{
    lemma_ordinal_grows(start, inputs);
}

proof fn lemma_ordinal_grows(start: AttemptView, inputs: Seq<Input>)
    ensures
        ordinal(state_after(start, inputs).stage) >= ordinal(start.stage),
        ordinal(state_after(start, inputs).stage) >= 9 || ordinal(state_after(start, inputs).stage)
            >= ordinal(start.stage) + inputs.len(),
    decreases inputs.len(),
{
    if inputs.len() > 0 {
        lemma_ordinal_grows(start, inputs.drop_last());
        lemma_step_moves_on(
            state_after(start, inputs.drop_last()),
            inputs.last().event,
            inputs.last().now,
        );
    }
}

/// While an attempt that began by asking for its workspace is still at
/// work, its stage tells how many outcomes it has been told; and it still
/// works on what it began with.
pub proof fn lemma_stage_counts_inputs(start: AttemptView, inputs: Seq<Input>, k: int)
    requires
        start.stage is CreatingWorkspace,
        0 <= k <= inputs.len(),
    ensures
        ordinal(state_after(start, inputs.take(k)).stage) <= 7 ==> ordinal(
            state_after(start, inputs.take(k)).stage,
        ) == k,
        ordinal(state_after(start, inputs.take(k)).stage) >= 8 ==> k >= 1,
        state_after(start, inputs.take(k)).request == start.request,
        state_after(start, inputs.take(k)).bounds == start.bounds,
        state_after(start, inputs.take(k)).template_root == start.template_root,
    decreases k,
{
    if k > 0 {
        lemma_stage_counts_inputs(start, inputs, k - 1);
        lemma_state_after_step(start, inputs, k);
    }
}

/// Compile comes before execute: an attempt asks for the circuit to be
/// executed only in answer to the news that compiling it, which it asked for
/// just before, succeeded.
pub proof fn lemma_execute_follows_compile(start: AttemptView, inputs: Seq<Input>, i: int)
    requires
        start.stage is CreatingWorkspace,
        0 <= i < inputs.len(),
        reply(start, inputs, i) == run_tool(ToolVerb::Execute),
    ensures
        i >= 1,
        reply(start, inputs, i - 1) == run_tool(ToolVerb::Compile),
        inputs[i].event.tool_succeeded(),
{
    let before = state_after(start, inputs.take(i));
    assert(before.stage is Compiling);
    lemma_stage_counts_inputs(start, inputs, i);
    lemma_state_after_step(start, inputs, i);
}

/// Execute comes before extraction: an attempt asks for the witness to be
/// read only in answer to the news that executing the circuit, which it
/// asked for just before, succeeded.
pub proof fn lemma_extract_follows_execute(start: AttemptView, inputs: Seq<Input>, i: int)
    requires
        start.stage is CreatingWorkspace,
        0 <= i < inputs.len(),
        reply(start, inputs, i) is Some,
        reply(start, inputs, i)->Some_0 is ReadArtifact,
    ensures
        i >= 1,
        reply(start, inputs, i) == Some(AttemptActionView::ReadArtifact { path: artifact_path() }),
        reply(start, inputs, i - 1) == run_tool(ToolVerb::Execute),
        inputs[i].event.tool_succeeded(),
{
    let before = state_after(start, inputs.take(i));
    assert(before.stage is Executing);
    lemma_stage_counts_inputs(start, inputs, i);
    lemma_state_after_step(start, inputs, i);
}

/// A result reports success only if both runs of the tool did: the attempt
/// asked for the circuit to be compiled and was told of success, then asked
/// for it to be executed and was told of success, all before the result.
pub proof fn lemma_success_needs_both_phases(
    start: AttemptView,
    inputs: Seq<Input>,
    i: int,
    result: ProofResultView,
)
    requires
        start.stage is CreatingWorkspace,
        0 <= i < inputs.len(),
        reply(start, inputs, i) == Some(AttemptActionView::Finish { result }),
        result.success,
    ensures
        exists|c: int, x: int|
            0 <= c < x < i && #[trigger] reply(start, inputs, c) == run_tool(ToolVerb::Compile)
                && inputs[c + 1].event.tool_succeeded() && #[trigger] reply(start, inputs, x)
                == run_tool(ToolVerb::Execute) && inputs[x + 1].event.tool_succeeded(),
{
    let releasing = state_after(start, inputs.take(i));
    assert(releasing.stage == StageView::Releasing { result });
    lemma_stage_counts_inputs(start, inputs, i);
    lemma_state_after_step(start, inputs, i);
    let extracting = state_after(start, inputs.take(i - 1));
    assert(extracting.stage is Extracting);
    lemma_stage_counts_inputs(start, inputs, i - 1);
    lemma_state_after_step(start, inputs, i - 1);
    let executing = state_after(start, inputs.take(i - 2));
    assert(executing.stage is Executing);
    assert(inputs[i - 2].event.tool_succeeded());
    lemma_stage_counts_inputs(start, inputs, i - 2);
    lemma_state_after_step(start, inputs, i - 2);
    let compiling = state_after(start, inputs.take(i - 3));
    assert(compiling.stage is Compiling);
    assert(inputs[i - 3].event.tool_succeeded());
    assert(reply(start, inputs, i - 3) == run_tool(ToolVerb::Execute));
    lemma_execute_follows_compile(start, inputs, i - 3);
    assert(reply(start, inputs, i - 4) == run_tool(ToolVerb::Compile));
}

/// A result that reports success carries the witness that was read, encoded,
/// under the bounds that the attempt began with.
pub proof fn lemma_success_carries_witness(
    start: AttemptView,
    inputs: Seq<Input>,
    i: int,
    result: ProofResultView,
)
    requires
        start.stage is CreatingWorkspace,
        0 <= i < inputs.len(),
        reply(start, inputs, i) == Some(AttemptActionView::Finish { result }),
        result.success,
    ensures
        i >= 2,
        inputs[i - 1].event is ArtifactRead,
        result == extraction(inputs[i - 1].event->bytes, inputs[i - 1].now, start.bounds),
{
    let releasing = state_after(start, inputs.take(i));
    assert(releasing.stage == StageView::Releasing { result });
    lemma_stage_counts_inputs(start, inputs, i);
    lemma_state_after_step(start, inputs, i);
    lemma_stage_counts_inputs(start, inputs, i - 1);
}

/// Success is both runs succeeding. Take an attempt whose workspace is
/// created and filled, whose tool runs whenever it is asked to, and whose
/// witness, when the circuit was executed, is read and can be encoded. Its
/// result reports success exactly when compiling and executing both did, and
/// then carries that witness, encoded; otherwise it carries no proof and no
/// key.
pub proof fn lemma_success_is_both_phases(
    start: AttemptView,
    inputs: Seq<Input>,
    i: int,
    result: ProofResultView,
)
    requires
        start.stage is CreatingWorkspace,
        inputs.len() >= 6,
        forall|k: int| 0 <= k < 5 ==> (#[trigger] inputs[k]).event is Done,
        inputs[5].event is ToolExited,
        inputs[5].event.tool_succeeded() ==> inputs.len() >= 7 && inputs[6].event is ToolExited,
        inputs[5].event.tool_succeeded() && inputs[6].event.tool_succeeded() ==> inputs.len() >= 8
            && inputs[7].event is ArtifactRead && inputs[7].event->bytes.len() <= max_encodable(),
        0 <= i < inputs.len(),
        reply(start, inputs, i) == Some(AttemptActionView::Finish { result }),
    ensures
        result.success == (inputs[5].event.tool_succeeded() && inputs[6].event.tool_succeeded()),
        result.success ==> result.proof == standard_base64(inputs[7].event->bytes),
        !result.success ==> result.proof.len() == 0 && result.verification_key.len() == 0,
        result.public_inputs == start.bounds,
{
    lemma_prepared(start, inputs);
    let before = state_after(start, inputs.take(i - 1));
    let at = state_after(start, inputs.take(i));
    assert(i >= 1 && at.stage == StageView::Releasing { result }) by {
        lemma_stage_counts_inputs(start, inputs, i);
    }
    lemma_state_after_step(start, inputs, i);
    lemma_stage_counts_inputs(start, inputs, i - 1);
    assert(ordinal(before.stage) == i - 1);
    if i - 1 == 5 {
        assert(!inputs[5].event.tool_succeeded());
    } else if i - 1 == 6 {
        lemma_state_after_step(start, inputs, 6);
        assert(inputs[5].event.tool_succeeded());
        assert(!inputs[6].event.tool_succeeded());
    } else if i - 1 == 7 {
        lemma_state_after_step(start, inputs, 6);
        lemma_state_after_step(start, inputs, 7);
        assert(state_after(start, inputs.take(6)).stage is Executing);
        assert(inputs[5].event.tool_succeeded());
        assert(inputs[6].event.tool_succeeded());
    }
}

/// Five steps of preparation that are carried out bring an attempt to the
/// point where it waits for the circuit to be compiled.
proof fn lemma_prepared(start: AttemptView, inputs: Seq<Input>)
    requires
        start.stage is CreatingWorkspace,
        inputs.len() >= 5,
        forall|k: int| 0 <= k < 5 ==> (#[trigger] inputs[k]).event is Done,
    ensures
        forall|k: int|
            0 <= k <= 5 ==> ordinal(#[trigger] state_after(start, inputs.take(k)).stage) == k,
        state_after(start, inputs.take(5)).bounds == start.bounds,
{
    assert(inputs.take(0) =~= Seq::<Input>::empty());
    assert(inputs[0].event is Done && inputs[1].event is Done && inputs[2].event is Done);
    assert(inputs[3].event is Done && inputs[4].event is Done);
    lemma_state_after_step(start, inputs, 1);
    lemma_state_after_step(start, inputs, 2);
    lemma_state_after_step(start, inputs, 3);
    lemma_state_after_step(start, inputs, 4);
    lemma_state_after_step(start, inputs, 5);
}

/// When nothing fails there is a witness: five steps of preparation that
/// are carried out, two runs of the tool that succeed and a witness that is
/// read and can be encoded end, once the workspace is removed, in a result
/// that reports success and carries that witness.
pub proof fn lemma_all_goes_well(start: AttemptView, inputs: Seq<Input>, bytes: Seq<u8>)
    requires
        start.stage is CreatingWorkspace,
        inputs.len() == 9,
        forall|i: int| 0 <= i < 5 ==> (#[trigger] inputs[i]).event is Done,
        inputs[5].event.tool_succeeded(),
        inputs[6].event.tool_succeeded(),
        inputs[7].event == (AttemptEventView::ArtifactRead { bytes }),
        bytes.len() <= max_encodable(),
    ensures
        reply(start, inputs, 4) == run_tool(ToolVerb::Compile),
        reply(start, inputs, 5) == run_tool(ToolVerb::Execute),
        reply(start, inputs, 7) == Some(AttemptActionView::RemoveWorkspace),
        reply(start, inputs, 8) == Some(
            AttemptActionView::Finish {
                result: ProofResultView::witnessed(
                    standard_base64(bytes),
                    placeholder_key(inputs[7].now),
                    start.bounds,
                ),
            },
        ),
        state_after(start, inputs).stage is Finished,
{
    assert(inputs.take(0) =~= Seq::<Input>::empty());
    assert(inputs[0].event is Done && inputs[1].event is Done && inputs[2].event is Done);
    assert(inputs[3].event is Done && inputs[4].event is Done);
    lemma_state_after_step(start, inputs, 1);
    lemma_state_after_step(start, inputs, 2);
    lemma_state_after_step(start, inputs, 3);
    lemma_state_after_step(start, inputs, 4);
    lemma_state_after_step(start, inputs, 5);
    lemma_state_after_step(start, inputs, 6);
    lemma_state_after_step(start, inputs, 7);
    lemma_state_after_step(start, inputs, 8);
    lemma_state_after_step(start, inputs, 9);
    assert(inputs.take(9) =~= inputs);
}

/// An attempt writes the input file of its own request and of no other: the
/// one file it asks to be written is the input file, and its text is the
/// rendering of the request and the bounds that the attempt began with.
pub proof fn lemma_config_is_of_own_request(start: AttemptView, inputs: Seq<Input>, i: int)
    requires
        start.stage is CreatingWorkspace,
        0 <= i < inputs.len(),
        reply(start, inputs, i) is Some,
        reply(start, inputs, i)->Some_0 is WriteFile,
    ensures
        reply(start, inputs, i) == Some(
            AttemptActionView::WriteFile {
                path: config_path(),
                text: config_text(start.request, start.bounds),
            },
        ),
{
    lemma_stage_counts_inputs(start, inputs, i);
}

/// Every result is well formed: one that reports failure carries neither a
/// proof nor a key.
pub proof fn lemma_result_well_formed(
    start: AttemptView,
    inputs: Seq<Input>,
    i: int,
    result: ProofResultView,
)
    requires
        start.stage is CreatingWorkspace,
        0 <= i < inputs.len(),
        reply(start, inputs, i) == Some(AttemptActionView::Finish { result }),
    ensures
        result.well_formed(),
        result.public_inputs == start.bounds,
{
    lemma_stage_counts_inputs(start, inputs, i);
    if i > 0 {
        lemma_state_after_step(start, inputs, i);
        lemma_stage_counts_inputs(start, inputs, i - 1);
    } else {
        assert(inputs.take(0) =~= Seq::<Input>::empty());
    }
}

/// An attempt hands out one result and no more.
pub proof fn lemma_one_result(start: AttemptView, inputs: Seq<Input>, i: int, j: int)
    requires
        0 <= i < inputs.len(),
        0 <= j < inputs.len(),
        reply(start, inputs, i) is Some,
        reply(start, inputs, i)->Some_0 is Finish,
        reply(start, inputs, j) is Some,
        reply(start, inputs, j)->Some_0 is Finish,
    ensures
        i == j,
{
    if i < j {
        lemma_finished_for_good(start, inputs, i, j);
    } else if j < i {
        lemma_finished_for_good(start, inputs, j, i);
    }
}

proof fn lemma_finished_for_good(start: AttemptView, inputs: Seq<Input>, i: int, j: int)
    requires
        0 <= i < j <= inputs.len(),
        reply(start, inputs, i) is Some,
        reply(start, inputs, i)->Some_0 is Finish,
    ensures
        state_after(start, inputs.take(j)).stage is Finished,
    decreases j - i,
{
    lemma_state_after_step(start, inputs, j);
    if j > i + 1 {
        lemma_finished_for_good(start, inputs, i, j - 1);
    }
}

/// No result while a workspace remains: an attempt hands out its result
/// either at once, when it could not get a workspace, or in answer to the
/// removal of the workspace, which it asked for just before.
pub proof fn lemma_result_follows_removal(start: AttemptView, inputs: Seq<Input>, i: int)
    requires
        start.stage is CreatingWorkspace,
        0 <= i < inputs.len(),
        reply(start, inputs, i) is Some,
        reply(start, inputs, i)->Some_0 is Finish,
    ensures
        i == 0 ==> !(inputs[0].event is Done),
        i > 0 ==> reply(start, inputs, i - 1) == Some(AttemptActionView::RemoveWorkspace),
        !state_after(start, inputs.take(i + 1)).holds_workspace(),
{
    lemma_stage_counts_inputs(start, inputs, i);
    lemma_state_after_step(start, inputs, i + 1);
    if i > 0 {
        lemma_state_after_step(start, inputs, i);
    } else {
        assert(inputs.take(0) =~= Seq::<Input>::empty());
    }
}

} // verus!
