//! One proof attempt, as a machine that says what to do next.
//!
//! An attempt needs a directory of its own, two template files copied into
//! it, the rendered input file, two runs of the circuit tool and the witness
//! that the second run leaves behind. None of that is done here. The machine
//! hands out one [`AttemptAction`] at a time and is told by an
//! [`AttemptEvent`] what came of it; [`step`] is the whole of its behaviour.

use crate::artifact::{
    clock_seconds, encode_artifact, encoded_length, in_base64_alphabet, max_encodable,
    placeholder_key, placeholder_verification_key, standard_base64,
};
use crate::error::{AttemptError, AttemptErrorView};
use crate::model::{
    PolicyBounds, ProofRequest, ProofResult, ProofResultView, ToolOutcome, ToolOutcomeView,
};
use crate::template::{config_text, render};
use vstd::prelude::*;
use vstd::string::StringExecFns;

verus! {

/// The two things the circuit tool is asked to do, in this order.
#[derive(Clone, Copy, Debug, PartialEq, Eq, Structural)]
pub enum ToolVerb {
    Compile,
    Execute,
}

/// What the caller is to do next. Paths are relative: those of template
/// files to the template location and to the workspace alike, the others to
/// the workspace.
#[derive(Clone, Debug, PartialEq, Eq)]
pub enum AttemptAction {
    /// Create a fresh directory that no other attempt uses.
    CreateWorkspace,
    /// Copy the file at `path` under `template_root` to `path` in the
    /// workspace.
    CopyTemplate { template_root: String, path: String },
    /// Create the directory `path` in the workspace.
    CreateDirectory { path: String },
    /// Write `text` to the file `path` in the workspace.
    WriteFile { path: String, text: String },
    /// Run the tool with `verb`, the workspace as its working directory.
    RunTool { verb: ToolVerb },
    /// Read the file `path` in the workspace.
    ReadArtifact { path: String },
    /// Remove the workspace and all that is in it.
    RemoveWorkspace,
    /// The attempt is over, and this is its result.
    Finish { result: ProofResult },
}

/// An [`AttemptAction`] as contracts see it.
pub enum AttemptActionView {
    CreateWorkspace,
    CopyTemplate { template_root: Seq<char>, path: Seq<char> },
    CreateDirectory { path: Seq<char> },
    WriteFile { path: Seq<char>, text: Seq<char> },
    RunTool { verb: ToolVerb },
    ReadArtifact { path: Seq<char> },
    RemoveWorkspace,
    Finish { result: ProofResultView },
}

impl View for AttemptAction {
    type V = AttemptActionView;

    open spec fn view(&self) -> AttemptActionView {
        match *self {
            AttemptAction::CreateWorkspace => AttemptActionView::CreateWorkspace,
            AttemptAction::CopyTemplate { template_root, path } => AttemptActionView::CopyTemplate {
                template_root: template_root@,
                path: path@,
            },
            AttemptAction::CreateDirectory { path } => AttemptActionView::CreateDirectory {
                path: path@,
            },
            AttemptAction::WriteFile { path, text } => AttemptActionView::WriteFile {
                path: path@,
                text: text@,
            },
            AttemptAction::RunTool { verb } => AttemptActionView::RunTool { verb },
            AttemptAction::ReadArtifact { path } => AttemptActionView::ReadArtifact { path: path@ },
            AttemptAction::RemoveWorkspace => AttemptActionView::RemoveWorkspace,
            AttemptAction::Finish { result } => AttemptActionView::Finish { result: result@ },
        }
    }
}

/// What came of the action that was handed out last.
#[derive(Clone, Debug, PartialEq, Eq)]
pub enum AttemptEvent {
    /// It was carried out.
    Done,
    /// It could not be carried out.
    Failed { diagnostic: String },
    /// The tool ran and exited.
    ToolExited { outcome: ToolOutcome },
    /// The file was read, and these are its bytes.
    ArtifactRead { bytes: Vec<u8> },
    /// There is no such file.
    ArtifactAbsent,
}

/// An [`AttemptEvent`] as contracts see it.
pub enum AttemptEventView {
    Done,
    Failed { diagnostic: Seq<char> },
    ToolExited { outcome: ToolOutcomeView },
    ArtifactRead { bytes: Seq<u8> },
    ArtifactAbsent,
}

impl View for AttemptEvent {
    type V = AttemptEventView;

    open spec fn view(&self) -> AttemptEventView {
        match *self {
            AttemptEvent::Done => AttemptEventView::Done,
            AttemptEvent::Failed { diagnostic } => AttemptEventView::Failed {
                diagnostic: diagnostic@,
            },
            AttemptEvent::ToolExited { outcome } => AttemptEventView::ToolExited {
                outcome: outcome@,
            },
            AttemptEvent::ArtifactRead { bytes } => AttemptEventView::ArtifactRead { bytes: bytes@ },
            AttemptEvent::ArtifactAbsent => AttemptEventView::ArtifactAbsent,
        }
    }
}

impl AttemptEventView {
    /// What the event has to say when it stands for a failure: its own
    /// diagnostic where it carries one, a fixed remark where it is an answer
    /// that does not fit the question.
    pub open spec fn diagnostic(self) -> Seq<char> {
        match self {
            AttemptEventView::Failed { diagnostic } => diagnostic,
            AttemptEventView::ToolExited { outcome } => outcome.diagnostic,
            _ => unexpected_response(),
        }
    }

    /// Whether the event says that the tool ran and exited with success.
    pub open spec fn tool_succeeded(self) -> bool {
        self matches AttemptEventView::ToolExited { outcome } && outcome.succeeded
    }
}

/// The diagnostic of an answer that does not fit the question.
pub open spec fn unexpected_response() -> Seq<char> {
    "unexpected response"@
}

/// The diagnostic of a witness too long to encode.
pub open spec fn oversized_witness() -> Seq<char> {
    "the witness is too large to encode"@
}

/// The project file of the circuit, in the template and in the workspace.
pub open spec fn manifest_path() -> Seq<char> {
    "Nargo.toml"@
}

/// The directory of the circuit's source, in the workspace.
pub open spec fn source_directory() -> Seq<char> {
    "src"@
}

/// The circuit's source file, in the template and in the workspace.
pub open spec fn source_path() -> Seq<char> {
    "src/main.nr"@
}

/// The input file, in the workspace.
pub open spec fn config_path() -> Seq<char> {
    "Prover.toml"@
}

/// Where the tool leaves the witness, in the workspace.
pub open spec fn artifact_path() -> Seq<char> {
    "target/insurance_verifier.gz"@
}

/// How far an attempt has come: each stage but the last is named after the
/// action whose outcome is awaited.
pub enum StageView {
    CreatingWorkspace,
    CopyingManifest,
    CreatingSourceDirectory,
    CopyingSource,
    WritingConfig,
    Compiling,
    Executing,
    Extracting,
    /// The workspace is being removed; `result` is what the attempt came to.
    Releasing { result: ProofResultView },
    Finished,
}

enum Stage {
    CreatingWorkspace,
    CopyingManifest,
    CreatingSourceDirectory,
    CopyingSource,
    WritingConfig,
    Compiling,
    Executing,
    Extracting,
    Releasing { result: ProofResult },
    Finished,
}

impl View for Stage {
    type V = StageView;

    closed spec fn view(&self) -> StageView {
        match *self {
            Stage::CreatingWorkspace => StageView::CreatingWorkspace,
            Stage::CopyingManifest => StageView::CopyingManifest,
            Stage::CreatingSourceDirectory => StageView::CreatingSourceDirectory,
            Stage::CopyingSource => StageView::CopyingSource,
            Stage::WritingConfig => StageView::WritingConfig,
            Stage::Compiling => StageView::Compiling,
            Stage::Executing => StageView::Executing,
            Stage::Extracting => StageView::Extracting,
            Stage::Releasing { result } => StageView::Releasing { result: result@ },
            Stage::Finished => StageView::Finished,
        }
    }
}

/// One proof attempt in progress.
pub struct Attempt {
    stage: Stage,
    request: ProofRequest,
    bounds: PolicyBounds,
    template_root: String,
}

/// An [`Attempt`] as contracts see it.
pub struct AttemptView {
    pub stage: StageView,
    pub request: ProofRequest,
    pub bounds: PolicyBounds,
    pub template_root: Seq<char>,
}

impl View for Attempt {
    type V = AttemptView;

    closed spec fn view(&self) -> AttemptView {
        AttemptView {
            stage: self.stage@,
            request: self.request,
            bounds: self.bounds,
            template_root: self.template_root@,
        }
    }
}

impl AttemptView {
    /// An attempt that has just asked for its workspace.
    pub open spec fn begun(
        request: ProofRequest,
        bounds: PolicyBounds,
        template_root: Seq<char>,
    ) -> AttemptView {
        AttemptView { stage: StageView::CreatingWorkspace, request, bounds, template_root }
    }

    /// The attempt at another stage.
    pub open spec fn at(self, stage: StageView) -> AttemptView {
        AttemptView { stage, ..self }
    }

    /// Whether a workspace exists that this attempt has yet to remove.
    pub open spec fn holds_workspace(self) -> bool {
        !(self.stage is CreatingWorkspace || self.stage is Finished)
    }

    /// The attempt goes on: it moves to `stage` and asks for `action`.
    pub open spec fn proceed(self, stage: StageView, action: AttemptActionView) -> (
        AttemptView,
        Option<AttemptActionView>,
    ) {
        (self.at(stage), Some(action))
    }

    /// The attempt has come to `result` and asks for its workspace to be
    /// removed before it says so.
    pub open spec fn release(self, result: ProofResultView) -> (
        AttemptView,
        Option<AttemptActionView>,
    ) {
        self.proceed(StageView::Releasing { result }, AttemptActionView::RemoveWorkspace)
    }

    /// The attempt has failed with `error` while it holds a workspace.
    pub open spec fn fail(self, error: AttemptErrorView) -> (
        AttemptView,
        Option<AttemptActionView>,
    ) {
        self.release(ProofResultView::failed(error, self.bounds))
    }

    /// The attempt is over and hands out `result`.
    pub open spec fn finish(self, result: ProofResultView) -> (
        AttemptView,
        Option<AttemptActionView>,
    ) {
        self.proceed(StageView::Finished, AttemptActionView::Finish { result })
    }
}

/// What the witness `bytes`, read at time `now`, makes of an attempt under
/// `bounds`: a result with the encoded witness and a placeholder key, or, for
/// a witness too long to encode, a failure.
pub open spec fn extraction(bytes: Seq<u8>, now: int, bounds: PolicyBounds) -> ProofResultView {
    if bytes.len() <= max_encodable() {
        ProofResultView::witnessed(standard_base64(bytes), placeholder_key(now), bounds)
    } else {
        ProofResultView::failed(
            AttemptErrorView::ArtifactUnreadable { diagnostic: oversized_witness() },
            bounds,
        )
    }
}

/// The machine: from a state and the outcome of the action it asked for, at
/// time `now`, to the next state and the next action.
///
/// The stages follow one another in a fixed order, and each is entered only
/// when the one before it succeeded. A failure before there is a workspace
/// ends the attempt at once; a failure after that, like success, first has
/// the workspace removed. A finished attempt asks for nothing more.
pub open spec fn step(state: AttemptView, event: AttemptEventView, now: int) -> (
    AttemptView,
    Option<AttemptActionView>,
) {
    match state.stage {
        StageView::CreatingWorkspace => if event is Done {
            state.proceed(
                StageView::CopyingManifest,
                AttemptActionView::CopyTemplate {
                    template_root: state.template_root,
                    path: manifest_path(),
                },
            )
        } else {
            state.finish(
                ProofResultView::failed(
                    AttemptErrorView::Workspace { diagnostic: event.diagnostic() },
                    state.bounds,
                ),
            )
        },
        StageView::CopyingManifest => if event is Done {
            state.proceed(
                StageView::CreatingSourceDirectory,
                AttemptActionView::CreateDirectory { path: source_directory() },
            )
        } else {
            state.fail(AttemptErrorView::Workspace { diagnostic: event.diagnostic() })
        },
        StageView::CreatingSourceDirectory => if event is Done {
            state.proceed(
                StageView::CopyingSource,
                AttemptActionView::CopyTemplate {
                    template_root: state.template_root,
                    path: source_path(),
                },
            )
        } else {
            state.fail(AttemptErrorView::Workspace { diagnostic: event.diagnostic() })
        },
        StageView::CopyingSource => if event is Done {
            state.proceed(
                StageView::WritingConfig,
                AttemptActionView::WriteFile {
                    path: config_path(),
                    text: config_text(state.request, state.bounds),
                },
            )
        } else {
            state.fail(AttemptErrorView::Workspace { diagnostic: event.diagnostic() })
        },
        StageView::WritingConfig => if event is Done {
            state.proceed(
                StageView::Compiling,
                AttemptActionView::RunTool { verb: ToolVerb::Compile },
            )
        } else {
            state.fail(AttemptErrorView::Workspace { diagnostic: event.diagnostic() })
        },
        StageView::Compiling => match event {
            AttemptEventView::ToolExited { outcome } => if outcome.succeeded {
                state.proceed(
                    StageView::Executing,
                    AttemptActionView::RunTool { verb: ToolVerb::Execute },
                )
            } else {
                state.fail(AttemptErrorView::CompileFailed { diagnostic: outcome.diagnostic })
            },
            _ => state.fail(
                AttemptErrorView::ToolNotStarted {
                    verb: ToolVerb::Compile,
                    diagnostic: event.diagnostic(),
                },
            ),
        },
        StageView::Executing => match event {
            AttemptEventView::ToolExited { outcome } => if outcome.succeeded {
                state.proceed(
                    StageView::Extracting,
                    AttemptActionView::ReadArtifact { path: artifact_path() },
                )
            } else {
                state.fail(AttemptErrorView::ExecuteFailed { diagnostic: outcome.diagnostic })
            },
            _ => state.fail(
                AttemptErrorView::ToolNotStarted {
                    verb: ToolVerb::Execute,
                    diagnostic: event.diagnostic(),
                },
            ),
        },
        StageView::Extracting => match event {
            AttemptEventView::ArtifactRead { bytes } => state.release(
                extraction(bytes, now, state.bounds),
            ),
            AttemptEventView::ArtifactAbsent => state.fail(AttemptErrorView::ArtifactMissing),
            _ => state.fail(
                AttemptErrorView::ArtifactUnreadable { diagnostic: event.diagnostic() },
            ),
        },
        StageView::Releasing { result } => state.finish(result),
        StageView::Finished => (state, None),
    }
}

/// Whether `action`, which may be absent, is what a step of the machine
/// calls for.
pub open spec fn answers(action: Option<AttemptAction>, expected: Option<AttemptActionView>) -> bool {
    match action {
        Some(action) => expected == Some(action@),
        None => expected is None,
    }
}

fn diagnostic_of(event: AttemptEvent) -> (diagnostic: String)
    ensures
        diagnostic@ == event@.diagnostic(),
{
    match event {
        AttemptEvent::Failed { diagnostic } => diagnostic,
        AttemptEvent::ToolExited { outcome } => outcome.diagnostic,
        _ => String::from_str("unexpected response"),
    }
}

fn is_done(event: &AttemptEvent) -> (yes: bool)
    ensures
        yes == (event@ is Done),
{
    match event {
        AttemptEvent::Done => true,
        _ => false,
    }
}

/// Makes a result of the witness `bytes`, read at time `now`. The proof of a
/// result that reports success is written in the base64 alphabet and is as
/// long as the encoding of so many bytes is.
pub fn extract(bytes: &[u8], now: i64, bounds: PolicyBounds) -> (result: ProofResult)
    ensures
        result@ == extraction(bytes@, now as int, bounds),
        result@.well_formed(),
        result@.success ==> in_base64_alphabet(result@.proof) && result@.proof.len()
            == encoded_length(bytes@.len()),
{
    match encode_artifact(bytes) {
        Some(proof) => ProofResult::witnessed(proof, placeholder_verification_key(now), bounds),
        None => ProofResult::failed(
            &AttemptError::ArtifactUnreadable {
                diagnostic: String::from_str("the witness is too large to encode"),
            },
            bounds,
        ),
    }
}

impl Attempt {
    /// Begins an attempt for `request` under `bounds`, with the circuit's
    /// template at `template_root`. The first thing to do is to create the
    /// workspace.
    pub fn begin(request: ProofRequest, bounds: PolicyBounds, template_root: String) -> (begun: (
        Attempt,
        AttemptAction,
    ))
        ensures
            begun.0@ == AttemptView::begun(request, bounds, template_root@),
            begun.1@ == AttemptActionView::CreateWorkspace,
    {
        (
            Attempt { stage: Stage::CreatingWorkspace, request, bounds, template_root },
            AttemptAction::CreateWorkspace,
        )
    }

    /// Whether the attempt is over.
    pub fn is_finished(&self) -> (yes: bool)
        ensures
            yes == (self@.stage is Finished),
    {
        match self.stage {
            Stage::Finished => true,
            _ => false,
        }
    }

    /// Whether a workspace exists that the attempt has yet to remove.
    pub fn holds_workspace(&self) -> (yes: bool)
        ensures
            yes == self@.holds_workspace(),
    {
        match self.stage {
            Stage::CreatingWorkspace => false,
            Stage::Finished => false,
            _ => true,
        }
    }

    /// Whether the next step will read the clock if it is told `event`: only
    /// a witness that has just been read is stamped with the time.
    pub fn stamps(&self, event: &AttemptEvent) -> (yes: bool)
        ensures
            yes == (self@.stage is Extracting && event@ is ArtifactRead),
    {
        match self.stage {
            Stage::Extracting => match event {
                AttemptEvent::ArtifactRead { .. } => true,
                _ => false,
            },
            _ => false,
        }
    }

    fn fail(&mut self, error: AttemptError) -> (action: AttemptAction)
        ensures
            (final(self)@, Some(action@)) == old(self)@.fail(error@),
    {
        self.stage = Stage::Releasing { result: ProofResult::failed(&error, self.bounds) };
        AttemptAction::RemoveWorkspace
    }

    /// Takes the outcome of the action that was handed out last, at time
    /// `now`, and says what to do next: exactly what [`step`] lays down.
    /// Nothing is handed out once the attempt is over.
    pub fn advance_at(&mut self, event: AttemptEvent, now: i64) -> (action: Option<AttemptAction>)
        ensures
            answers(action, step(old(self)@, event@, now as int).1),
            final(self)@ == step(old(self)@, event@, now as int).0,
            final(self)@.stage matches StageView::Releasing { result } ==> (result.success
                ==> in_base64_alphabet(result.proof)),
    {
        let mut stage = Stage::Finished;
        core::mem::swap(&mut self.stage, &mut stage);
        match stage {
            Stage::CreatingWorkspace => {
                if is_done(&event) {
                    self.stage = Stage::CopyingManifest;
                    Some(
                        AttemptAction::CopyTemplate {
                            template_root: self.template_root.clone(),
                            path: String::from_str("Nargo.toml"),
                        },
                    )
                } else {
                    let error = AttemptError::Workspace { diagnostic: diagnostic_of(event) };
                    Some(AttemptAction::Finish { result: ProofResult::failed(&error, self.bounds) })
                }
            },
            Stage::CopyingManifest => {
                if is_done(&event) {
                    self.stage = Stage::CreatingSourceDirectory;
                    Some(AttemptAction::CreateDirectory { path: String::from_str("src") })
                } else {
                    Some(self.fail(AttemptError::Workspace { diagnostic: diagnostic_of(event) }))
                }
            },
            Stage::CreatingSourceDirectory => {
                if is_done(&event) {
                    self.stage = Stage::CopyingSource;
                    Some(
                        AttemptAction::CopyTemplate {
                            template_root: self.template_root.clone(),
                            path: String::from_str("src/main.nr"),
                        },
                    )
                } else {
                    Some(self.fail(AttemptError::Workspace { diagnostic: diagnostic_of(event) }))
                }
            },
            Stage::CopyingSource => {
                if is_done(&event) {
                    self.stage = Stage::WritingConfig;
                    Some(
                        AttemptAction::WriteFile {
                            path: String::from_str("Prover.toml"),
                            text: render(&self.request, &self.bounds),
                        },
                    )
                } else {
                    Some(self.fail(AttemptError::Workspace { diagnostic: diagnostic_of(event) }))
                }
            },
            Stage::WritingConfig => {
                if is_done(&event) {
                    self.stage = Stage::Compiling;
                    Some(AttemptAction::RunTool { verb: ToolVerb::Compile })
                } else {
                    Some(self.fail(AttemptError::Workspace { diagnostic: diagnostic_of(event) }))
                }
            },
            Stage::Compiling => {
                match event {
                    AttemptEvent::ToolExited { outcome } => {
                        if outcome.succeeded {
                            self.stage = Stage::Executing;
                            Some(AttemptAction::RunTool { verb: ToolVerb::Execute })
                        } else {
                            Some(
                                self.fail(
                                    AttemptError::CompileFailed { diagnostic: outcome.diagnostic },
                                ),
                            )
                        }
                    },
                    other => Some(
                        self.fail(
                            AttemptError::ToolNotStarted {
                                verb: ToolVerb::Compile,
                                diagnostic: diagnostic_of(other),
                            },
                        ),
                    ),
                }
            },
            Stage::Executing => {
                match event {
                    AttemptEvent::ToolExited { outcome } => {
                        if outcome.succeeded {
                            self.stage = Stage::Extracting;
                            Some(
                                AttemptAction::ReadArtifact {
                                    path: String::from_str("target/insurance_verifier.gz"),
                                },
                            )
                        } else {
                            Some(
                                self.fail(
                                    AttemptError::ExecuteFailed { diagnostic: outcome.diagnostic },
                                ),
                            )
                        }
                    },
                    other => Some(
                        self.fail(
                            AttemptError::ToolNotStarted {
                                verb: ToolVerb::Execute,
                                diagnostic: diagnostic_of(other),
                            },
                        ),
                    ),
                }
            },
            Stage::Extracting => {
                match event {
                    AttemptEvent::ArtifactRead { bytes } => {
                        self.stage = Stage::Releasing {
                            result: extract(bytes.as_slice(), now, self.bounds),
                        };
                        Some(AttemptAction::RemoveWorkspace)
                    },
                    AttemptEvent::ArtifactAbsent => Some(self.fail(AttemptError::ArtifactMissing)),
                    other => Some(
                        self.fail(
                            AttemptError::ArtifactUnreadable { diagnostic: diagnostic_of(other) },
                        ),
                    ),
                }
            },
            Stage::Releasing { result } => Some(AttemptAction::Finish { result }),
            Stage::Finished => None,
        }
    }

    /// Takes the outcome of the action that was handed out last and says
    /// what to do next, reading the system clock where the step stamps its
    /// result with the time: what [`step`] lays down for some time `now`.
    pub fn advance(&mut self, event: AttemptEvent) -> (action: Option<AttemptAction>)
        ensures
            exists|now: int|
                answers(action, #[trigger] step(old(self)@, event@, now).1) && final(self)@ == step(
                    old(self)@,
                    event@,
                    now,
                ).0,
    {
        let now: i64 = if self.stamps(&event) {
            clock_seconds()
        } else {
            0
        };
        self.advance_at(event, now)
    }
}

} // verus!
