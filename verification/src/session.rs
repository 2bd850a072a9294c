//! One connection, as a machine that says what to do next.
//!
//! A session asks its peer for an age and for a body-mass index, has one
//! proof made of them, reports what came of it and closes. It neither reads
//! nor writes: it hands out one [`SessionAction`] at a time and is told by a
//! [`SessionEvent`] what came of it; [`session_step`] is the whole of its
//! behaviour.

use crate::artifact::clock_seconds;
use crate::error::{Field, SessionError, SessionErrorView};
use crate::model::{ProofRequest, ProofResult, ProofResultView};
use crate::report::{
    bmi_prompt, closing_text, invalid_input_notice, name_proof_file, proof_file_name,
    proving_notice, render_closing, render_report, report_text, welcome,
};
use crate::text::{field_value, parse_field};
use vstd::prelude::*;
use vstd::string::StringExecFns;

verus! {

/// What the caller is to do next. Whatever text an action carries is sent to
/// the peer first, and the connection flushed.
#[derive(Clone, Debug, PartialEq, Eq)]
pub enum SessionAction {
    /// Send `text`, then read one line from the peer.
    Prompt { text: String },
    /// Send `text`, then make one proof attempt for `request`.
    Prove { text: String, request: ProofRequest },
    /// Send `text`.
    Report { text: String },
    /// Send `text`, then write `contents` to a new file named `file_name`.
    ReportAndStore { text: String, file_name: String, contents: String },
    /// Send `text`, then close the connection.
    Close { text: String },
    /// Send `text`, then close the connection: the session has failed with
    /// `error`.
    Abort { text: String, error: SessionError },
}

/// A [`SessionAction`] as contracts see it.
pub enum SessionActionView {
    Prompt { text: Seq<char> },
    Prove { text: Seq<char>, request: ProofRequest },
    Report { text: Seq<char> },
    ReportAndStore { text: Seq<char>, file_name: Seq<char>, contents: Seq<char> },
    Close { text: Seq<char> },
    Abort { text: Seq<char>, error: SessionErrorView },
}

impl View for SessionAction {
    type V = SessionActionView;

    open spec fn view(&self) -> SessionActionView {
        match *self {
            SessionAction::Prompt { text } => SessionActionView::Prompt { text: text@ },
            SessionAction::Prove { text, request } => SessionActionView::Prove {
                text: text@,
                request,
            },
            SessionAction::Report { text } => SessionActionView::Report { text: text@ },
            SessionAction::ReportAndStore {
                text,
                file_name,
                contents,
            } => SessionActionView::ReportAndStore {
                text: text@,
                file_name: file_name@,
                contents: contents@,
            },
            SessionAction::Close { text } => SessionActionView::Close { text: text@ },
            SessionAction::Abort { text, error } => SessionActionView::Abort {
                text: text@,
                error: error@,
            },
        }
    }
}

/// What came of the action that was handed out last.
#[derive(Clone, Debug, PartialEq, Eq)]
pub enum SessionEvent {
    /// The peer sent this line.
    Line { text: String },
    /// The attempt came to `result`, whose structured form is `structured`.
    Proved { result: ProofResult, structured: String },
    /// It was carried out.
    Done,
    /// It could not be carried out.
    Failed { diagnostic: String },
}

/// A [`SessionEvent`] as contracts see it.
pub enum SessionEventView {
    Line { text: Seq<char> },
    Proved { result: ProofResultView, structured: Seq<char> },
    Done,
    Failed { diagnostic: Seq<char> },
}

impl View for SessionEvent {
    type V = SessionEventView;

    open spec fn view(&self) -> SessionEventView {
        match *self {
            SessionEvent::Line { text } => SessionEventView::Line { text: text@ },
            SessionEvent::Proved { result, structured } => SessionEventView::Proved {
                result: result@,
                structured: structured@,
            },
            SessionEvent::Done => SessionEventView::Done,
            SessionEvent::Failed { diagnostic } => SessionEventView::Failed {
                diagnostic: diagnostic@,
            },
        }
    }
}

/// The states of a session.
pub enum SessionState {
    /// The age has been asked for.
    AwaitingAge,
    /// The body-mass index has been asked for.
    AwaitingBmi { age: u32 },
    /// The proof is being made.
    Proving { request: ProofRequest },
    /// The report is being delivered, and the result stored in `stored` if
    /// the attempt succeeded.
    Reporting { stored: Option<Seq<char>> },
    /// The connection is closed, or is being closed.
    Closed,
}

enum State {
    AwaitingAge,
    AwaitingBmi { age: u32 },
    Proving { request: ProofRequest },
    Reporting { stored: Option<String> },
    Closed,
}

impl View for State {
    type V = SessionState;

    closed spec fn view(&self) -> SessionState {
        match *self {
            State::AwaitingAge => SessionState::AwaitingAge,
            State::AwaitingBmi { age } => SessionState::AwaitingBmi { age },
            State::Proving { request } => SessionState::Proving { request },
            State::Reporting { stored } => SessionState::Reporting {
                stored: match stored {
                    Some(file_name) => Some(file_name@),
                    None => None,
                },
            },
            State::Closed => SessionState::Closed,
        }
    }
}

/// One connection in progress.
pub struct Session {
    state: State,
}

impl View for Session {
    type V = SessionState;

    closed spec fn view(&self) -> SessionState {
        self.state@
    }
}

/// The end of a session that has failed: `text` is sent to the peer and the
/// connection closed.
pub open spec fn abort(text: Seq<char>, error: SessionErrorView) -> (
    SessionState,
    Option<SessionActionView>,
) {
    (SessionState::Closed, Some(SessionActionView::Abort { text, error }))
}

/// The end of a session that was told `event` where it can make nothing of
/// it: a failure to read or write, or an answer to a question it had not
/// asked. The peer is told nothing more.
pub open spec fn give_up(event: SessionEventView) -> (SessionState, Option<SessionActionView>) {
    match event {
        SessionEventView::Failed { diagnostic } => abort(
            Seq::empty(),
            SessionErrorView::Io { diagnostic },
        ),
        _ => abort(Seq::empty(), SessionErrorView::OutOfTurn),
    }
}

/// The end of a session whose peer sent for `field` a line that is no
/// number: the peer is told so.
pub open spec fn reject(field: Field) -> (SessionState, Option<SessionActionView>) {
    abort(invalid_input_notice(field), SessionErrorView::InvalidInput { field })
}

/// The machine: from a state and the outcome of the action it asked for, at
/// time `now`, to the next state and the next action.
///
/// Each field is asked for once; a line that is not an unsigned number ends
/// the session there and then. One proof is made. Its result is reported
/// whether it succeeded or not, and stored if it did, under a name that
/// holds the time. Then the session closes, and a closed session asks for
/// nothing more.
pub open spec fn session_step(state: SessionState, event: SessionEventView, now: int) -> (
    SessionState,
    Option<SessionActionView>,
) {
    match state {
        SessionState::AwaitingAge => match event {
            SessionEventView::Line { text } => match field_value(text) {
                Some(age) => (
                    SessionState::AwaitingBmi { age },
                    Some(SessionActionView::Prompt { text: bmi_prompt() }),
                ),
                None => reject(Field::Age),
            },
            _ => give_up(event),
        },
        SessionState::AwaitingBmi { age } => match event {
            SessionEventView::Line { text } => match field_value(text) {
                Some(bmi_scaled) => (
                    SessionState::Proving { request: ProofRequest { age, bmi_scaled } },
                    Some(
                        SessionActionView::Prove {
                            text: proving_notice(),
                            request: ProofRequest { age, bmi_scaled },
                        },
                    ),
                ),
                None => reject(Field::Bmi),
            },
            _ => give_up(event),
        },
        SessionState::Proving { request } => match event {
            SessionEventView::Proved { result, structured } => if result.success {
                (
                    SessionState::Reporting { stored: Some(proof_file_name(now)) },
                    Some(
                        SessionActionView::ReportAndStore {
                            text: report_text(result, structured),
                            file_name: proof_file_name(now),
                            contents: structured,
                        },
                    ),
                )
            } else {
                (
                    SessionState::Reporting { stored: None },
                    Some(SessionActionView::Report { text: report_text(result, structured) }),
                )
            },
            _ => give_up(event),
        },
        SessionState::Reporting { stored } => match event {
            SessionEventView::Done => (
                SessionState::Closed,
                Some(SessionActionView::Close { text: closing_text(stored) }),
            ),
            _ => give_up(event),
        },
        SessionState::Closed => (SessionState::Closed, None),
    }
}

/// Whether `action`, which may be absent, is what a step of the machine
/// calls for.
pub open spec fn fulfils(action: Option<SessionAction>, expected: Option<SessionActionView>) -> bool {
    match action {
        Some(action) => expected == Some(action@),
        None => expected is None,
    }
}

fn give_up_on(event: SessionEvent) -> (action: SessionAction)
    ensures
        Some(action@) == give_up(event@).1,
{
    match event {
        SessionEvent::Failed { diagnostic } => SessionAction::Abort {
            text: String::new(),
            error: SessionError::Io { diagnostic },
        },
        _ => SessionAction::Abort { text: String::new(), error: SessionError::OutOfTurn },
    }
}

fn reject_field(field: Field) -> (action: SessionAction)
    ensures
        Some(action@) == reject(field).1,
{
    let error = SessionError::InvalidInput { field };
    let text = error.message().concat("\n");
    SessionAction::Abort { text, error }
}

impl Session {
    /// Opens a session. The first thing to do is to greet the peer and ask
    /// for the age.
    pub fn open() -> (opened: (Session, SessionAction))
        ensures
            opened.0@ == SessionState::AwaitingAge,
            opened.1@ == (SessionActionView::Prompt { text: welcome() }),
    {
        (
            Session { state: State::AwaitingAge },
            SessionAction::Prompt {
                text: String::from_str(
                    "ZK Insurance Verifier Server\n============================\nEnter age (10-25): ",
                ),
            },
        )
    }

    /// Whether the session is closed.
    pub fn is_closed(&self) -> (yes: bool)
        ensures
            yes == (self@ is Closed),
    {
        match self.state {
            State::Closed => true,
            _ => false,
        }
    }

    /// Whether the next step will read the clock if it is told `event`: only
    /// a result that is to be stored is stamped with the time.
    pub fn stamps(&self, event: &SessionEvent) -> (yes: bool)
        ensures
            yes == (self@ is Proving && event@ is Proved && event@->result.success),
    {
        match self.state {
            State::Proving { .. } => match event {
                SessionEvent::Proved { result, .. } => result.success,
                _ => false,
            },
            _ => false,
        }
    }

    /// Takes the outcome of the action that was handed out last, at time
    /// `now`, and says what to do next: exactly what [`session_step`] lays
    /// down. Nothing is handed out once the session is closed.
    pub fn advance_at(&mut self, event: SessionEvent, now: i64) -> (action: Option<SessionAction>)
        ensures
            fulfils(action, session_step(old(self)@, event@, now as int).1),
            final(self)@ == session_step(old(self)@, event@, now as int).0,
    {
        let mut state = State::Closed;
        core::mem::swap(&mut self.state, &mut state);
        match state {
            State::AwaitingAge => match event {
                SessionEvent::Line { text } => match parse_field(text.as_str()) {
                    Some(age) => {
                        self.state = State::AwaitingBmi { age };
                        Some(
                            SessionAction::Prompt {
                                text: String::from_str("Enter BMI multiplied by 10 (185-249): "),
                            },
                        )
                    },
                    None => Some(reject_field(Field::Age)),
                },
                other => Some(give_up_on(other)),
            },
            State::AwaitingBmi { age } => match event {
                SessionEvent::Line { text } => match parse_field(text.as_str()) {
                    Some(bmi_scaled) => {
                        let request = ProofRequest { age, bmi_scaled };
                        self.state = State::Proving { request };
                        Some(
                            SessionAction::Prove {
                                text: String::from_str("Generating proof...\n"),
                                request,
                            },
                        )
                    },
                    None => Some(reject_field(Field::Bmi)),
                },
                other => Some(give_up_on(other)),
            },
            State::Proving { request } => match event {
                SessionEvent::Proved { result, structured } => {
                    let text = render_report(&result, structured.as_str());
                    if result.success {
                        let file_name = name_proof_file(now);
                        self.state = State::Reporting { stored: Some(file_name.clone()) };
                        Some(SessionAction::ReportAndStore { text, file_name, contents: structured })
                    } else {
                        self.state = State::Reporting { stored: None };
                        Some(SessionAction::Report { text })
                    }
                },
                other => Some(give_up_on(other)),
            },
            State::Reporting { stored } => match event {
                SessionEvent::Done => Some(SessionAction::Close { text: render_closing(stored) }),
                other => Some(give_up_on(other)),
            },
            State::Closed => None,
        }
    }

    /// Takes the outcome of the action that was handed out last and says
    /// what to do next, reading the system clock where the step stamps a
    /// file name with the time: what [`session_step`] lays down for some
    /// time `now`.
    pub fn advance(&mut self, event: SessionEvent) -> (action: Option<SessionAction>)
        ensures
            exists|now: int|
                fulfils(action, #[trigger] session_step(old(self)@, event@, now).1) && final(self)@
                    == session_step(old(self)@, event@, now).0,
    {
        let now: i64 = if self.stamps(&event) {
            clock_seconds()
        } else {
            0
        };
        self.advance_at(event, now)
    }
}

} // verus!
