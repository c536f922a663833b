//! The dependency audit: the command line of the auditor, the records it
//! reports on its error stream, the annotation lines made of them, and the
//! run as a whole.

pub mod annotation;
pub mod record;

use crate::audit::annotation::{render_line, rendering, Rendered, RenderedView};
use crate::audit::record::decoded;
use crate::process::{extend, plain, push_text, Invocation, InvocationView};
use crate::text::{text_view, texts};
use std::marker::PhantomData;
use vstd::prelude::*;

verus! {

/// Whether the value of the continuous integration variable says that the
/// run is under continuous integration: it is set and not empty.
pub open spec fn on_ci(ci: Option<String>) -> bool {
    ci matches Some(value) && value@.len() > 0
}

/// Whether the run is under continuous integration, given the value of the
/// variable that signals it.
pub fn executing_on_ci(ci: &Option<String>) -> (streaming: bool)
    ensures
        streaming == on_ci(*ci),
{
    match ci {
        Some(value) => !value.as_str().is_empty(),
        None => false,
    }
}

/// The arguments handed to `cargo`: the auditor's subcommand, the request
/// for machine readable output when streaming, the configured arguments, the
/// check, and the caller's subcommand argument if there is one.
pub open spec fn command_line(
    streaming: bool,
    config_args: Seq<Seq<char>>,
    command: Option<Seq<char>>,
) -> Seq<Seq<char>> {
    seq!["deny"@] + (if streaming {
        seq!["--format=json"@]
    } else {
        Seq::empty()
    }) + config_args + seq!["check"@] + (match command {
        Some(command) => seq![command],
        None => Seq::empty(),
    })
}

/// The invocation of the auditor.
pub open spec fn launch(
    streaming: bool,
    config_args: Seq<Seq<char>>,
    command: Option<Seq<char>>,
) -> InvocationView {
    InvocationView {
        program: "cargo"@,
        args: command_line(streaming, config_args, command),
        env: Seq::empty(),
    }
}

/// Assembles the invocation of the auditor.
pub fn assemble(streaming: bool, config_args: &Vec<String>, command: &Option<String>) -> (invocation:
    Invocation)
    ensures
        invocation@ == launch(streaming, texts(config_args@), text_view(*command)),
{
    let mut args: Vec<String> = Vec::new();
    push_text(&mut args, "deny");
    if streaming {
        push_text(&mut args, "--format=json");
    }
    extend(&mut args, config_args);
    push_text(&mut args, "check");
    match command {
        Some(command) => push_text(&mut args, command.as_str()),
        None => {},
    }
    assert(texts(args@) =~= command_line(streaming, texts(config_args@), text_view(*command)));
    plain("cargo", args)
}

/// The arguments that the default configuration adds: all features, and no
/// check of the `xtask` workspace member where there is one.
pub open spec fn default_args(xtask_present: bool) -> Seq<Seq<char>> {
    if xtask_present {
        seq!["--all-features"@, "--exclude=xtask"@]
    } else {
        seq!["--all-features"@]
    }
}

/// The arguments of the default configuration.
pub fn default_config_args(xtask_present: bool) -> (args: Vec<String>)
    ensures
        texts(args@) == default_args(xtask_present),
{
    let mut args: Vec<String> = Vec::new();
    push_text(&mut args, "--all-features");
    if xtask_present {
        push_text(&mut args, "--exclude=xtask");
    }
    assert(texts(args@) =~= default_args(xtask_present));
    args
}

/// The configuration of the audit.
pub trait Config {
    /// The arguments to `cargo deny` that stand before the check.
    /// `xtask_present` says whether the working directory holds `xtask`.
    /// Unless a configuration says otherwise, they are the default ones.
    fn args(xtask_present: bool) -> (args: Vec<String>)
        default_ensures
            texts(args@) == default_args(xtask_present),
    {
        default_config_args(xtask_present)
    }
}

/// The configuration used where none is given.
pub struct DefaultConfig;

impl Config for DefaultConfig {
    fn args(xtask_present: bool) -> (args: Vec<String>)
        ensures
            texts(args@) == default_args(xtask_present),
    {
        default_config_args(xtask_present)
    }
}

/// Where a run of the audit stands.
#[derive(Clone, Copy, Debug, PartialEq, Eq, Structural)]
pub enum State {
    /// Nothing has been started.
    Idle,
    /// The command line is assembled and the auditor is being started.
    Running { streaming: bool },
    /// The auditor runs and its error stream is read line by line.
    StreamingOutput,
    /// The auditor runs on the caller's own streams.
    BufferedRun,
    /// The auditor has exited; `success` mirrors its exit status.
    Completed { success: bool },
    /// The auditor could not be started, or a buffered run exited with a
    /// status other than zero.
    Failed,
}

/// What happened outside since the last step.
pub enum Event {
    /// The audit is asked for, with the caller's subcommand argument, the
    /// value of the continuous integration variable, and the arguments that
    /// the configuration adds.
    Start { command: Option<String>, ci: Option<String>, config_args: Vec<String> },
    /// The auditor was started.
    Spawned,
    /// The auditor could not be started.
    SpawnFailed,
    /// The auditor wrote one line to its error stream.
    Line { line: String },
    /// The error stream is exhausted, or cannot be read.
    EndOfStream,
    /// The auditor exited, with status zero if `success`.
    Exited { success: bool },
}

/// What to do outside before the next step.
pub enum Action {
    /// Start the auditor; capture its error stream if `capture`, else let it
    /// inherit the caller's streams.
    Spawn { invocation: Invocation, capture: bool },
    /// Read the error stream, and report each line and its end.
    Read,
    /// Write what became of a line, then go on reading.
    Write { rendered: Rendered },
    /// Wait for the auditor to exit.
    Wait,
    /// The run is over, successfully or not.
    Finish { success: bool },
    /// The event does not apply to the state: nothing to do.
    Nothing,
}

/// The mathematical value of an [`Action`].
pub enum ActionView {
    Spawn { invocation: InvocationView, capture: bool },
    Read,
    Write { rendered: RenderedView },
    Wait,
    Finish { success: bool },
    Nothing,
}

impl View for Action {
    type V = ActionView;

    open spec fn view(&self) -> ActionView {
        match self {
            Action::Spawn { invocation, capture } => ActionView::Spawn {
                invocation: invocation@,
                capture: *capture,
            },
            Action::Read => ActionView::Read,
            Action::Write { rendered } => ActionView::Write { rendered: rendered@ },
            Action::Wait => ActionView::Wait,
            Action::Finish { success } => ActionView::Finish { success: *success },
            Action::Nothing => ActionView::Nothing,
        }
    }
}

impl State {
    /// Whether the run is over.
    pub open spec fn is_terminal(self) -> bool {
        self is Completed || self is Failed
    }

    /// Whether the run is over and succeeded; nothing while it is not over.
    pub open spec fn outcome(self) -> Option<bool> {
        match self {
            State::Completed { success } => Some(success),
            State::Failed => Some(false),
            _ => None,
        }
    }
}

/// The audit, one step at a time: it decides, and its caller acts.
pub struct Audit<C: Config> {
    state: State,
    _config: PhantomData<C>,
}

impl<C: Config> Audit<C> {
    /// Where the run stands.
    pub closed spec fn spec_state(&self) -> State {
        self.state
    }

    /// The state that follows `state` on `event`, and what to do then.
    ///
    /// A run starts streaming exactly when it is under continuous
    /// integration. A streamed run mirrors the auditor's exit status; a
    /// buffered run fails on a status other than zero.
    pub open spec fn transition(state: State, event: Event) -> (State, ActionView) {
        match (state, event) {
            (State::Idle, Event::Start { command, ci, config_args }) => (
                State::Running { streaming: on_ci(ci) },
                ActionView::Spawn {
                    invocation: launch(on_ci(ci), texts(config_args@), text_view(command)),
                    capture: on_ci(ci),
                },
            ),
            (State::Running { streaming }, Event::Spawned) => if streaming {
                (State::StreamingOutput, ActionView::Read)
            } else {
                (State::BufferedRun, ActionView::Wait)
            },
            (State::Running { .. }, Event::SpawnFailed) => (
                State::Failed,
                ActionView::Finish { success: false },
            ),
            (State::StreamingOutput, Event::Line { line }) => (
                State::StreamingOutput,
                ActionView::Write { rendered: rendering(decoded(line@), line@) },
            ),
            (State::StreamingOutput, Event::EndOfStream) => (
                State::StreamingOutput,
                ActionView::Wait,
            ),
            (State::StreamingOutput, Event::Exited { success }) => (
                State::Completed { success },
                ActionView::Finish { success },
            ),
            (State::BufferedRun, Event::Exited { success }) => (
                if success {
                    State::Completed { success: true }
                } else {
                    State::Failed
                },
                ActionView::Finish { success },
            ),
            _ => (state, ActionView::Nothing),
        }
    }

    /// An audit that has not started.
    pub fn new() -> (audit: Self)
        ensures
            audit.spec_state() == State::Idle,
    {
        Audit { state: State::Idle, _config: PhantomData }
    }

    /// Where the run stands.
    #[verifier::when_used_as_spec(spec_state)]
    pub fn state(&self) -> (state: State)
        ensures
            state == self.spec_state(),
    {
        self.state
    }

    /// Whether the run is over and succeeded; nothing while it is not over.
    pub fn outcome(&self) -> (outcome: Option<bool>)
        ensures
            outcome == self.spec_state().outcome(),
    {
        match self.state {
            State::Completed { success } => Some(success),
            State::Failed => Some(false),
            _ => None,
        }
    }

    /// Takes `event` in, moves to the next state and says what to do.
    pub fn step(&mut self, event: Event) -> (action: Action)
        ensures
            (final(self).spec_state(), action@) == Self::transition(old(self).spec_state(), event),
    {
        match (self.state, event) {
            (State::Idle, Event::Start { command, ci, config_args }) => {
                let streaming = executing_on_ci(&ci);
                let invocation = assemble(streaming, &config_args, &command);
                self.state = State::Running { streaming };
                Action::Spawn { invocation, capture: streaming }
            },
            (State::Running { streaming }, Event::Spawned) => {
                if streaming {
                    self.state = State::StreamingOutput;
                    Action::Read
                } else {
                    self.state = State::BufferedRun;
                    Action::Wait
                }
            },
            (State::Running { .. }, Event::SpawnFailed) => {
                self.state = State::Failed;
                Action::Finish { success: false }
            },
            (State::StreamingOutput, Event::Line { line }) => {
                Action::Write { rendered: render_line(line.as_str()) }
            },
            (State::StreamingOutput, Event::EndOfStream) => Action::Wait,
            (State::StreamingOutput, Event::Exited { success }) => {
                self.state = State::Completed { success };
                Action::Finish { success }
            },
            (State::BufferedRun, Event::Exited { success }) => {
                self.state = if success {
                    State::Completed { success: true }
                } else {
                    State::Failed
                };
                Action::Finish { success }
            },
            _ => Action::Nothing,
        }
    }

    /// Begins an audit under the configuration `C` and takes its first step:
    /// the auditor is to be started with the arguments that `C` gives,
    /// streaming if the run is under continuous integration.
    pub fn execute(command: Option<String>, ci: Option<String>, xtask_present: bool) -> (begun: (
        Self,
        Action,
    ))
        ensures
            exists|config_args: Vec<String>|
                #[trigger] call_ensures(C::args, (xtask_present,), config_args) && (
                    begun.0.spec_state(),
                    begun.1@,
                ) == Self::transition(State::Idle, Event::Start { command, ci, config_args }),
    {
        let config_args = C::args(xtask_present);
        let mut audit = Self::new();
        let action = audit.step(Event::Start { command, ci, config_args });
        (audit, action)
    }

    /// While streaming, a line that encodes no record is written as it came,
    /// character for character, and the run goes on streaming.
    pub proof fn lemma_undecoded_line_is_written_unchanged(line: String)
        requires
            decoded(line@) is None,
        ensures
            Self::transition(State::StreamingOutput, Event::Line { line }) == (
                State::StreamingOutput,
                ActionView::Write { rendered: RenderedView::Raw(line@) },
            ),
    {
    }

    /// A run that is over stays as it is, whatever happens.
    pub proof fn lemma_terminal_states_stay(state: State, event: Event)
        requires
            state.is_terminal(),
        ensures
            Self::transition(state, event) == (state, ActionView::Nothing),
    {
    }

    /// A run ends in success only when the auditor has exited with status
    /// zero.
    pub proof fn lemma_success_mirrors_exit(state: State, event: Event)
        requires
            !state.is_terminal(),
            Self::transition(state, event).0.outcome() == Some(true),
        ensures
            event == (Event::Exited { success: true }),
    {
    }
}

} // verus!
