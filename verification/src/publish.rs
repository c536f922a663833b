//! Publishing the packages of a workspace, one confirmation at a time.

use crate::process::{plain, push_text, Invocation, InvocationView};
use crate::text::{chars_of, texts, trim, trimmed};
use vstd::prelude::*;
use vstd::string::StringExecFns;

verus! {

/// The configuration of a publish run.
pub trait Config {
    /// The directories of the packages to publish, in publishing order,
    /// relative to the directory in which the run starts.
    fn paths() -> Vec<String>;
}

/// The configuration used where none is given: nothing to publish.
pub struct DefaultConfig;

impl Config for DefaultConfig {
    fn paths() -> (paths: Vec<String>)
        ensures
            texts(paths@) == Seq::<Seq<char>>::empty(),
    {
        let paths: Vec<String> = Vec::new();
        assert(texts(paths@) =~= Seq::<Seq<char>>::empty());
        paths
    }
}

/// Why a publish run ended without publishing everything.
#[derive(Clone, Copy, Debug, PartialEq, Eq, Structural)]
pub enum Error {
    /// The configuration names no package.
    NoPaths,
    /// The readme files could not be generated.
    Readmes,
    /// The user declined to go on.
    Aborted,
}

impl Error {
    /// The message of each error.
    pub open spec fn text(self) -> Seq<char> {
        match self {
            Error::NoPaths => "no publish paths configured"@,
            Error::Readmes => "could not generate the readme files"@,
            Error::Aborted => "Aborting."@,
        }
    }

    /// The message to report the error with.
    pub fn message(&self) -> (message: String)
        ensures
            message@ == self.text(),
    {
        match self {
            Error::NoPaths => "no publish paths configured".to_owned(),
            Error::Readmes => "could not generate the readme files".to_owned(),
            Error::Aborted => "Aborting.".to_owned(),
        }
    }
}

/// Whether `answer`, already trimmed, agrees: `y`, `yes`, or nothing at all.
/// Letter case counts.
pub open spec fn affirmative(answer: Seq<char>) -> bool {
    answer == "y"@ || answer == "yes"@ || answer == ""@
}

/// Whether the response `response`, as the user typed it, agrees.
pub open spec fn confirms(response: Seq<char>) -> bool {
    affirmative(trimmed(response))
}

/// Whether `answer`, already trimmed, agrees.
pub fn is_affirmative(answer: &str) -> (agrees: bool)
    ensures
        agrees == affirmative(answer@),
{
    proof {
        reveal_strlit("y");
        reveal_strlit("yes");
        reveal_strlit("");
    }
    let chars = chars_of(answer);
    let agrees = chars.len() == 0 || (chars.len() == 1 && chars[0] == 'y') || (chars.len() == 3
        && chars[0] == 'y' && chars[1] == 'e' && chars[2] == 's');
    assert(agrees == affirmative(answer@)) by {
        assert(chars@ == answer@);
        if agrees {
            if chars.len() == 0 {
                assert(answer@ =~= ""@);
            } else if chars.len() == 1 {
                assert(answer@ =~= "y"@);
            } else {
                assert(answer@ =~= "yes"@);
            }
        }
    }
    agrees
}

/// Decides on a response to a confirmation prompt: go on if the user agreed,
/// give up otherwise.
pub fn check_continue(response: &str) -> (decision: Result<(), Error>)
    ensures
        decision is Ok <==> confirms(response@),
        decision is Err ==> decision == Err::<(), Error>(Error::Aborted),
{
    if is_affirmative(trim(response)) {
        Ok(())
    } else {
        Err(Error::Aborted)
    }
}

/// Where a publish run stands. An index counts the packages in publishing
/// order, from 0.
#[derive(Clone, Copy, Debug, PartialEq, Eq, Structural)]
pub enum State {
    /// Nothing has been started.
    Idle,
    /// The readme files are being generated.
    GeneratingReadmes,
    /// The user is asked whether to publish the package `index`.
    Confirming { index: usize },
    /// The package `index` is being published.
    Publishing { index: usize },
    /// Publishing the package `index` failed, and the user is asked whether
    /// to try again.
    ConfirmingRetry { index: usize },
    /// Every package is published.
    Completed,
    /// The run was given up.
    Failed { error: Error },
}

/// How the generation of the readme files ended.
#[derive(Clone, Copy, Debug, PartialEq, Eq, Structural)]
pub enum Readmes {
    /// The files are written.
    Generated,
    /// The directory holds no configuration for them: there is nothing to
    /// write, which is no fault.
    NoConfiguration,
    /// Anything else went wrong.
    Failed,
}

/// What happened outside since the last step.
pub enum Event {
    /// The run is asked for.
    Start,
    /// The generation of the readme files ended.
    Readmes { outcome: Readmes },
    /// The user answered a prompt with the line `response`.
    Answer { response: String },
    /// The publishing command ended, with status zero if `success`.
    Published { success: bool },
}

/// What to do outside before the next step.
pub enum Action {
    /// Generate the readme files in the starting directory.
    GenerateReadmes,
    /// Write `prompt` to standard output and read the user's answer.
    Ask { prompt: String },
    /// Report the failure of the publishing command, write `prompt` to the
    /// error channel and read the user's answer.
    AskRetry { prompt: String },
    /// Run `invocation` in the directory `path` below the starting directory.
    Publish { path: String, invocation: Invocation },
    /// The run is over.
    Finish { result: Result<(), Error> },
    /// The event does not apply to the state: nothing to do.
    Nothing,
}

/// The mathematical value of an [`Action`].
pub enum ActionView {
    GenerateReadmes,
    Ask { prompt: Seq<char> },
    AskRetry { prompt: Seq<char> },
    Publish { path: Seq<char>, invocation: InvocationView },
    Finish { result: Result<(), Error> },
    Nothing,
}

impl View for Action {
    type V = ActionView;

    open spec fn view(&self) -> ActionView {
        match self {
            Action::GenerateReadmes => ActionView::GenerateReadmes,
            Action::Ask { prompt } => ActionView::Ask { prompt: prompt@ },
            Action::AskRetry { prompt } => ActionView::AskRetry { prompt: prompt@ },
            Action::Publish { path, invocation } => ActionView::Publish {
                path: path@,
                invocation: invocation@,
            },
            Action::Finish { result } => ActionView::Finish { result: *result },
            Action::Nothing => ActionView::Nothing,
        }
    }
}

/// The question whether to publish the package at `path`.
pub open spec fn proceed_prompt(path: Seq<char>) -> Seq<char> {
    "Proceed with publishing "@ + path + "? [y/yes]"@
}

/// The question whether to try again.
pub open spec fn retry_prompt() -> Seq<char> {
    "Retry? [y/yes]"@
}

/// The publishing command.
pub open spec fn publish_run(dry_run: bool, allow_dirty: bool) -> InvocationView {
    InvocationView {
        program: "cargo"@,
        args: seq!["publish"@] + (if dry_run {
            seq!["--dry-run"@]
        } else {
            Seq::empty()
        }) + (if allow_dirty {
            seq!["--allow-dirty"@]
        } else {
            Seq::empty()
        }),
        env: Seq::empty(),
    }
}

/// What a publish run is asked to do.
pub struct Request {
    pub paths: Seq<Seq<char>>,
    pub dry_run: bool,
    pub allow_dirty: bool,
}

impl State {
    /// Whether the run is over.
    pub open spec fn is_terminal(self) -> bool {
        self is Completed || self is Failed
    }

    /// Whether the state speaks of a package that `request` names.
    pub open spec fn fits(self, request: Request) -> bool {
        match self {
            State::GeneratingReadmes => request.paths.len() > 0,
            State::Confirming { index } => index < request.paths.len(),
            State::Publishing { index } => index < request.paths.len(),
            State::ConfirmingRetry { index } => index < request.paths.len(),
            _ => true,
        }
    }
}

/// The action that publishes the package `index`.
pub open spec fn publish_action(request: Request, index: int) -> ActionView {
    ActionView::Publish {
        path: request.paths[index],
        invocation: publish_run(request.dry_run, request.allow_dirty),
    }
}

/// The state that follows `state` on `event`, and what to do then.
///
/// Without packages the run fails at once. Readme files come first; that
/// there is nothing to generate is no fault. Each package is published only
/// after the user agreed, and again after each failure for as long as the
/// user agrees; an answer that does not agree ends the run.
pub open spec fn transition(request: Request, state: State, event: Event) -> (State, ActionView) {
    match (state, event) {
        (State::Idle, Event::Start) => if request.paths.len() == 0 {
            (
                State::Failed { error: Error::NoPaths },
                ActionView::Finish { result: Err(Error::NoPaths) },
            )
        } else {
            (State::GeneratingReadmes, ActionView::GenerateReadmes)
        },
        (State::GeneratingReadmes, Event::Readmes { outcome }) => if outcome == Readmes::Failed {
            (
                State::Failed { error: Error::Readmes },
                ActionView::Finish { result: Err(Error::Readmes) },
            )
        } else {
            (State::Confirming { index: 0 }, ActionView::Ask { prompt: proceed_prompt(request.paths[0]) })
        },
        (State::Confirming { index }, Event::Answer { response }) => if confirms(response@) {
            (State::Publishing { index }, publish_action(request, index as int))
        } else {
            (
                State::Failed { error: Error::Aborted },
                ActionView::Finish { result: Err(Error::Aborted) },
            )
        },
        (State::ConfirmingRetry { index }, Event::Answer { response }) => if confirms(response@) {
            (State::Publishing { index }, publish_action(request, index as int))
        } else {
            (
                State::Failed { error: Error::Aborted },
                ActionView::Finish { result: Err(Error::Aborted) },
            )
        },
        (State::Publishing { index }, Event::Published { success }) => if !success {
            (State::ConfirmingRetry { index }, ActionView::AskRetry { prompt: retry_prompt() })
        } else if index + 1 < request.paths.len() {
            (
                State::Confirming { index: (index + 1) as usize },
                ActionView::Ask { prompt: proceed_prompt(request.paths[index + 1]) },
            )
        } else {
            (State::Completed, ActionView::Finish { result: Ok(()) })
        },
        _ => (state, ActionView::Nothing),
    }
}

/// Nothing is published without the user's agreement: the publishing command
/// is asked for only in answer to a response that agrees.
pub proof fn lemma_publish_needs_agreement(request: Request, state: State, event: Event)
    requires
        transition(request, state, event).1 is Publish,
    ensures
        event matches Event::Answer { response } && confirms(response@),
{
}

/// A response that does not agree ends the run with an error, whichever
/// package was asked about, and no further event changes that.
pub proof fn lemma_declined_answer_aborts(
    request: Request,
    state: State,
    response: String,
    later: Event,
)
    requires
        state is Confirming || state is ConfirmingRetry,
        !confirms(response@),
    ensures
        transition(request, state, Event::Answer { response }) == (
            State::Failed { error: Error::Aborted },
            ActionView::Finish { result: Err(Error::Aborted) },
        ),
        transition(request, State::Failed { error: Error::Aborted }, later) == (
            State::Failed { error: Error::Aborted },
            ActionView::Nothing,
        ),
{
}

/// A step keeps the state within the packages that the request names.
pub proof fn lemma_transition_keeps_fit(request: Request, state: State, event: Event)
    requires
        state.fits(request),
    ensures
        transition(request, state, event).0.fits(request),
{
}

/// A publish run, one step at a time: it decides, and its caller acts.
pub struct Publisher {
    paths: Vec<String>,
    dry_run: bool,
    allow_dirty: bool,
    state: State,
}

impl Publisher {
    #[verifier::type_invariant]
    spec fn well_formed(self) -> bool {
        self.state.fits(self.spec_request())
    }

    /// What the run is asked to do.
    pub closed spec fn spec_request(self) -> Request {
        Request { paths: texts(self.paths@), dry_run: self.dry_run, allow_dirty: self.allow_dirty }
    }

    /// Where the run stands.
    pub closed spec fn spec_state(self) -> State {
        self.state
    }

    /// A run that has not started.
    pub fn new(paths: Vec<String>, dry_run: bool, allow_dirty: bool) -> (publisher: Self)
        ensures
            publisher.spec_state() == State::Idle,
            publisher.spec_request() == (Request { paths: texts(paths@), dry_run, allow_dirty }),
    {
        Publisher { paths, dry_run, allow_dirty, state: State::Idle }
    }

    /// Where the run stands.
    pub fn state(&self) -> (state: State)
        ensures
            state == self.spec_state(),
            state.fits(self.spec_request()),
    {
        proof {
            use_type_invariant(self);
        }
        self.state
    }

    /// The publishing command.
    fn publish_command(&self) -> (invocation: Invocation)
        ensures
            invocation@ == publish_run(self.spec_request().dry_run, self.spec_request().allow_dirty),
    {
        let mut args: Vec<String> = Vec::new();
        push_text(&mut args, "publish");
        if self.dry_run {
            push_text(&mut args, "--dry-run");
        }
        if self.allow_dirty {
            push_text(&mut args, "--allow-dirty");
        }
        assert(texts(args@) =~= publish_run(self.dry_run, self.allow_dirty).args);
        plain("cargo", args)
    }

    /// The question whether to publish the package `index`.
    fn ask(&self, index: usize) -> (action: Action)
        requires
            index < self.spec_request().paths.len(),
        ensures
            action@ == (ActionView::Ask {
                prompt: proceed_prompt(self.spec_request().paths[index as int]),
            }),
    {
        let mut prompt = "Proceed with publishing ".to_owned();
        prompt.append(self.paths[index].as_str());
        prompt.append("? [y/yes]");
        Action::Ask { prompt }
    }

    /// What an answer about the package `index` leads to.
    fn answered(&mut self, index: usize, response: &String) -> (action: Action)
        requires
            index < old(self).spec_request().paths.len(),
        ensures
            final(self).spec_request() == old(self).spec_request(),
            confirms(response@) ==> final(self).spec_state() == (State::Publishing { index })
                && action@ == publish_action(old(self).spec_request(), index as int),
            !confirms(response@) ==> final(self).spec_state() == (State::Failed {
                error: Error::Aborted,
            }) && action@ == (ActionView::Finish { result: Err(Error::Aborted) }),
    {
        match check_continue(response.as_str()) {
            Ok(()) => {
                self.state = State::Publishing { index };
                Action::Publish {
                    path: self.paths[index].clone(),
                    invocation: self.publish_command(),
                }
            },
            Err(error) => {
                self.state = State::Failed { error };
                Action::Finish { result: Err(error) }
            },
        }
    }

    /// Takes `event` in, moves to the next state and says what to do.
    pub fn step(&mut self, event: Event) -> (action: Action)
        ensures
            final(self).spec_request() == old(self).spec_request(),
            (final(self).spec_state(), action@) == transition(
                old(self).spec_request(),
                old(self).spec_state(),
                event,
            ),
    {
        proof {
            use_type_invariant(&*self);
        }
        assert(texts(self.paths@).len() == self.paths.len());
        match (self.state, event) {
            (State::Idle, Event::Start) => {
                if self.paths.len() == 0 {
                    self.state = State::Failed { error: Error::NoPaths };
                    Action::Finish { result: Err(Error::NoPaths) }
                } else {
                    self.state = State::GeneratingReadmes;
                    Action::GenerateReadmes
                }
            },
            (State::GeneratingReadmes, Event::Readmes { outcome }) => {
                if outcome == Readmes::Failed {
                    self.state = State::Failed { error: Error::Readmes };
                    Action::Finish { result: Err(Error::Readmes) }
                } else {
                    self.state = State::Confirming { index: 0 };
                    self.ask(0)
                }
            },
            (State::Confirming { index }, Event::Answer { response }) => self.answered(
                index,
                &response,
            ),
            (State::ConfirmingRetry { index }, Event::Answer { response }) => self.answered(
                index,
                &response,
            ),
            (State::Publishing { index }, Event::Published { success }) => {
                if !success {
                    self.state = State::ConfirmingRetry { index };
                    Action::AskRetry { prompt: "Retry? [y/yes]".to_owned() }
                } else if index + 1 < self.paths.len() {
                    self.state = State::Confirming { index: index + 1 };
                    self.ask(index + 1)
                } else {
                    self.state = State::Completed;
                    Action::Finish { result: Ok(()) }
                }
            },
            _ => Action::Nothing,
        }
    }
}

/// Begins a publish run under the configuration `C` and takes its first
/// step: without packages the run has failed, otherwise the readme files are
/// due.
pub fn execute<C: Config>(dry_run: bool, allow_dirty: bool) -> (begun: (Publisher, Action))
    ensures
        exists|paths: Vec<String>| #[trigger]
            call_ensures(C::paths, (), paths) && begun.0.spec_request() == (Request {
                paths: texts(paths@),
                dry_run,
                allow_dirty,
            }),
        (begun.0.spec_state(), begun.1@) == transition(
            begun.0.spec_request(),
            State::Idle,
            Event::Start,
        ),
{
    let mut publisher = Publisher::new(C::paths(), dry_run, allow_dirty);
    let action = publisher.step(Event::Start);
    (publisher, action)
}

} // verus!
