//! The worker: one run of the optimization, as a machine that is told what
//! the engine answered and says what to do next.
//!
//! The worker itself calls nothing. Whoever drives it performs the command
//! that the worker has pending, hands the outcome to `Worker::step`, and sends
//! on the message that the step gives, until the pending command is
//! `Command::Stop`. The messages of a run come in one order: `Setup`, then
//! `Grounding`, then `Solving`, then a `NewModel` for each model that was
//! read, and at the end one `Finished` or one `Error`. A run that is stopped
//! at any point ends with the last of these alone.

use std::sync::Arc;
use vstd::prelude::*;
use vstd::utf8::*;

use crate::clingo::control::{Control, SessionPhase, SOLVE_MODE_ASYNC, SOLVE_MODE_YIELD};
use crate::clingo::error::{error_text, EngineError, Failure, HandleReply};
use crate::clingo::model::{ListFailure, Model, SHOWN};
use crate::clingo::solve_handle::{SolveHandle, SolveHandleState, POLL_INTERVAL_MILLIS};
use crate::clingo::symbol::Symbol;
use crate::domain::class::Class;
use crate::domain::item::Item;
use crate::domain::item_slot::ItemSlot;
use crate::domain::template::{apply_chosen, Template};
use crate::optimization::choices::{
    chosen_items, decode_error_text, decode_symbols, is_choice, lemma_model_resolves_items,
};
use crate::optimization::instance::{instance, instance_text};
use crate::text::{c_bytes, c_safe, lemma_first_of_is};

verus! {

/// The file that the instance is written to and loaded from.
pub const INSTANCE_PATH: &'static str = "instance.lp";

/// The file that holds the encoding.
pub const ENCODING_PATH: &'static str = "src/optimization/encoding.lp";

/// A message of a run to whoever asked for it.
#[derive(Debug)]
pub enum OptimizeStatus {
    /// The instance is being written and loaded.
    Setup,
    /// The program is being grounded.
    Grounding,
    /// The solver is searching.
    Solving,
    /// The solver found a model: the template with the choices of the model
    /// applied.
    NewModel(Template),
    /// The run is over: the search has no more models, or it was stopped.
    Finished,
    /// The run is over because something failed; with it, what failed.
    Error(String),
}

/// A message of a run, with its texts as sequences of characters and its
/// template as the map of its items.
pub enum StatusView {
    /// The instance is being written and loaded.
    Setup,
    /// The program is being grounded.
    Grounding,
    /// The solver is searching.
    Solving,
    /// The solver found a model.
    NewModel { name: Seq<char>, class: Class, slots: Map<ItemSlot, Item> },
    /// The run is over.
    Finished,
    /// The run is over because something failed.
    Error(Seq<char>),
}

impl View for OptimizeStatus {
    type V = StatusView;

    open spec fn view(&self) -> StatusView {
        match self {
            OptimizeStatus::Setup => StatusView::Setup,
            OptimizeStatus::Grounding => StatusView::Grounding,
            OptimizeStatus::Solving => StatusView::Solving,
            OptimizeStatus::NewModel(template) => StatusView::NewModel {
                name: template.spec_name(),
                class: template.spec_class(),
                slots: template@,
            },
            OptimizeStatus::Finished => StatusView::Finished,
            OptimizeStatus::Error(text) => StatusView::Error(text@),
        }
    }
}

/// The message that a step gives, as its view.
pub open spec fn message_view(message: Option<OptimizeStatus>) -> Option<StatusView> {
    match message {
        Some(status) => Some(status@),
        None => None,
    }
}

/// What the driver of a run is to do next.
#[allow(inconsistent_fields)]
#[derive(Debug, PartialEq, Eq)]
pub enum Command {
    /// Write the instance `text` to the file `path`, whether or not that goes
    /// well, and answer with `Event::Written`.
    WriteProgram { path: &'static str, text: String },
    /// Open a session, and answer with `Event::Opened`.
    OpenSession,
    /// Load the program of the file whose path is the bytes `path`, and
    /// answer with `Event::Loaded`.
    Load { path: Vec<u8> },
    /// Ground the program, and answer with `Event::Grounded`.
    Ground,
    /// Read whether the run is to stop, and answer with `Event::StopFlag`.
    ReadStopFlag,
    /// Start the search in the mode `mode`, and answer with `Event::Started`.
    Solve { mode: u32 },
    /// Wait for the search for at most `millis` milliseconds, and answer with
    /// `Event::Waited`.
    Wait { millis: u64 },
    /// Ask for the current model, and answer with `Event::Fetched`.
    FetchModel,
    /// Ask how many symbols the model holds under the selector `show`, and
    /// answer with `Event::Counted`.
    CountSymbols { show: u32 },
    /// Ask for the `count` symbols of the model under the selector `show`, and
    /// answer with `Event::Listed`.
    ListSymbols { show: u32, count: usize },
    /// Let the search go on to the next model, and answer with
    /// `Event::Resumed`.
    Resume,
    /// Stop the search, and answer with `Event::Cancelled`.
    Cancel,
    /// Close the search, if there is one, and then the session, if there is
    /// one. The run is over.
    Stop,
}

/// A command, with its texts as sequences.
#[allow(inconsistent_fields)]
pub enum CommandView {
    WriteProgram { path: Seq<char>, text: Seq<char> },
    OpenSession,
    Load { path: Seq<u8> },
    Ground,
    ReadStopFlag,
    Solve { mode: u32 },
    Wait { millis: u64 },
    FetchModel,
    CountSymbols { show: u32 },
    ListSymbols { show: u32, count: usize },
    Resume,
    Cancel,
    Stop,
}

impl View for Command {
    type V = CommandView;

    open spec fn view(&self) -> CommandView {
        match self {
            Command::WriteProgram { path, text } => CommandView::WriteProgram {
                path: path@,
                text: text@,
            },
            Command::OpenSession => CommandView::OpenSession,
            Command::Load { path } => CommandView::Load { path: path@ },
            Command::Ground => CommandView::Ground,
            Command::ReadStopFlag => CommandView::ReadStopFlag,
            Command::Solve { mode } => CommandView::Solve { mode: *mode },
            Command::Wait { millis } => CommandView::Wait { millis: *millis },
            Command::FetchModel => CommandView::FetchModel,
            Command::CountSymbols { show } => CommandView::CountSymbols { show: *show },
            Command::ListSymbols { show, count } => CommandView::ListSymbols {
                show: *show,
                count: *count,
            },
            Command::Resume => CommandView::Resume,
            Command::Cancel => CommandView::Cancel,
            Command::Stop => CommandView::Stop,
        }
    }
}

/// What the driver of a run reports of the command that it performed.
#[derive(Debug)]
pub enum Event {
    /// The instance was written, or could not be.
    Written,
    /// The engine's answer to the opening of a session.
    Opened(HandleReply),
    /// The engine's answer to the loading of a program.
    Loaded(Result<(), EngineError>),
    /// The engine's answer to the grounding.
    Grounded(Result<(), EngineError>),
    /// Whether the run is to stop.
    StopFlag(bool),
    /// The engine's answer to the start of the search.
    Started(HandleReply),
    /// Whether the search had something to tell before the wait was over.
    Waited(bool),
    /// The engine's answer to the question for the current model: whether
    /// there is one.
    Fetched(Result<bool, EngineError>),
    /// The engine's answer to the question for the number of symbols.
    Counted(Result<usize, EngineError>),
    /// The engine's answer to the question for the symbols.
    Listed(Result<Vec<Symbol>, ListFailure>),
    /// The engine's answer to the request to go on.
    Resumed(Result<(), EngineError>),
    /// The engine's answer to the request to stop.
    Cancelled(Result<(), EngineError>),
}

/// How far a run has come: which answer the worker waits for.
#[derive(Debug, Clone, Copy, PartialEq, Eq, Structural)]
pub enum Phase {
    /// The instance is to be written.
    Writing,
    /// A session is to be opened.
    Opening,
    /// The instance is to be loaded.
    LoadingInstance,
    /// The encoding is to be loaded.
    LoadingEncoding,
    /// The program is to be grounded.
    Grounding,
    /// Whether to stop is to be read, before the search starts.
    Ready,
    /// The search is to be started.
    Starting,
    /// Whether to stop is to be read, while the search runs.
    Polling,
    /// The search is to be waited for.
    Waiting,
    /// The current model is to be asked for.
    Fetching,
    /// The symbols of the model are to be counted.
    Counting,
    /// The symbols of the model, this many, are to be listed.
    Listing(usize),
    /// The search is to go on to the next model.
    Resuming,
    /// The search is to be stopped.
    Cancelling,
    /// The run is over.
    Done,
}

/// What a step of a run comes to.
pub enum Outcome {
    /// The event answers no pending command: nothing changes.
    Ignored,
    /// The run goes on in this phase, and there is nothing to tell.
    Next(Phase),
    /// The run goes on to ground the program, and says so.
    Ground,
    /// The run goes on to start the search, and says so.
    Solve,
    /// The run tells of a model with these choices, and goes on to let the
    /// search go on.
    Model(Seq<(ItemSlot, i32)>),
    /// The run ends as finished.
    Finish,
    /// The run ends with this error.
    Fail(Seq<char>),
}

/// The text of what is wrong with the answer `reply` to an opening, if
/// anything is.
pub open spec fn handle_failure(failed: Failure, missing: Failure, reply: HandleReply) -> Option<
    Seq<char>,
> {
    match reply {
        HandleReply::Given => None,
        HandleReply::Missing(reported) => Some(error_text(missing.spec_error(reported))),
        HandleReply::Failed(reported) => Some(error_text(failed.spec_error(reported))),
    }
}

/// The text of what is wrong with the answer `reply` to a call, if anything
/// is.
pub open spec fn call_failure<T>(failure: Failure, reply: Result<T, EngineError>) -> Option<
    Seq<char>,
> {
    match reply {
        Ok(_) => None,
        Err(reported) => Some(error_text(failure.spec_error(reported))),
    }
}

/// The step after a model was read whose symbols are `symbols`.
pub open spec fn to_model(symbols: Seq<Symbol>) -> Outcome {
    match decode_symbols(symbols) {
        Ok(chosen) => Outcome::Model(chosen),
        Err(error) => Outcome::Fail(decode_error_text(error)),
    }
}

/// What the event `event` comes to in the phase `phase`.
pub open spec fn outcome(phase: Phase, event: Event) -> Outcome {
    match (phase, event) {
        (Phase::Writing, Event::Written) => Outcome::Next(Phase::Opening),
        (Phase::Opening, Event::Opened(reply)) => match handle_failure(
            Failure::SessionCreation,
            Failure::SessionMissing,
            reply,
        ) {
            Some(text) => Outcome::Fail(text),
            None => Outcome::Next(Phase::LoadingInstance),
        },
        (Phase::LoadingInstance, Event::Loaded(reply)) => match call_failure(
            Failure::Load,
            reply,
        ) {
            Some(text) => Outcome::Fail(text),
            None => Outcome::Next(Phase::LoadingEncoding),
        },
        (Phase::LoadingEncoding, Event::Loaded(reply)) => match call_failure(
            Failure::Load,
            reply,
        ) {
            Some(text) => Outcome::Fail(text),
            None => Outcome::Ground,
        },
        (Phase::Grounding, Event::Grounded(reply)) => match call_failure(
            Failure::Grounding,
            reply,
        ) {
            Some(text) => Outcome::Fail(text),
            None => Outcome::Next(Phase::Ready),
        },
        (Phase::Ready, Event::StopFlag(stop)) => if stop {
            Outcome::Finish
        } else {
            Outcome::Solve
        },
        (Phase::Starting, Event::Started(reply)) => match handle_failure(
            Failure::SolveStart,
            Failure::HandleMissing,
            reply,
        ) {
            Some(text) => Outcome::Fail(text),
            None => Outcome::Next(Phase::Polling),
        },
        (Phase::Polling, Event::StopFlag(stop)) => if stop {
            Outcome::Next(Phase::Cancelling)
        } else {
            Outcome::Next(Phase::Waiting)
        },
        (Phase::Waiting, Event::Waited(ready)) => if ready {
            Outcome::Next(Phase::Fetching)
        } else {
            Outcome::Next(Phase::Polling)
        },
        (Phase::Fetching, Event::Fetched(reply)) => match reply {
            Ok(true) => Outcome::Next(Phase::Counting),
            Ok(false) => Outcome::Finish,
            Err(reported) => Outcome::Fail(
                error_text(Failure::ModelRetrieval.spec_error(reported)),
            ),
        },
        (Phase::Counting, Event::Counted(reply)) => match reply {
            Ok(count) => if count == 0 {
                to_model(Seq::empty())
            } else {
                Outcome::Next(Phase::Listing(count))
            },
            Err(reported) => Outcome::Fail(error_text(Failure::SymbolCount.spec_error(reported))),
        },
        (Phase::Listing(_), Event::Listed(reply)) => match reply {
            Ok(symbols) => to_model(symbols@),
            Err(failure) => Outcome::Fail(error_text(failure.spec_error())),
        },
        (Phase::Resuming, Event::Resumed(reply)) => match call_failure(Failure::Resume, reply) {
            Some(text) => Outcome::Fail(text),
            None => Outcome::Next(Phase::Polling),
        },
        (Phase::Cancelling, Event::Cancelled(_)) => Outcome::Finish,
        _ => Outcome::Ignored,
    }
}

/// The phase that a step leads to.
pub open spec fn next_phase(phase: Phase, outcome: Outcome) -> Phase {
    match outcome {
        Outcome::Ignored => phase,
        Outcome::Next(next) => next,
        Outcome::Ground => Phase::Grounding,
        Outcome::Solve => Phase::Starting,
        Outcome::Model(_) => Phase::Resuming,
        Outcome::Finish => Phase::Done,
        Outcome::Fail(_) => Phase::Done,
    }
}

/// The message that a step gives, for a run on the template with this name,
/// class and items by slot, and on the candidate items `items`.
pub open spec fn message_of(
    name: Seq<char>,
    class: Class,
    slots: Map<ItemSlot, Item>,
    items: Seq<Arc<Item>>,
    outcome: Outcome,
) -> Option<StatusView> {
    match outcome {
        Outcome::Ignored => None,
        Outcome::Next(_) => None,
        Outcome::Ground => Some(StatusView::Grounding),
        Outcome::Solve => Some(StatusView::Solving),
        Outcome::Model(chosen) => Some(
            StatusView::NewModel { name, class, slots: apply_chosen(slots, items, chosen) },
        ),
        Outcome::Finish => Some(StatusView::Finished),
        Outcome::Fail(text) => Some(StatusView::Error(text)),
    }
}

/// The command that is pending in the phase `phase` of a run on the template
/// `template` and the candidate items `items`.
pub open spec fn command_of(phase: Phase, template: Template, items: Seq<Arc<Item>>) -> CommandView {
    match phase {
        Phase::Writing => CommandView::WriteProgram {
            path: INSTANCE_PATH@,
            text: instance_text(template, items),
        },
        Phase::Opening => CommandView::OpenSession,
        Phase::LoadingInstance => CommandView::Load { path: c_bytes(INSTANCE_PATH@) },
        Phase::LoadingEncoding => CommandView::Load { path: c_bytes(ENCODING_PATH@) },
        Phase::Grounding => CommandView::Ground,
        Phase::Ready => CommandView::ReadStopFlag,
        Phase::Starting => CommandView::Solve {
            mode: SOLVE_MODE_ASYNC | SOLVE_MODE_YIELD,
        },
        Phase::Polling => CommandView::ReadStopFlag,
        Phase::Waiting => CommandView::Wait { millis: POLL_INTERVAL_MILLIS },
        Phase::Fetching => CommandView::FetchModel,
        Phase::Counting => CommandView::CountSymbols { show: SHOWN },
        Phase::Listing(count) => CommandView::ListSymbols { show: SHOWN, count },
        Phase::Resuming => CommandView::Resume,
        Phase::Cancelling => CommandView::Cancel,
        Phase::Done => CommandView::Stop,
    }
}

/// The model that a run tells of holds the items that the solver chose.
/// Where the identifiers of the candidate items differ from each other, and
/// the symbols of a model hold for each of some slots one atom
/// `slot_chosen(slot, id)` with the identifier of a candidate, the step that
/// reads the symbols gives `NewModel`, and its template holds in each of these
/// slots the very candidate that was written with that identifier. Here
/// `picks[j]` is the place among the candidates of the item that the atom
/// `symbols[j]` names.
pub proof fn lemma_new_model_holds_the_items(
    name: Seq<char>,
    class: Class,
    slots: Map<ItemSlot, Item>,
    items: Seq<Arc<Item>>,
    count: usize,
    symbols: Vec<Symbol>,
    picks: Seq<int>,
    chosen: Seq<(ItemSlot, i32)>,
)
    requires
        forall|a: int, b: int|
            0 <= a < items.len() && 0 <= b < items.len() && a != b ==> (#[trigger] items[a]).id
                != (#[trigger] items[b]).id,
        symbols@.len() == picks.len() == chosen.len(),
        forall|j: int| 0 <= j < picks.len() ==> 0 <= #[trigger] picks[j] < items.len(),
        forall|j: int|
            0 <= j < symbols@.len() ==> (#[trigger] chosen[j]).1 == items[picks[j]].id
                && is_choice(symbols@[j], chosen[j].0, chosen[j].1),
        forall|i: int, j: int|
            0 <= i < j < chosen.len() ==> (#[trigger] chosen[i]).0 != (#[trigger] chosen[j]).0,
    ensures
        outcome(Phase::Listing(count), Event::Listed(Ok(symbols))) == Outcome::Model(chosen),
        message_of(name, class, slots, items, Outcome::Model(chosen)) == Some(
            StatusView::NewModel { name, class, slots: apply_chosen(slots, items, chosen) },
        ),
        forall|j: int|
            0 <= j < chosen.len() ==> apply_chosen(slots, items, chosen).contains_key(
                (#[trigger] chosen[j]).0,
            ) && apply_chosen(slots, items, chosen)[chosen[j].0] == *items[picks[j]],
{
    lemma_model_resolves_items(slots, items, symbols@, picks, chosen);
}

/// Neither of the two paths holds a zero byte: the engine reads each to its
/// end.
pub proof fn lemma_paths_are_safe()
    ensures
        c_safe(INSTANCE_PATH@),
        c_safe(ENCODING_PATH@),
{
    reveal_strlit("instance.lp");
    reveal_strlit("src/optimization/encoding.lp");
    is_ascii_chars_encode_utf8(INSTANCE_PATH@);
    is_ascii_chars_encode_utf8(ENCODING_PATH@);
    lemma_first_of_is(encode_utf8(INSTANCE_PATH@), 0, INSTANCE_PATH@.len() as int);
    lemma_first_of_is(encode_utf8(ENCODING_PATH@), 0, ENCODING_PATH@.len() as int);
}

/// Whether a run in the phase `phase` holds a session: from the opening of
/// the session to the end of the run.
pub open spec fn holds_session(phase: Phase) -> bool {
    match phase {
        Phase::Writing | Phase::Opening | Phase::Done => false,
        _ => true,
    }
}

/// Whether a run in the phase `phase` holds a search: from the start of the
/// search to the end of the run.
pub open spec fn searching(phase: Phase) -> bool {
    match phase {
        Phase::Polling
        | Phase::Waiting
        | Phase::Fetching
        | Phase::Counting
        | Phase::Listing(_)
        | Phase::Resuming
        | Phase::Cancelling => true,
        _ => false,
    }
}

/// One run of the optimization: the template to fill, the candidate items,
/// and how far the run has come. The worker owns what it knows of the session
/// and of the search, and gives both up when the run ends.
#[derive(Debug)]
pub struct Worker {
    phase: Phase,
    template: Template,
    items: Vec<Arc<Item>>,
    control: Option<Control>,
    handle: Option<SolveHandle>,
}

/// What a step of a run gives: the worker after the step, and the message to
/// send on, if the step has one.
#[derive(Debug)]
pub struct Step {
    /// The worker after the step.
    pub worker: Worker,
    /// The message to send on.
    pub message: Option<OptimizeStatus>,
}

/// Makes of a path that holds no zero byte the bytes to hand to the engine.
fn path_bytes(path: &'static str) -> (bytes: Vec<u8>)
    requires
        c_safe(path@),
    ensures
        bytes@ == c_bytes(path@),
{
    match Control::program_path(path) {
        Ok(bytes) => bytes,
        Err(_) => unreached(),
    }
}

/// Gives up what is known of the search, if there is one, and then of the
/// session, if there is one.
fn release(control: Option<Control>, handle: Option<SolveHandle>) {
    match handle {
        Some(search) => {
            let _ = search.close();
        },
        None => {},
    }
    match control {
        Some(session) => {
            let _ = session.close();
        },
        None => {},
    }
}

impl Worker {
    #[verifier::type_invariant]
    spec fn well_formed(&self) -> bool {
        match self.phase {
            Phase::Writing | Phase::Opening | Phase::Done => self.control is None
                && self.handle is None,
            Phase::LoadingInstance => self.control is Some && self.control->0.spec_phase()
                == SessionPhase::Fresh && self.handle is None,
            Phase::LoadingEncoding => self.control is Some && self.control->0.spec_phase()
                == SessionPhase::Loaded && self.handle is None,
            Phase::Grounding => self.control is Some && self.control->0.spec_phase()
                == SessionPhase::Loaded && self.handle is None,
            Phase::Ready | Phase::Starting => self.control is Some
                && self.control->0.spec_phase() == SessionPhase::Grounded && self.handle is None,
            _ => self.control is Some && self.control->0.spec_phase() == SessionPhase::Solving
                && self.handle is Some && self.handle->0.spec_state()
                == SolveHandleState::Active,
        }
    }

    /// How far the run has come.
    pub closed spec fn spec_phase(&self) -> Phase {
        self.phase
    }

    /// The template that the run is to fill.
    pub closed spec fn spec_template(&self) -> Template {
        self.template
    }

    /// The candidate items of the run.
    pub closed spec fn spec_items(&self) -> Seq<Arc<Item>> {
        self.items@
    }

    /// Whether the worker holds a session.
    pub closed spec fn spec_has_session(&self) -> bool {
        self.control is Some
    }

    /// Whether the worker holds a search.
    pub closed spec fn spec_has_search(&self) -> bool {
        self.handle is Some
    }

    /// What the event `event` comes to for this worker.
    pub open spec fn spec_outcome(&self, event: Event) -> Outcome {
        outcome(self.spec_phase(), event)
    }

    /// The message that the event `event` gives for this worker.
    pub open spec fn spec_message(&self, event: Event) -> Option<StatusView> {
        message_of(
            self.spec_template().spec_name(),
            self.spec_template().spec_class(),
            self.spec_template()@,
            self.spec_items(),
            self.spec_outcome(event),
        )
    }

    /// Begins a run on the template `template` and the candidate items
    /// `items`. The run begins with the message `Setup`, and with the instance
    /// to be written.
    pub fn start(template: Template, items: Vec<Arc<Item>>) -> (step: Step)
        ensures
            step.worker.spec_phase() == Phase::Writing,
            step.worker.spec_template() == template,
            step.worker.spec_items() == items@,
            step.message is Some,
            step.message->0@ == StatusView::Setup,
    {
        Step {
            worker: Worker { phase: Phase::Writing, template, items, control: None, handle: None },
            message: Some(OptimizeStatus::Setup),
        }
    }

    /// Returns how far the run has come.
    pub fn phase(&self) -> (phase: Phase)
        ensures
            phase == self.spec_phase(),
    {
        self.phase
    }

    /// Returns the template that the run is to fill.
    pub fn template(&self) -> (template: &Template)
        ensures
            *template == self.spec_template(),
    {
        &self.template
    }

    /// Tells whether the worker holds a session: whether the driver holds one
    /// that is open. A session is held from its opening to the end of the run,
    /// and given up once.
    pub fn has_session(&self) -> (held: bool)
        ensures
            held == self.spec_has_session(),
            held == holds_session(self.spec_phase()),
    {
        proof {
            use_type_invariant(self);
        }
        self.control.is_some()
    }

    /// Tells whether the worker holds a search: whether the driver holds one
    /// that is open. A search is held from its start to the end of the run,
    /// and given up once.
    pub fn has_search(&self) -> (held: bool)
        ensures
            held == self.spec_has_search(),
            held == searching(self.spec_phase()),
    {
        proof {
            use_type_invariant(self);
        }
        self.handle.is_some()
    }

    /// Tells whether the run is over.
    pub fn is_done(&self) -> (done: bool)
        ensures
            done == (self.spec_phase() == Phase::Done),
    {
        match self.phase {
            Phase::Done => true,
            _ => false,
        }
    }

    /// Returns the command that is pending: what the driver of the run is to
    /// do next.
    pub fn command(&self) -> (command: Command)
        ensures
            command@ == command_of(self.spec_phase(), self.spec_template(), self.spec_items()),
    {
        proof {
            use_type_invariant(self);
            lemma_paths_are_safe();
        }
        match self.phase {
            Phase::Writing => Command::WriteProgram {
                path: INSTANCE_PATH,
                text: instance(&self.template, self.items.as_slice()),
            },
            Phase::Opening => Command::OpenSession,
            Phase::LoadingInstance => Command::Load { path: path_bytes(INSTANCE_PATH) },
            Phase::LoadingEncoding => Command::Load { path: path_bytes(ENCODING_PATH) },
            Phase::Grounding => Command::Ground,
            Phase::Ready => Command::ReadStopFlag,
            Phase::Starting => Command::Solve { mode: Control::solve_mode() },
            Phase::Polling => Command::ReadStopFlag,
            Phase::Waiting => Command::Wait { millis: POLL_INTERVAL_MILLIS },
            Phase::Fetching => Command::FetchModel,
            Phase::Counting => Command::CountSymbols { show: SHOWN },
            Phase::Listing(count) => Command::ListSymbols { show: SHOWN, count },
            Phase::Resuming => Command::Resume,
            Phase::Cancelling => Command::Cancel,
            Phase::Done => Command::Stop,
        }
    }

    /// Ends the run with the error whose text is `text`.
    fn fail(
        template: Template,
        items: Vec<Arc<Item>>,
        control: Option<Control>,
        handle: Option<SolveHandle>,
        text: String,
    ) -> (step: Step)
        ensures
            step.worker.spec_phase() == Phase::Done,
            step.worker.spec_template() == template,
            step.worker.spec_items() == items@,
            step.message is Some,
            step.message->0@ == StatusView::Error(text@),
    {
        release(control, handle);
        Step {
            worker: Worker { phase: Phase::Done, template, items, control: None, handle: None },
            message: Some(OptimizeStatus::Error(text)),
        }
    }

    /// Ends the run as finished.
    fn finish(
        template: Template,
        items: Vec<Arc<Item>>,
        control: Option<Control>,
        handle: Option<SolveHandle>,
    ) -> (step: Step)
        ensures
            step.worker.spec_phase() == Phase::Done,
            step.worker.spec_template() == template,
            step.worker.spec_items() == items@,
            step.message is Some,
            step.message->0@ == StatusView::Finished,
    {
        release(control, handle);
        Step {
            worker: Worker { phase: Phase::Done, template, items, control: None, handle: None },
            message: Some(OptimizeStatus::Finished),
        }
    }

    /// Tells of a model with the symbols `symbols`, and goes on to let the
    /// search go on; or ends the run where the symbols cannot be read.
    fn model(
        template: Template,
        items: Vec<Arc<Item>>,
        control: Option<Control>,
        handle: Option<SolveHandle>,
        symbols: &[Symbol],
    ) -> (step: Step)
        requires
            control is Some,
            control->0.spec_phase() == SessionPhase::Solving,
            handle is Some,
            handle->0.spec_state() == SolveHandleState::Active,
        ensures
            step.worker.spec_phase() == next_phase(Phase::Counting, to_model(symbols@)),
            step.worker.spec_template() == template,
            step.worker.spec_items() == items@,
            message_view(step.message) == message_of(
                template.spec_name(),
                template.spec_class(),
                template@,
                items@,
                to_model(symbols@),
            ),
    {
        match chosen_items(symbols) {
            Ok(chosen) => {
                let found = template.with_chosen(items.as_slice(), chosen.as_slice());
                Step {
                    worker: Worker { phase: Phase::Resuming, template, items, control, handle },
                    message: Some(OptimizeStatus::NewModel(found)),
                }
            },
            Err(error) => Self::fail(template, items, control, handle, error.to_string()),
        }
    }

    /// Takes the outcome `event` of the command that was pending, and gives
    /// the worker after it and the message to send on. An event that does not
    /// answer the pending command changes nothing and gives no message. The
    /// template and the candidate items stay as they are throughout.
    pub fn step(self, event: Event) -> (step: Step)
        ensures
            step.worker.spec_phase() == next_phase(self.spec_phase(), self.spec_outcome(event)),
            step.worker.spec_template() == self.spec_template(),
            step.worker.spec_items() == self.spec_items(),
            message_view(step.message) == self.spec_message(event),
    {
        proof {
            use_type_invariant(&self);
        }
        let Worker { phase, template, items, control, handle } = self;
        match (phase, event) {
            (Phase::Writing, Event::Written) => Step {
                worker: Worker { phase: Phase::Opening, template, items, control, handle },
                message: None,
            },
            (Phase::Opening, Event::Opened(reply)) => match Control::new(reply) {
                Ok(session) => Step {
                    worker: Worker {
                        phase: Phase::LoadingInstance,
                        template,
                        items,
                        control: Some(session),
                        handle: None,
                    },
                    message: None,
                },
                Err(error) => Self::fail(template, items, None, None, error.to_string()),
            },
            (Phase::LoadingInstance, Event::Loaded(reply)) => {
                let mut session = control.unwrap();
                match session.load(reply) {
                    Ok(_) => Step {
                        worker: Worker {
                            phase: Phase::LoadingEncoding,
                            template,
                            items,
                            control: Some(session),
                            handle: None,
                        },
                        message: None,
                    },
                    Err(error) => Self::fail(
                        template,
                        items,
                        Some(session),
                        None,
                        error.to_string(),
                    ),
                }
            },
            (Phase::LoadingEncoding, Event::Loaded(reply)) => {
                let mut session = control.unwrap();
                match session.load(reply) {
                    Ok(_) => Step {
                        worker: Worker {
                            phase: Phase::Grounding,
                            template,
                            items,
                            control: Some(session),
                            handle: None,
                        },
                        message: Some(OptimizeStatus::Grounding),
                    },
                    Err(error) => Self::fail(
                        template,
                        items,
                        Some(session),
                        None,
                        error.to_string(),
                    ),
                }
            },
            (Phase::Grounding, Event::Grounded(reply)) => {
                let mut session = control.unwrap();
                match session.ground(reply) {
                    Ok(_) => Step {
                        worker: Worker {
                            phase: Phase::Ready,
                            template,
                            items,
                            control: Some(session),
                            handle: None,
                        },
                        message: None,
                    },
                    Err(error) => Self::fail(
                        template,
                        items,
                        Some(session),
                        None,
                        error.to_string(),
                    ),
                }
            },
            (Phase::Ready, Event::StopFlag(stop)) => {
                if stop {
                    Self::finish(template, items, control, handle)
                } else {
                    Step {
                        worker: Worker { phase: Phase::Starting, template, items, control, handle },
                        message: Some(OptimizeStatus::Solving),
                    }
                }
            },
            (Phase::Starting, Event::Started(reply)) => {
                let mut session = control.unwrap();
                match session.solve(reply) {
                    Ok(search) => Step {
                        worker: Worker {
                            phase: Phase::Polling,
                            template,
                            items,
                            control: Some(session),
                            handle: Some(search),
                        },
                        message: None,
                    },
                    Err(error) => Self::fail(
                        template,
                        items,
                        Some(session),
                        None,
                        error.to_string(),
                    ),
                }
            },
            (Phase::Polling, Event::StopFlag(stop)) => {
                let next = if stop {
                    Phase::Cancelling
                } else {
                    Phase::Waiting
                };
                Step {
                    worker: Worker { phase: next, template, items, control, handle },
                    message: None,
                }
            },
            (Phase::Waiting, Event::Waited(ready)) => {
                let next = if ready {
                    Phase::Fetching
                } else {
                    Phase::Polling
                };
                Step {
                    worker: Worker { phase: next, template, items, control, handle },
                    message: None,
                }
            },
            (Phase::Fetching, Event::Fetched(reply)) => {
                let mut search = handle.unwrap();
                match search.model(reply) {
                    Ok(true) => Step {
                        worker: Worker {
                            phase: Phase::Counting,
                            template,
                            items,
                            control,
                            handle: Some(search),
                        },
                        message: None,
                    },
                    Ok(false) => Self::finish(template, items, control, Some(search)),
                    Err(error) => Self::fail(
                        template,
                        items,
                        control,
                        Some(search),
                        error.to_string(),
                    ),
                }
            },
            (Phase::Counting, Event::Counted(reply)) => match Model::symbols_size(reply) {
                Ok(Some(count)) => Step {
                    worker: Worker {
                        phase: Phase::Listing(count),
                        template,
                        items,
                        control,
                        handle,
                    },
                    message: None,
                },
                Ok(None) => {
                    let symbols: Vec<Symbol> = Vec::new();
                    assert(symbols@ =~= Seq::<Symbol>::empty());
                    Self::model(template, items, control, handle, symbols.as_slice())
                },
                Err(error) => Self::fail(template, items, control, handle, error.to_string()),
            },
            (Phase::Listing(_), Event::Listed(reply)) => match Model::read_symbols(reply) {
                Ok(symbols) => Self::model(template, items, control, handle, symbols.as_slice()),
                Err(error) => Self::fail(template, items, control, handle, error.to_string()),
            },
            (Phase::Resuming, Event::Resumed(reply)) => {
                let mut search = handle.unwrap();
                match search.resume(reply) {
                    Ok(_) => Step {
                        worker: Worker {
                            phase: Phase::Polling,
                            template,
                            items,
                            control,
                            handle: Some(search),
                        },
                        message: None,
                    },
                    Err(error) => Self::fail(
                        template,
                        items,
                        control,
                        Some(search),
                        error.to_string(),
                    ),
                }
            },
            (Phase::Cancelling, Event::Cancelled(reply)) => {
                let mut search = handle.unwrap();
                let _ = search.cancel(reply);
                Self::finish(template, items, control, Some(search))
            },
            (phase, _) => Step {
                worker: Worker { phase, template, items, control, handle },
                message: None,
            },
        }
    }
}

} // verus!
