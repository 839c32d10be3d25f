//! Runs: what holds of the messages of a worker, whatever its driver reports.
//!
//! A run is followed here by its phase, by the number of models that the
//! engine had for it, and by the kinds of the messages that it gave, in their
//! order. What is proved of runs is proved of every list of reports, and
//! `replay` follows a worker through such a list.

use std::sync::Arc;
use vstd::prelude::*;

use crate::domain::class::Class;
use crate::domain::item::Item;
use crate::domain::item_slot::ItemSlot;
use crate::domain::template::Template;
use crate::optimization::worker::{
    message_of, next_phase, outcome, Event, OptimizeStatus, Outcome, Phase, StatusView, Worker,
};

verus! {

/// The kind of a message.
pub enum StatusKind {
    /// The instance is being written and loaded.
    Setup,
    /// The program is being grounded.
    Grounding,
    /// The solver is searching.
    Solving,
    /// The solver found a model.
    NewModel,
    /// The run is over.
    Finished,
    /// The run is over because something failed.
    Error,
}

impl StatusKind {
    /// Whether a message of this kind ends a run.
    pub open spec fn is_last(&self) -> bool {
        *self == StatusKind::Finished || *self == StatusKind::Error
    }
}

/// The kind of the message `message`.
pub open spec fn kind(message: StatusView) -> StatusKind {
    match message {
        StatusView::Setup => StatusKind::Setup,
        StatusView::Grounding => StatusKind::Grounding,
        StatusView::Solving => StatusKind::Solving,
        StatusView::NewModel { .. } => StatusKind::NewModel,
        StatusView::Finished => StatusKind::Finished,
        StatusView::Error(_) => StatusKind::Error,
    }
}

/// The kind of the message that a step gives, if it gives one.
pub open spec fn kind_of(outcome: Outcome) -> Option<StatusKind> {
    match outcome {
        Outcome::Ignored => None,
        Outcome::Next(_) => None,
        Outcome::Ground => Some(StatusKind::Grounding),
        Outcome::Solve => Some(StatusKind::Solving),
        Outcome::Model(_) => Some(StatusKind::NewModel),
        Outcome::Finish => Some(StatusKind::Finished),
        Outcome::Fail(_) => Some(StatusKind::Error),
    }
}

/// The message that a worker gives with a step is of the kind that the run
/// records for the step, whatever the template and the candidate items.
pub proof fn lemma_message_has_its_kind(
    name: Seq<char>,
    class: Class,
    slots: Map<ItemSlot, Item>,
    items: Seq<Arc<Item>>,
    step: Outcome,
)
    ensures
        match message_of(name, class, slots, items, step) {
            Some(message) => kind_of(step) == Some(kind(message)),
            None => kind_of(step) is None,
        },
{
}

/// A run so far.
pub struct Run {
    /// How far the run has come.
    pub phase: Phase,
    /// How many models the engine had for the run.
    pub models: nat,
    /// The kinds of the messages that the run gave, in their order.
    pub trace: Seq<StatusKind>,
}

/// A run that has just begun.
pub open spec fn begin() -> Run {
    Run { phase: Phase::Writing, models: 0, trace: seq![StatusKind::Setup] }
}

/// The run after the driver reported `event`.
pub open spec fn advance(run: Run, event: Event) -> Run {
    let step = outcome(run.phase, event);
    Run {
        phase: next_phase(run.phase, step),
        models: if run.phase == Phase::Fetching && step == Outcome::Next(Phase::Counting) {
            run.models + 1
        } else {
            run.models
        },
        trace: match kind_of(step) {
            Some(kind) => run.trace.push(kind),
            None => run.trace,
        },
    }
}

/// The run after the driver reported `events`, one after the other.
pub open spec fn after(run: Run, events: Seq<Event>) -> Run
    decreases events.len(),
{
    if events.len() == 0 {
        run
    } else {
        advance(after(run, events.drop_last()), events.last())
    }
}

/// How many of the messages `trace` tell of a model.
pub open spec fn models_told(trace: Seq<StatusKind>) -> nat
    decreases trace.len(),
{
    if trace.len() == 0 {
        0
    } else {
        models_told(trace.drop_last()) + if trace.last() == StatusKind::NewModel {
            1nat
        } else {
            0nat
        }
    }
}

/// Whether the messages `trace` come in the order of a run: `Setup` first and
/// only there, `Grounding` only second, `Solving` only third and after
/// `Grounding`, a `NewModel` only after `Solving`, `Finished` or `Error` only
/// as the last, and `Finished` only after `Grounding`.
pub open spec fn in_order(trace: Seq<StatusKind>) -> bool {
    &&& trace.len() > 0
    &&& forall|i: int|
        0 <= i < trace.len() ==> (#[trigger] trace[i] == StatusKind::Setup <==> i == 0)
    &&& forall|i: int| 0 <= i < trace.len() && #[trigger] trace[i] == StatusKind::Grounding ==> i == 1
    &&& forall|i: int|
        0 <= i < trace.len() && #[trigger] trace[i] == StatusKind::Solving ==> i == 2 && trace[1]
            == StatusKind::Grounding
    &&& forall|i: int|
        0 <= i < trace.len() && #[trigger] trace[i] == StatusKind::NewModel ==> i >= 3 && trace[2]
            == StatusKind::Solving
    &&& forall|i: int| 0 <= i < trace.len() && (#[trigger] trace[i]).is_last() ==> i == trace.len() - 1
    &&& forall|i: int|
        0 <= i < trace.len() && #[trigger] trace[i] == StatusKind::Finished ==> i >= 2 && trace[1]
            == StatusKind::Grounding
}

/// What holds of a run at every point: its messages are in order and fit its
/// phase, a run that is over has its last message, and no more models were
/// told of than the engine had.
pub open spec fn sound(run: Run) -> bool {
    let trace = run.trace;
    &&& in_order(trace)
    &&& match run.phase {
        Phase::Writing | Phase::Opening | Phase::LoadingInstance | Phase::LoadingEncoding => trace
            =~= seq![StatusKind::Setup],
        Phase::Grounding | Phase::Ready => trace =~= seq![
            StatusKind::Setup,
            StatusKind::Grounding,
        ],
        Phase::Starting => trace =~= seq![
            StatusKind::Setup,
            StatusKind::Grounding,
            StatusKind::Solving,
        ],
        Phase::Done => trace.last().is_last(),
        _ => trace.len() >= 3 && trace[2] == StatusKind::Solving && forall|i: int|
            3 <= i < trace.len() ==> #[trigger] trace[i] == StatusKind::NewModel,
    }
    &&& match run.phase {
        Phase::Counting | Phase::Listing(_) => models_told(trace) < run.models,
        _ => models_told(trace) <= run.models,
    }
}

/// A step keeps a run sound.
pub proof fn lemma_step_keeps_sound(run: Run, event: Event)
    requires
        sound(run),
    ensures
        sound(advance(run, event)),
{
    let step = outcome(run.phase, event);
    let next = advance(run, event);
    match kind_of(step) {
        Some(kind) => {
            assert(next.trace == run.trace.push(kind));
            assert(next.trace.drop_last() =~= run.trace);
            assert(next.trace.last() == kind);
            assert(forall|i: int| 0 <= i < run.trace.len() ==> next.trace[i] == run.trace[i]);
            assert(models_told(next.trace) == models_told(run.trace) + if kind
                == StatusKind::NewModel {
                1nat
            } else {
                0nat
            });
            assert(models_told(seq![StatusKind::Setup].drop_last()) == 0);
        },
        None => {},
    }
}

/// Reports that are made one after the other can be taken in two parts.
pub proof fn lemma_after_both(run: Run, first: Seq<Event>, second: Seq<Event>)
    ensures
        after(run, first + second) == after(after(run, first), second),
    decreases second.len(),
{
    if second.len() == 0 {
        assert(first + second =~= first);
    } else {
        lemma_after_both(run, first, second.drop_last());
        assert((first + second).drop_last() =~= first + second.drop_last());
        assert((first + second).last() == second.last());
    }
}

/// Every run is sound: whatever the driver reports, and in whatever order.
pub proof fn lemma_runs_are_sound(events: Seq<Event>)
    ensures
        sound(after(begin(), events)),
    decreases events.len(),
{
    if events.len() == 0 {
        let trace = begin().trace;
        assert(trace.drop_last() =~= Seq::<StatusKind>::empty());
        assert(models_told(trace.drop_last()) == 0);
    } else {
        lemma_runs_are_sound(events.drop_last());
        lemma_step_keeps_sound(after(begin(), events.drop_last()), events.last());
    }
}

/// The messages of a run come in one order, whatever the driver reports:
/// `Setup` first, then `Grounding`, then `Solving`, then a `NewModel` for each
/// model that was told of, and `Finished` or `Error` as the last and only once.
/// A run that is over has given its last message, and a run that is not has
/// given none that ends it.
pub proof fn lemma_messages_in_order(events: Seq<Event>)
    ensures
        in_order(after(begin(), events).trace),
        after(begin(), events).phase == Phase::Done <==> after(
            begin(),
            events,
        ).trace.last().is_last(),
{
    lemma_runs_are_sound(events);
    let run = after(begin(), events);
    if run.phase != Phase::Done {
        match run.phase {
            Phase::Writing | Phase::Opening | Phase::LoadingInstance | Phase::LoadingEncoding => {
                assert(run.trace.last() == StatusKind::Setup);
            },
            Phase::Grounding | Phase::Ready => {
                assert(run.trace.last() == StatusKind::Grounding);
            },
            Phase::Starting => {
                assert(run.trace.last() == StatusKind::Solving);
            },
            _ => {
                if run.trace.len() == 3 {
                    assert(run.trace.last() == run.trace[2]);
                } else {
                    assert(run.trace.last() == run.trace[run.trace.len() - 1]);
                }
            },
        }
    }
}

/// A run tells of no more models than the engine had for it.
pub proof fn lemma_models_told_were_found(events: Seq<Event>)
    ensures
        models_told(after(begin(), events).trace) <= after(begin(), events).models,
{
    lemma_runs_are_sound(events);
}

/// Whether the run `run` is at a point where it reads whether to stop.
pub open spec fn reads_stop(run: Run) -> bool {
    run.phase == Phase::Ready || run.phase == Phase::Polling
}

/// After a run has read that it is to stop, it gives one more message at
/// most, which is `Finished`; and once it is over it has given it.
pub proof fn lemma_stopped_run(run: Run, later: Seq<Event>)
    requires
        reads_stop(run),
    ensures
        ({
            let end = after(advance(run, Event::StopFlag(true)), later);
            &&& end.models == run.models
            &&& end.phase == Phase::Done || end.phase == Phase::Cancelling
            &&& end.phase == Phase::Done ==> end.trace == run.trace.push(StatusKind::Finished)
            &&& end.phase == Phase::Cancelling ==> end.trace == run.trace
        }),
    decreases later.len(),
{
    if later.len() > 0 {
        lemma_stopped_run(run, later.drop_last());
    }
}

/// A run that is stopped before the engine had a model for it gives no
/// `NewModel`, no `Error`, and, once it is over, exactly one `Finished`, as
/// its last message. The run `before` is any that has come to read whether to
/// stop, and `later` is whatever the driver reports after the stop was read.
pub proof fn lemma_stop_before_any_model(before: Seq<Event>, later: Seq<Event>)
    requires
        reads_stop(after(begin(), before)),
        after(begin(), before).models == 0,
    ensures
        ({
            let seen = after(begin(), before).trace;
            let end = after(begin(), before.push(Event::StopFlag(true)) + later);
            &&& models_told(end.trace) == 0
            &&& forall|i: int| 0 <= i < end.trace.len() ==> end.trace[i] != StatusKind::Error
            &&& forall|i: int| 0 <= i < seen.len() ==> seen[i] != StatusKind::Finished
            &&& end.phase == Phase::Done ==> end.trace == seen.push(StatusKind::Finished)
            &&& end.phase != Phase::Done ==> end.trace == seen
        }),
{
    lemma_stop_after_models(before, later);
    let end = after(begin(), before.push(Event::StopFlag(true)) + later);
    let seen = after(begin(), before).trace;
    if end.phase == Phase::Done {
        assert(end.trace.drop_last() =~= seen);
    }
}

/// A run that is stopped after the engine had `n` models for it has told of
/// `n` models at most, and gives after the stop no message but, once it is
/// over, exactly one `Finished`. No message before the stop is `Finished` or
/// `Error`. The run `before` is any that has come to read whether to stop, and
/// `later` is whatever the driver reports after the stop was read.
pub proof fn lemma_stop_after_models(before: Seq<Event>, later: Seq<Event>)
    requires
        reads_stop(after(begin(), before)),
    ensures
        ({
            let seen = after(begin(), before).trace;
            let end = after(begin(), before.push(Event::StopFlag(true)) + later);
            &&& models_told(seen) <= after(begin(), before).models
            &&& forall|i: int| 0 <= i < seen.len() ==> !(#[trigger] seen[i]).is_last()
            &&& end.phase == Phase::Done ==> end.trace == seen.push(StatusKind::Finished)
            &&& end.phase != Phase::Done ==> end.trace == seen
            &&& models_told(end.trace) == models_told(seen)
        }),
{
    let run = after(begin(), before);
    lemma_runs_are_sound(before);
    let stopped = before.push(Event::StopFlag(true));
    assert(stopped.drop_last() =~= before);
    assert(stopped.last() == Event::StopFlag(true));
    assert(after(begin(), stopped) == advance(run, Event::StopFlag(true)));
    lemma_after_both(begin(), stopped, later);
    lemma_stopped_run(run, later);
    let end = after(begin(), stopped + later);
    let seen = run.trace;
    assert forall|i: int| 0 <= i < seen.len() implies !(#[trigger] seen[i]).is_last() by {
        if seen[i].is_last() {
            assert(i == seen.len() - 1);
            if run.phase == Phase::Ready {
                assert(seen[i] == StatusKind::Grounding);
            } else if seen.len() == 3 {
                assert(seen[i] == StatusKind::Solving);
            } else {
                assert(seen[i] == StatusKind::NewModel);
            }
        }
    }
    if end.phase == Phase::Done {
        assert(end.trace.drop_last() =~= seen);
    }
}

/// The kinds of the messages `messages`, in their order.
pub open spec fn kinds(messages: Seq<OptimizeStatus>) -> Seq<StatusKind> {
    Seq::new(messages.len(), |i: int| kind(messages[i]@))
}

/// The messages `messages` as their views, in their order.
pub open spec fn views(messages: Seq<OptimizeStatus>) -> Seq<StatusView> {
    Seq::new(messages.len(), |i: int| messages[i]@)
}

/// The messages of a run on the template `template` and the candidate items
/// `items` after the driver reported `events`: `Setup`, and then for each
/// report the message that the worker gives for it in the phase that the run
/// had come to, where it gives one.
pub open spec fn messages_after(
    template: Template,
    items: Seq<Arc<Item>>,
    events: Seq<Event>,
) -> Seq<StatusView>
    decreases events.len(),
{
    if events.len() == 0 {
        seq![StatusView::Setup]
    } else {
        let before = messages_after(template, items, events.drop_last());
        match message_of(
            template.spec_name(),
            template.spec_class(),
            template@,
            items,
            outcome(after(begin(), events.drop_last()).phase, events.last()),
        ) {
            Some(message) => before.push(message),
            None => before,
        }
    }
}

/// Follows a whole run at once: begins a run on the template `template` and
/// the candidate items `items`, hands the worker the reports `events` one
/// after the other, and returns the worker after the last of them with all
/// the messages of the run, in their order. Each message is the one that the
/// worker gives for its report: a `NewModel` holds the template with the
/// choices of its model applied, and an `Error` the text of what failed.
/// Whatever the reports are, the messages are those of a run, so that
/// everything that holds of every run holds of them.
pub fn replay(template: Template, items: Vec<Arc<Item>>, events: Vec<Event>) -> (end: (
    Worker,
    Vec<OptimizeStatus>,
))
    ensures
        end.0.spec_phase() == after(begin(), events@).phase,
        end.0.spec_template() == template,
        end.0.spec_items() == items@,
        views(end.1@) == messages_after(template, items@, events@),
        kinds(end.1@) == after(begin(), events@).trace,
        in_order(kinds(end.1@)),
        end.0.spec_phase() == Phase::Done <==> kinds(end.1@).last().is_last(),
{
    let ghost reports = events@;
    let mut rest = events;
    let mut stack: Vec<Event> = Vec::new();
    while rest.len() > 0
        invariant
            rest@.len() + stack@.len() == reports.len(),
            rest@ == reports.take(rest@.len() as int),
            forall|j: int|
                0 <= j < stack@.len() ==> stack@[j] == reports[reports.len() - 1 - j],
        decreases rest@.len(),
    {
        let event = rest.pop().unwrap();
        stack.push(event);
        assert(rest@ =~= reports.take(rest@.len() as int));
    }
    let first = Worker::start(template, items);
    let mut worker = first.worker;
    let mut messages: Vec<OptimizeStatus> = Vec::new();
    match first.message {
        Some(message) => {
            messages.push(message);
        },
        None => {},
    }
    proof {
        assert(reports.take(0) =~= Seq::<Event>::empty());
        assert(kinds(messages@) =~= begin().trace);
        assert(views(messages@) =~= seq![StatusView::Setup]);
    }
    while stack.len() > 0
        invariant
            stack@.len() <= reports.len(),
            forall|j: int|
                0 <= j < stack@.len() ==> stack@[j] == reports[reports.len() - 1 - j],
            worker.spec_phase() == after(begin(), reports.take(reports.len() - stack@.len())).phase,
            worker.spec_template() == template,
            worker.spec_items() == items@,
            kinds(messages@) == after(begin(), reports.take(reports.len() - stack@.len())).trace,
            views(messages@) == messages_after(
                template,
                items@,
                reports.take(reports.len() - stack@.len()),
            ),
        decreases stack@.len(),
    {
        let ghost done = reports.len() - stack@.len();
        let ghost before = after(begin(), reports.take(done));
        let ghost told = messages@;
        let event = stack.pop().unwrap();
        proof {
            let next = reports.take(done + 1);
            assert(event == reports[done]);
            assert(next.drop_last() =~= reports.take(done));
            assert(next.last() == event);
            assert(after(begin(), next) == advance(before, event));
            lemma_message_has_its_kind(
                template.spec_name(),
                template.spec_class(),
                template@,
                items@,
                outcome(before.phase, event),
            );
        }
        let step = worker.step(event);
        worker = step.worker;
        match step.message {
            Some(message) => {
                messages.push(message);
                proof {
                    assert(kinds(messages@) =~= kinds(told).push(kind(message@)));
                    assert(views(messages@) =~= views(told).push(message@));
                }
            },
            None => {},
        }
    }
    proof {
        assert(reports.take(reports.len() as int) =~= reports);
        lemma_messages_in_order(reports);
    }
    (worker, messages)
}

} // verus!
