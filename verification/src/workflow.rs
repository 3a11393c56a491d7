use vstd::prelude::*;
use crate::dialog::{
    confirmation_text, rendered, ConfirmationRequest, ConfirmationRequestView,
    DialogPresentationError, DialogRequest, DialogRequestView, DialogResult, DialogResultView,
    SelectionRequest, SelectionRequestView,
};

verus! {

/// The mathematical view of the outcome of a run.
pub enum WorkflowOutcomeView {
    Acted(Seq<char>),
    SkippedNoSelection,
    SkippedNotConfirmed,
}

/// What one run of the workflow came to.
#[derive(Debug, PartialEq, Eq)]
pub enum WorkflowOutcome {
    /// The user picked the path and said yes, and the action was done on it.
    Acted(String),
    /// The user picked nothing.
    SkippedNoSelection,
    /// The user picked a path and then said no.
    SkippedNotConfirmed,
}

impl View for WorkflowOutcome {
    type V = WorkflowOutcomeView;

    open spec fn view(&self) -> WorkflowOutcomeView {
        match self {
            WorkflowOutcome::Acted(path) => WorkflowOutcomeView::Acted(path@),
            WorkflowOutcome::SkippedNoSelection => WorkflowOutcomeView::SkippedNoSelection,
            WorkflowOutcome::SkippedNotConfirmed => WorkflowOutcomeView::SkippedNotConfirmed,
        }
    }
}

impl Clone for WorkflowOutcome {
    fn clone(&self) -> (copy: WorkflowOutcome)
        ensures
            copy@ == self@,
    {
        match self {
            WorkflowOutcome::Acted(path) => WorkflowOutcome::Acted(path.clone()),
            WorkflowOutcome::SkippedNoSelection => WorkflowOutcome::SkippedNoSelection,
            WorkflowOutcome::SkippedNotConfirmed => WorkflowOutcome::SkippedNotConfirmed,
        }
    }
}

/// The mathematical view of a state of the workflow.
pub enum WorkflowStateView {
    Idle,
    AwaitingSelection,
    AwaitingConfirmation(Seq<char>),
    Acting(Seq<char>),
    Done(WorkflowOutcomeView),
}

/// Where a run of the workflow stands.
#[derive(Debug, PartialEq, Eq)]
pub enum WorkflowState {
    /// No run has begun.
    Idle,
    /// The selection dialog is up.
    AwaitingSelection,
    /// The confirmation dialog is up, for the path that was picked.
    AwaitingConfirmation(String),
    /// The action is being done on the path that was confirmed.
    Acting(String),
    /// The run is over.
    Done(WorkflowOutcome),
}

impl View for WorkflowState {
    type V = WorkflowStateView;

    open spec fn view(&self) -> WorkflowStateView {
        match self {
            WorkflowState::Idle => WorkflowStateView::Idle,
            WorkflowState::AwaitingSelection => WorkflowStateView::AwaitingSelection,
            WorkflowState::AwaitingConfirmation(path) => WorkflowStateView::AwaitingConfirmation(
                path@,
            ),
            WorkflowState::Acting(path) => WorkflowStateView::Acting(path@),
            WorkflowState::Done(outcome) => WorkflowStateView::Done(outcome@),
        }
    }
}

impl Clone for WorkflowState {
    fn clone(&self) -> (copy: WorkflowState)
        ensures
            copy@ == self@,
    {
        match self {
            WorkflowState::Idle => WorkflowState::Idle,
            WorkflowState::AwaitingSelection => WorkflowState::AwaitingSelection,
            WorkflowState::AwaitingConfirmation(path) => WorkflowState::AwaitingConfirmation(
                path.clone(),
            ),
            WorkflowState::Acting(path) => WorkflowState::Acting(path.clone()),
            WorkflowState::Done(outcome) => WorkflowState::Done(outcome.clone()),
        }
    }
}

/// The mathematical view of an event.
pub enum WorkflowEventView {
    Trigger,
    Answered(DialogResultView),
    PresentationFailed(Seq<char>),
    ActionDone,
}

/// What the hosting loop hands to the workflow.
#[derive(Debug, PartialEq, Eq)]
pub enum WorkflowEvent {
    /// The workflow's trigger fired.
    Trigger,
    /// The user answered the dialog that was asked for last.
    Answered(DialogResult),
    /// The dialog that was asked for last could not be presented.
    PresentationFailed(DialogPresentationError),
    /// The action that was asked for last has been done.
    ActionDone,
}

impl View for WorkflowEvent {
    type V = WorkflowEventView;

    open spec fn view(&self) -> WorkflowEventView {
        match self {
            WorkflowEvent::Trigger => WorkflowEventView::Trigger,
            WorkflowEvent::Answered(answer) => WorkflowEventView::Answered(answer@),
            WorkflowEvent::PresentationFailed(error) => WorkflowEventView::PresentationFailed(
                error@,
            ),
            WorkflowEvent::ActionDone => WorkflowEventView::ActionDone,
        }
    }
}

impl Clone for WorkflowEvent {
    fn clone(&self) -> (copy: WorkflowEvent)
        ensures
            copy@ == self@,
    {
        match self {
            WorkflowEvent::Trigger => WorkflowEvent::Trigger,
            WorkflowEvent::Answered(answer) => WorkflowEvent::Answered(answer.clone()),
            WorkflowEvent::PresentationFailed(error) => WorkflowEvent::PresentationFailed(
                error.clone(),
            ),
            WorkflowEvent::ActionDone => WorkflowEvent::ActionDone,
        }
    }
}

/// The mathematical view of an action.
pub enum WorkflowActionView {
    Present(DialogRequestView),
    Act(Seq<char>),
    Conclude(WorkflowOutcomeView),
}

/// What the workflow asks the hosting loop to do next.
#[derive(Debug, PartialEq, Eq)]
pub enum WorkflowAction {
    /// Present the dialog and come back with the answer, or with the failure.
    Present(DialogRequest),
    /// Do the terminal action on the path and come back when it is done.
    Act(String),
    /// The run is over; this is what it came to.
    Conclude(WorkflowOutcome),
}

impl View for WorkflowAction {
    type V = WorkflowActionView;

    open spec fn view(&self) -> WorkflowActionView {
        match self {
            WorkflowAction::Present(request) => WorkflowActionView::Present(request@),
            WorkflowAction::Act(path) => WorkflowActionView::Act(path@),
            WorkflowAction::Conclude(outcome) => WorkflowActionView::Conclude(outcome@),
        }
    }
}

impl Clone for WorkflowAction {
    fn clone(&self) -> (copy: WorkflowAction)
        ensures
            copy@ == self@,
    {
        match self {
            WorkflowAction::Present(request) => WorkflowAction::Present(request.clone()),
            WorkflowAction::Act(path) => WorkflowAction::Act(path.clone()),
            WorkflowAction::Conclude(outcome) => WorkflowAction::Conclude(outcome.clone()),
        }
    }
}

/// The mathematical view of an error of the workflow.
pub enum WorkflowErrorView {
    DialogPresentation(Seq<char>),
    UnexpectedEvent,
}

/// Why a step of the workflow asked for nothing.
#[derive(Debug, PartialEq, Eq)]
pub enum WorkflowError {
    /// A dialog could not be presented. The run is given up; no answer is made
    /// up in the user's place.
    DialogPresentation(DialogPresentationError),
    /// The event is not one that the state waits for. The state stays.
    UnexpectedEvent,
}

impl View for WorkflowError {
    type V = WorkflowErrorView;

    open spec fn view(&self) -> WorkflowErrorView {
        match self {
            WorkflowError::DialogPresentation(error) => WorkflowErrorView::DialogPresentation(
                error@,
            ),
            WorkflowError::UnexpectedEvent => WorkflowErrorView::UnexpectedEvent,
        }
    }
}

impl Clone for WorkflowError {
    fn clone(&self) -> (copy: WorkflowError)
        ensures
            copy@ == self@,
    {
        match self {
            WorkflowError::DialogPresentation(error) => WorkflowError::DialogPresentation(
                error.clone(),
            ),
            WorkflowError::UnexpectedEvent => WorkflowError::UnexpectedEvent,
        }
    }
}

/// The mathematical view of the settings of a workflow.
pub struct WorkflowConfigView {
    pub selection: SelectionRequestView,
    pub confirmation_title: Seq<char>,
}

/// What stays the same from run to run: the selection dialog to open, and the
/// title of the confirmation dialog.
#[derive(Debug, PartialEq, Eq)]
pub struct WorkflowConfig {
    pub selection: SelectionRequest,
    pub confirmation_title: String,
}

impl View for WorkflowConfig {
    type V = WorkflowConfigView;

    open spec fn view(&self) -> WorkflowConfigView {
        WorkflowConfigView {
            selection: self.selection@,
            confirmation_title: self.confirmation_title@,
        }
    }
}

impl Clone for WorkflowConfig {
    fn clone(&self) -> (copy: WorkflowConfig)
        ensures
            copy@ == self@,
    {
        WorkflowConfig {
            selection: self.selection.clone(),
            confirmation_title: self.confirmation_title.clone(),
        }
    }
}

/// What a step comes to: the state the run is in afterwards, and what is asked of
/// the hosting loop, or why nothing is.
pub struct Transition {
    pub state: WorkflowStateView,
    pub asked: Result<WorkflowActionView, WorkflowErrorView>,
}

/// The confirmation dialog that asks about `path`.
pub open spec fn confirmation_of(config: WorkflowConfigView, path: Seq<char>) -> DialogRequestView {
    DialogRequestView::Confirmation(
        ConfirmationRequestView { title: config.confirmation_title, text: rendered(path) },
    )
}

/// The workflow's rule: what `event` does to a run in `state`.
///
/// A trigger starts a run from rest, whether or not an earlier run has ended
/// there. The run then waits for the answer to its selection dialog, for the
/// answer to its confirmation dialog, and for the action, in this order, and
/// ends as soon as the user picks nothing or says no. A dialog that cannot be
/// presented ends the run with the error and leaves the workflow at rest. Any
/// other event is refused and changes nothing.
pub open spec fn transition(
    config: WorkflowConfigView,
    state: WorkflowStateView,
    event: WorkflowEventView,
) -> Transition {
    match (state, event) {
        (WorkflowStateView::Idle, WorkflowEventView::Trigger)
        | (WorkflowStateView::Done(_), WorkflowEventView::Trigger) => Transition {
            state: WorkflowStateView::AwaitingSelection,
            asked: Ok(WorkflowActionView::Present(DialogRequestView::Selection(config.selection))),
        },
        (
            WorkflowStateView::AwaitingSelection,
            WorkflowEventView::Answered(DialogResultView::Cancelled),
        ) => Transition {
            state: WorkflowStateView::Done(WorkflowOutcomeView::SkippedNoSelection),
            asked: Ok(WorkflowActionView::Conclude(WorkflowOutcomeView::SkippedNoSelection)),
        },
        (
            WorkflowStateView::AwaitingSelection,
            WorkflowEventView::Answered(DialogResultView::Selected(path)),
        ) => Transition {
            state: WorkflowStateView::AwaitingConfirmation(path),
            asked: Ok(WorkflowActionView::Present(confirmation_of(config, path))),
        },
        (
            WorkflowStateView::AwaitingConfirmation(_),
            WorkflowEventView::Answered(DialogResultView::Confirmed(false)),
        ) => Transition {
            state: WorkflowStateView::Done(WorkflowOutcomeView::SkippedNotConfirmed),
            asked: Ok(WorkflowActionView::Conclude(WorkflowOutcomeView::SkippedNotConfirmed)),
        },
        (
            WorkflowStateView::AwaitingConfirmation(path),
            WorkflowEventView::Answered(DialogResultView::Confirmed(true)),
        ) => Transition {
            state: WorkflowStateView::Acting(path),
            asked: Ok(WorkflowActionView::Act(path)),
        },
        (WorkflowStateView::Acting(path), WorkflowEventView::ActionDone) => Transition {
            state: WorkflowStateView::Done(WorkflowOutcomeView::Acted(path)),
            asked: Ok(WorkflowActionView::Conclude(WorkflowOutcomeView::Acted(path))),
        },
        (WorkflowStateView::AwaitingSelection, WorkflowEventView::PresentationFailed(message))
        | (
            WorkflowStateView::AwaitingConfirmation(_),
            WorkflowEventView::PresentationFailed(message),
        ) => Transition {
            state: WorkflowStateView::Idle,
            asked: Err(WorkflowErrorView::DialogPresentation(message)),
        },
        _ => Transition { state, asked: Err(WorkflowErrorView::UnexpectedEvent) },
    }
}

/// What a sequence of events comes to: the state at its end, and what each step
/// asked for, in order.
pub struct Replay {
    pub state: WorkflowStateView,
    pub asked: Seq<Result<WorkflowActionView, WorkflowErrorView>>,
}

/// The workflow taken through `events`, one step for each, from `state`.
pub open spec fn replay(
    config: WorkflowConfigView,
    state: WorkflowStateView,
    events: Seq<WorkflowEventView>,
) -> Replay
    decreases events.len(),
{
    if events.len() == 0 {
        Replay { state, asked: Seq::empty() }
    } else {
        let before = replay(config, state, events.drop_last());
        let last = transition(config, before.state, events.last());
        Replay { state: last.state, asked: before.asked.push(last.asked) }
    }
}

/// Whether the workflow is at rest in `state`, so that a trigger starts a run.
pub open spec fn at_rest(state: WorkflowStateView) -> bool {
    state is Idle || state is Done
}

/// A run in which the user picks nothing is skipped: it presents the selection
/// dialog and concludes. It presents no confirmation dialog and does not act.
pub proof fn lemma_cancelled_selection_is_skipped(
    config: WorkflowConfigView,
    start: WorkflowStateView,
)
    requires
        at_rest(start),
    ensures
        replay(
            config,
            start,
            seq![
                WorkflowEventView::Trigger,
                WorkflowEventView::Answered(DialogResultView::Cancelled),
            ],
        ) == (Replay {
            state: WorkflowStateView::Done(WorkflowOutcomeView::SkippedNoSelection),
            asked: seq![
                Ok(WorkflowActionView::Present(DialogRequestView::Selection(config.selection))),
                Ok(WorkflowActionView::Conclude(WorkflowOutcomeView::SkippedNoSelection)),
            ],
        }),
{
    let events = seq![
        WorkflowEventView::Trigger,
        WorkflowEventView::Answered(DialogResultView::Cancelled),
    ];
    let first = events.drop_last();
    assert(replay(config, start, first.drop_last()).state == start);
    assert(replay(config, start, first).state == WorkflowStateView::AwaitingSelection);
    assert(replay(config, start, events).asked =~= seq![
        Ok(WorkflowActionView::Present(DialogRequestView::Selection(config.selection))),
        Ok(WorkflowActionView::Conclude(WorkflowOutcomeView::SkippedNoSelection)),
    ]);
}

/// A run in which the user picks `path` and then says no is skipped: it presents
/// the selection dialog, then the confirmation dialog for `path`, and concludes.
/// It does not act.
pub proof fn lemma_declined_confirmation_is_skipped(
    config: WorkflowConfigView,
    start: WorkflowStateView,
    path: Seq<char>,
)
    requires
        at_rest(start),
    ensures
        replay(
            config,
            start,
            seq![
                WorkflowEventView::Trigger,
                WorkflowEventView::Answered(DialogResultView::Selected(path)),
                WorkflowEventView::Answered(DialogResultView::Confirmed(false)),
            ],
        ) == (Replay {
            state: WorkflowStateView::Done(WorkflowOutcomeView::SkippedNotConfirmed),
            asked: seq![
                Ok(WorkflowActionView::Present(DialogRequestView::Selection(config.selection))),
                Ok(WorkflowActionView::Present(confirmation_of(config, path))),
                Ok(WorkflowActionView::Conclude(WorkflowOutcomeView::SkippedNotConfirmed)),
            ],
        }),
{
    let events = seq![
        WorkflowEventView::Trigger,
        WorkflowEventView::Answered(DialogResultView::Selected(path)),
        WorkflowEventView::Answered(DialogResultView::Confirmed(false)),
    ];
    let second = events.drop_last();
    let first = second.drop_last();
    assert(replay(config, start, first.drop_last()).state == start);
    assert(replay(config, start, first).state == WorkflowStateView::AwaitingSelection);
    assert(replay(config, start, second).state == WorkflowStateView::AwaitingConfirmation(path));
    assert(replay(config, start, events).asked =~= seq![
        Ok(WorkflowActionView::Present(DialogRequestView::Selection(config.selection))),
        Ok(WorkflowActionView::Present(confirmation_of(config, path))),
        Ok(WorkflowActionView::Conclude(WorkflowOutcomeView::SkippedNotConfirmed)),
    ]);
}

/// A run in which the user picks `path` and then says yes acts on `path`, once:
/// it presents the selection dialog, then the confirmation dialog for `path`,
/// asks for the action on `path`, and concludes with it when the action is done.
pub proof fn lemma_confirmed_selection_is_acted(
    config: WorkflowConfigView,
    start: WorkflowStateView,
    path: Seq<char>,
)
    requires
        at_rest(start),
    ensures
        replay(
            config,
            start,
            seq![
                WorkflowEventView::Trigger,
                WorkflowEventView::Answered(DialogResultView::Selected(path)),
                WorkflowEventView::Answered(DialogResultView::Confirmed(true)),
                WorkflowEventView::ActionDone,
            ],
        ) == (Replay {
            state: WorkflowStateView::Done(WorkflowOutcomeView::Acted(path)),
            asked: seq![
                Ok(WorkflowActionView::Present(DialogRequestView::Selection(config.selection))),
                Ok(WorkflowActionView::Present(confirmation_of(config, path))),
                Ok(WorkflowActionView::Act(path)),
                Ok(WorkflowActionView::Conclude(WorkflowOutcomeView::Acted(path))),
            ],
        }),
{
    let events = seq![
        WorkflowEventView::Trigger,
        WorkflowEventView::Answered(DialogResultView::Selected(path)),
        WorkflowEventView::Answered(DialogResultView::Confirmed(true)),
        WorkflowEventView::ActionDone,
    ];
    let third = events.drop_last();
    let second = third.drop_last();
    let first = second.drop_last();
    assert(replay(config, start, first.drop_last()).state == start);
    assert(replay(config, start, first).state == WorkflowStateView::AwaitingSelection);
    assert(replay(config, start, second).state == WorkflowStateView::AwaitingConfirmation(path));
    assert(replay(config, start, third).state == WorkflowStateView::Acting(path));
    assert(replay(config, start, events).asked =~= seq![
        Ok(WorkflowActionView::Present(DialogRequestView::Selection(config.selection))),
        Ok(WorkflowActionView::Present(confirmation_of(config, path))),
        Ok(WorkflowActionView::Act(path)),
        Ok(WorkflowActionView::Conclude(WorkflowOutcomeView::Acted(path))),
    ]);
}

/// In every state and on every event: a confirmation dialog is asked for only in
/// answer to a selection that yielded a path, and it asks about that path; the
/// action is asked for only in answer to a yes, on the path that the confirmation
/// was about; and a run concludes as acted only when the action on that path is
/// reported done.
pub proof fn lemma_nothing_without_consent(
    config: WorkflowConfigView,
    state: WorkflowStateView,
    event: WorkflowEventView,
)
    ensures
        match transition(config, state, event).asked {
            Ok(WorkflowActionView::Present(DialogRequestView::Confirmation(request))) => {
                &&& state is AwaitingSelection
                &&& match event {
                    WorkflowEventView::Answered(DialogResultView::Selected(path)) => request.text
                        == rendered(path),
                    _ => false,
                }
            },
            Ok(WorkflowActionView::Act(path)) => {
                &&& state == WorkflowStateView::AwaitingConfirmation(path)
                &&& event == WorkflowEventView::Answered(DialogResultView::Confirmed(true))
            },
            Ok(WorkflowActionView::Conclude(WorkflowOutcomeView::Acted(path))) => {
                &&& state == WorkflowStateView::Acting(path)
                &&& event == WorkflowEventView::ActionDone
            },
            _ => true,
        },
{
}

/// How many steps a run in `state` is from its end, at most.
pub open spec fn steps_left(state: WorkflowStateView) -> nat {
    match state {
        WorkflowStateView::AwaitingSelection => 3,
        WorkflowStateView::AwaitingConfirmation(_) => 2,
        WorkflowStateView::Acting(_) => 1,
        _ => 0,
    }
}

/// A run never goes back or round: at rest only a trigger is taken, and it
/// starts a run; within a run every step that asks for something brings the run
/// nearer to its end, so that no dialog is presented twice; a dialog that failed
/// leaves the workflow at rest; and a refused event leaves the state as it was.
pub proof fn lemma_run_moves_on(
    config: WorkflowConfigView,
    state: WorkflowStateView,
    event: WorkflowEventView,
)
    ensures
        match transition(config, state, event).asked {
            Ok(_) => if at_rest(state) {
                event is Trigger && transition(config, state, event).state is AwaitingSelection
            } else {
                steps_left(transition(config, state, event).state) < steps_left(state)
            },
            Err(WorkflowErrorView::DialogPresentation(_)) => transition(
                config,
                state,
                event,
            ).state is Idle,
            Err(WorkflowErrorView::UnexpectedEvent) => transition(config, state, event).state
                == state,
        },
{
}

/// A step concludes the run exactly when it brings the run to its end, and what
/// it concludes with is the outcome that the state then holds.
pub proof fn lemma_conclusion_is_the_outcome(
    config: WorkflowConfigView,
    state: WorkflowStateView,
    event: WorkflowEventView,
)
    ensures
        match transition(config, state, event).asked {
            Ok(WorkflowActionView::Conclude(outcome)) => transition(config, state, event).state
                == WorkflowStateView::Done(outcome),
            Ok(_) => !(transition(config, state, event).state is Done),
            Err(_) => true,
        },
{
}

/// The view of what a step asked for, or of its error.
pub open spec fn asked_view(asked: Result<WorkflowAction, WorkflowError>) -> Result<
    WorkflowActionView,
    WorkflowErrorView,
> {
    match asked {
        Ok(action) => Ok(action@),
        Err(error) => Err(error@),
    }
}

/// Takes a run of the workflow one step further: from the state it is in and the
/// event that came, to the state it is in afterwards and what the hosting loop is
/// to do next.
pub fn step(config: &WorkflowConfig, state: WorkflowState, event: WorkflowEvent) -> (next: (
    WorkflowState,
    Result<WorkflowAction, WorkflowError>,
))
    ensures
        (Transition { state: next.0@, asked: asked_view(next.1) }) == transition(
            config@,
            state@,
            event@,
        ),
{
    match (state, event) {
        (WorkflowState::Idle, WorkflowEvent::Trigger)
        | (WorkflowState::Done(_), WorkflowEvent::Trigger) => (
            WorkflowState::AwaitingSelection,
            Ok(WorkflowAction::Present(DialogRequest::Selection(config.selection.clone()))),
        ),
        (WorkflowState::AwaitingSelection, WorkflowEvent::Answered(DialogResult::Cancelled)) => (
            WorkflowState::Done(WorkflowOutcome::SkippedNoSelection),
            Ok(WorkflowAction::Conclude(WorkflowOutcome::SkippedNoSelection)),
        ),
        (
            WorkflowState::AwaitingSelection,
            WorkflowEvent::Answered(DialogResult::Selected(path)),
        ) => {
            let request = ConfirmationRequest {
                title: config.confirmation_title.clone(),
                text: confirmation_text(path.as_str()),
            };
            (
                WorkflowState::AwaitingConfirmation(path),
                Ok(WorkflowAction::Present(DialogRequest::Confirmation(request))),
            )
        },
        (
            WorkflowState::AwaitingConfirmation(path),
            WorkflowEvent::Answered(DialogResult::Confirmed(yes)),
        ) => {
            if yes {
                let target = path.clone();
                (WorkflowState::Acting(path), Ok(WorkflowAction::Act(target)))
            } else {
                (
                    WorkflowState::Done(WorkflowOutcome::SkippedNotConfirmed),
                    Ok(WorkflowAction::Conclude(WorkflowOutcome::SkippedNotConfirmed)),
                )
            }
        },
        (WorkflowState::Acting(path), WorkflowEvent::ActionDone) => {
            let reported = path.clone();
            (
                WorkflowState::Done(WorkflowOutcome::Acted(path)),
                Ok(WorkflowAction::Conclude(WorkflowOutcome::Acted(reported))),
            )
        },
        (WorkflowState::AwaitingSelection, WorkflowEvent::PresentationFailed(error))
        | (WorkflowState::AwaitingConfirmation(_), WorkflowEvent::PresentationFailed(error)) => (
            WorkflowState::Idle,
            Err(WorkflowError::DialogPresentation(error)),
        ),
        (state, _) => (state, Err(WorkflowError::UnexpectedEvent)),
    }
}

} // verus!
