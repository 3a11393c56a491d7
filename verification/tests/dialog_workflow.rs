use ui_shell::dialog::{
    confirmation_text, ConfirmationRequest, DialogFilter, DialogPresentationError, DialogRequest,
    DialogResult, SelectionRequest, SelectionTarget,
};
use ui_shell::workflow::{
    step, WorkflowAction, WorkflowConfig, WorkflowError, WorkflowEvent, WorkflowOutcome,
    WorkflowState,
};

fn config() -> WorkflowConfig {
    WorkflowConfig {
        selection: SelectionRequest {
            title: "asd test title".to_string(),
            target: SelectionTarget::Directory,
            location: Some("~".to_string()),
            filters: Vec::new(),
        },
        confirmation_title: "Do you want to open the file?".to_string(),
    }
}

fn failure(message: &str) -> DialogPresentationError {
    DialogPresentationError { message: message.to_string() }
}

fn selected(path: &str) -> WorkflowEvent {
    WorkflowEvent::Answered(DialogResult::Selected(path.to_string()))
}

fn confirmed(yes: bool) -> WorkflowEvent {
    WorkflowEvent::Answered(DialogResult::Confirmed(yes))
}

fn cancelled() -> WorkflowEvent {
    WorkflowEvent::Answered(DialogResult::Cancelled)
}

/// A dialog layer that answers from a script and counts what it is asked.
struct ScriptedHost {
    selection: Result<Option<String>, String>,
    confirmation: Result<bool, String>,
    selections: Vec<SelectionRequest>,
    confirmations: Vec<ConfirmationRequest>,
    actions: Vec<String>,
}

impl ScriptedHost {
    fn new(selection: Result<Option<&str>, &str>, confirmation: Result<bool, &str>) -> Self {
        ScriptedHost {
            selection: selection.map(|path| path.map(str::to_string)).map_err(str::to_string),
            confirmation: confirmation.map_err(str::to_string),
            selections: Vec::new(),
            confirmations: Vec::new(),
            actions: Vec::new(),
        }
    }

    fn perform(&mut self, action: WorkflowAction) -> Result<WorkflowEvent, WorkflowOutcome> {
        match action {
            WorkflowAction::Present(DialogRequest::Selection(request)) => {
                self.selections.push(request);
                Ok(match self.selection.clone() {
                    Ok(Some(path)) => WorkflowEvent::Answered(DialogResult::Selected(path)),
                    Ok(None) => WorkflowEvent::Answered(DialogResult::Cancelled),
                    Err(message) => {
                        WorkflowEvent::PresentationFailed(DialogPresentationError { message })
                    }
                })
            }
            WorkflowAction::Present(DialogRequest::Confirmation(request)) => {
                self.confirmations.push(request);
                Ok(match self.confirmation.clone() {
                    Ok(yes) => WorkflowEvent::Answered(DialogResult::Confirmed(yes)),
                    Err(message) => {
                        WorkflowEvent::PresentationFailed(DialogPresentationError { message })
                    }
                })
            }
            WorkflowAction::Act(path) => {
                self.actions.push(path);
                Ok(WorkflowEvent::ActionDone)
            }
            WorkflowAction::Conclude(outcome) => Err(outcome),
        }
    }

    fn run(
        &mut self,
        config: &WorkflowConfig,
        start: WorkflowState,
    ) -> (WorkflowState, Result<WorkflowOutcome, WorkflowError>) {
        let mut state = start;
        let mut event = WorkflowEvent::Trigger;
        for _ in 0..16 {
            let (next, asked) = step(config, state, event);
            state = next;
            match asked {
                Err(error) => return (state, Err(error)),
                Ok(action) => match self.perform(action) {
                    Ok(answer) => event = answer,
                    Err(outcome) => return (state, Ok(outcome)),
                },
            }
        }
        panic!("the run did not end");
    }
}

#[test]
fn cancelled_selection_presents_no_confirmation() {
    let mut host = ScriptedHost::new(Ok(None), Ok(true));

    let (state, result) = host.run(&config(), WorkflowState::Idle);

    assert_eq!(result, Ok(WorkflowOutcome::SkippedNoSelection));
    assert_eq!(state, WorkflowState::Done(WorkflowOutcome::SkippedNoSelection));
    assert_eq!(host.selections.len(), 1);
    assert_eq!(host.confirmations.len(), 0);
    assert_eq!(host.actions.len(), 0);
}

#[test]
fn declined_confirmation_never_acts() {
    let mut host = ScriptedHost::new(Ok(Some("/tmp/report.txt")), Ok(false));

    let (state, result) = host.run(&config(), WorkflowState::Idle);

    assert_eq!(result, Ok(WorkflowOutcome::SkippedNotConfirmed));
    assert_eq!(state, WorkflowState::Done(WorkflowOutcome::SkippedNotConfirmed));
    assert_eq!(host.selections.len(), 1);
    assert_eq!(host.confirmations.len(), 1);
    assert_eq!(host.actions.len(), 0);
}

#[test]
fn confirmed_selection_acts_once_on_the_path() {
    let mut host = ScriptedHost::new(Ok(Some("/tmp/report.txt")), Ok(true));

    let (state, result) = host.run(&config(), WorkflowState::Idle);

    assert_eq!(result, Ok(WorkflowOutcome::Acted("/tmp/report.txt".to_string())));
    assert_eq!(state, WorkflowState::Done(WorkflowOutcome::Acted("/tmp/report.txt".to_string())));
    assert_eq!(host.selections.len(), 1);
    assert_eq!(host.confirmations.len(), 1);
    assert_eq!(host.actions, vec!["/tmp/report.txt".to_string()]);
}

#[test]
fn docs_directory_confirmed_is_acted_and_asked_about() {
    let mut host = ScriptedHost::new(Ok(Some("/home/user/docs")), Ok(true));

    let (_, result) = host.run(&config(), WorkflowState::Idle);

    assert_eq!(result, Ok(WorkflowOutcome::Acted("/home/user/docs".to_string())));
    assert_eq!(host.confirmations.len(), 1);
    assert!(host.confirmations[0].text.contains("/home/user/docs"));
    assert_eq!(host.confirmations[0].text, "\"/home/user/docs\"");
    assert_eq!(host.confirmations[0].title, "Do you want to open the file?");
    assert_eq!(host.actions, vec!["/home/user/docs".to_string()]);
}

#[test]
fn selection_dialog_is_the_configured_one() {
    let mut settings = config();
    settings.selection.target = SelectionTarget::File;
    settings.selection.location = None;
    settings.selection.filters = vec![
        DialogFilter { label: "PNG Image".to_string(), extensions: vec!["png".to_string()] },
        DialogFilter {
            label: "JPEG Image".to_string(),
            extensions: vec!["jpg".to_string(), "jpeg".to_string()],
        },
    ];
    let mut host = ScriptedHost::new(Ok(None), Ok(true));

    host.run(&settings, WorkflowState::Idle);

    assert_eq!(host.selections, vec![settings.selection.clone()]);
    assert_eq!(host.selections[0].filters[1].extensions, vec!["jpg", "jpeg"]);
    assert_eq!(host.selections[0].target, SelectionTarget::File);
    assert_eq!(host.selections[0].location, None);
    assert_eq!(host.selections[0].title, "asd test title");
}

#[test]
fn each_step_asks_for_the_next_thing() {
    let settings = config();

    let (state, asked) = step(&settings, WorkflowState::Idle, WorkflowEvent::Trigger);
    assert_eq!(state, WorkflowState::AwaitingSelection);
    assert_eq!(
        asked,
        Ok(WorkflowAction::Present(DialogRequest::Selection(settings.selection.clone())))
    );

    let (state, asked) = step(&settings, state, selected("/srv/data"));
    assert_eq!(state, WorkflowState::AwaitingConfirmation("/srv/data".to_string()));
    assert_eq!(
        asked,
        Ok(WorkflowAction::Present(DialogRequest::Confirmation(ConfirmationRequest {
            title: "Do you want to open the file?".to_string(),
            text: "\"/srv/data\"".to_string(),
        })))
    );

    let (state, asked) = step(&settings, state, confirmed(true));
    assert_eq!(state, WorkflowState::Acting("/srv/data".to_string()));
    assert_eq!(asked, Ok(WorkflowAction::Act("/srv/data".to_string())));

    let (state, asked) = step(&settings, state, WorkflowEvent::ActionDone);
    assert_eq!(state, WorkflowState::Done(WorkflowOutcome::Acted("/srv/data".to_string())));
    assert_eq!(
        asked,
        Ok(WorkflowAction::Conclude(WorkflowOutcome::Acted("/srv/data".to_string())))
    );
}

#[test]
fn selection_that_cannot_be_presented_is_an_error_not_a_cancel() {
    let mut host = ScriptedHost::new(Err("no display"), Ok(true));

    let (state, result) = host.run(&config(), WorkflowState::Idle);

    assert_eq!(result, Err(WorkflowError::DialogPresentation(failure("no display"))));
    assert_eq!(state, WorkflowState::Idle);
    assert_eq!(host.selections.len(), 1);
    assert_eq!(host.confirmations.len(), 0);
    assert_eq!(host.actions.len(), 0);
}

#[test]
fn confirmation_that_cannot_be_presented_is_an_error_not_a_no() {
    let mut host = ScriptedHost::new(Ok(Some("/tmp/x")), Err("toolkit not initialized"));

    let (state, result) = host.run(&config(), WorkflowState::Idle);

    assert_eq!(
        result,
        Err(WorkflowError::DialogPresentation(failure("toolkit not initialized")))
    );
    assert_eq!(state, WorkflowState::Idle);
    assert_eq!(host.confirmations.len(), 1);
    assert_eq!(host.actions.len(), 0);
}

#[test]
fn trigger_after_a_run_starts_a_fresh_one() {
    let settings = config();
    let mut first = ScriptedHost::new(Ok(Some("/tmp/a")), Ok(true));
    let (state, result) = first.run(&settings, WorkflowState::Idle);
    assert_eq!(result, Ok(WorkflowOutcome::Acted("/tmp/a".to_string())));

    let mut second = ScriptedHost::new(Ok(None), Ok(true));
    let (state, result) = second.run(&settings, state);
    assert_eq!(result, Ok(WorkflowOutcome::SkippedNoSelection));
    assert_eq!(state, WorkflowState::Done(WorkflowOutcome::SkippedNoSelection));

    let mut third = ScriptedHost::new(Err("no display"), Ok(true));
    let (state, _) = third.run(&settings, state);
    let mut fourth = ScriptedHost::new(Ok(Some("/tmp/b")), Ok(false));
    let (_, result) = fourth.run(&settings, state);
    assert_eq!(result, Ok(WorkflowOutcome::SkippedNotConfirmed));
}

fn refused(state: WorkflowState, event: WorkflowEvent) {
    let (kept, asked) = step(&config(), state.clone(), event);
    assert_eq!(kept, state);
    assert_eq!(asked, Err(WorkflowError::UnexpectedEvent));
}

#[test]
fn events_that_a_state_does_not_wait_for_are_refused() {
    refused(WorkflowState::Idle, cancelled());
    refused(WorkflowState::Idle, selected("/tmp/a"));
    refused(WorkflowState::Idle, confirmed(true));
    refused(WorkflowState::Idle, WorkflowEvent::ActionDone);
    refused(WorkflowState::Idle, WorkflowEvent::PresentationFailed(failure("x")));

    refused(WorkflowState::AwaitingSelection, WorkflowEvent::Trigger);
    refused(WorkflowState::AwaitingSelection, confirmed(true));
    refused(WorkflowState::AwaitingSelection, confirmed(false));
    refused(WorkflowState::AwaitingSelection, WorkflowEvent::ActionDone);

    let awaiting = || WorkflowState::AwaitingConfirmation("/tmp/a".to_string());
    refused(awaiting(), WorkflowEvent::Trigger);
    refused(awaiting(), cancelled());
    refused(awaiting(), selected("/tmp/b"));
    refused(awaiting(), WorkflowEvent::ActionDone);

    let acting = || WorkflowState::Acting("/tmp/a".to_string());
    refused(acting(), WorkflowEvent::Trigger);
    refused(acting(), cancelled());
    refused(acting(), selected("/tmp/b"));
    refused(acting(), confirmed(true));
    refused(acting(), WorkflowEvent::PresentationFailed(failure("x")));

    let done = || WorkflowState::Done(WorkflowOutcome::Acted("/tmp/a".to_string()));
    refused(done(), cancelled());
    refused(done(), confirmed(true));
    refused(done(), WorkflowEvent::ActionDone);
    refused(done(), WorkflowEvent::PresentationFailed(failure("x")));
    refused(WorkflowState::Done(WorkflowOutcome::SkippedNoSelection), selected("/tmp/a"));
    refused(WorkflowState::Done(WorkflowOutcome::SkippedNotConfirmed), confirmed(false));
}

#[test]
fn confirmation_text_quotes_the_path() {
    assert_eq!(confirmation_text("/home/user/docs"), "\"/home/user/docs\"");
    assert_eq!(confirmation_text(""), "\"\"");
    assert_eq!(confirmation_text("C:\\Users\\me"), "\"C:\\Users\\me\"");
    assert_eq!(confirmation_text("say \"hi\""), "\"say \"hi\"\"");
    assert_eq!(confirmation_text("/tmp/gr\u{fc}n"), "\"/tmp/gr\u{fc}n\"");
}

#[test]
fn confirmation_text_holds_the_path_behind_the_quote() {
    for path in ["/", "/home/user/docs", "relative/dir", "a b c", "\"", ""] {
        let text = confirmation_text(path);
        assert_eq!(text.chars().count(), path.chars().count() + 2);
        assert_eq!(&text[1..1 + path.len()], path);
    }
}

#[test]
fn copies_of_requests_equal_what_was_copied() {
    let filter = DialogFilter {
        label: "JPEG Image".to_string(),
        extensions: vec!["jpg".to_string(), "jpeg".to_string()],
    };
    assert_eq!(filter.clone(), filter);

    let bare = DialogFilter { label: String::new(), extensions: Vec::new() };
    assert_eq!(bare.clone(), bare);

    let request = SelectionRequest {
        title: "Open".to_string(),
        target: SelectionTarget::File,
        location: Some("/tmp".to_string()),
        filters: vec![filter, bare],
    };
    assert_eq!(request.clone(), request);

    let plain = config().selection;
    assert_eq!(plain.clone(), plain);
}

#[test]
fn copies_of_workflow_values_equal_what_was_copied() {
    let settings = config();
    assert_eq!(settings.clone(), settings);

    let states = [
        WorkflowState::Idle,
        WorkflowState::AwaitingSelection,
        WorkflowState::AwaitingConfirmation("/tmp/a".to_string()),
        WorkflowState::Acting("/tmp/a".to_string()),
        WorkflowState::Done(WorkflowOutcome::Acted("/tmp/a".to_string())),
        WorkflowState::Done(WorkflowOutcome::SkippedNoSelection),
        WorkflowState::Done(WorkflowOutcome::SkippedNotConfirmed),
    ];
    for state in states {
        assert_eq!(state.clone(), state);
    }

    let events = [
        WorkflowEvent::Trigger,
        selected("/tmp/a"),
        cancelled(),
        confirmed(true),
        confirmed(false),
        WorkflowEvent::PresentationFailed(failure("no display")),
        WorkflowEvent::ActionDone,
    ];
    for event in events {
        assert_eq!(event.clone(), event);
    }

    let actions = [
        WorkflowAction::Present(DialogRequest::Selection(settings.selection.clone())),
        WorkflowAction::Present(DialogRequest::Confirmation(ConfirmationRequest {
            title: "t".to_string(),
            text: "\"/tmp/a\"".to_string(),
        })),
        WorkflowAction::Act("/tmp/a".to_string()),
        WorkflowAction::Conclude(WorkflowOutcome::SkippedNotConfirmed),
    ];
    for action in actions {
        assert_eq!(action.clone(), action);
    }

    for error in [WorkflowError::DialogPresentation(failure("x")), WorkflowError::UnexpectedEvent] {
        assert_eq!(error.clone(), error);
    }
}
