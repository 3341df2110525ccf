use mat_dialog::{action_from_event, CallbackInvocation, DialogError, EventDetail, LifecycleEvent};
use mat_dialog::{DialogProps, MatDialog, WidgetLoader};

fn events() -> Vec<LifecycleEvent> {
    vec![
        LifecycleEvent::Opening,
        LifecycleEvent::Opened,
        LifecycleEvent::Closing,
        LifecycleEvent::Closed,
    ]
}

fn details() -> Vec<EventDetail> {
    vec![
        EventDetail::Missing,
        EventDetail::WithoutAction,
        EventDetail::Action(String::new()),
        EventDetail::Action(String::from("ok")),
        EventDetail::Action(String::from("cancel")),
    ]
}

fn mounted_dialog() -> MatDialog<()> {
    let mut loader = WidgetLoader::new();
    let (mut dialog, _) = MatDialog::create(DialogProps::new(()), None, &mut loader);
    assert!(dialog.rendered(true, true, None).is_ok());
    dialog
}

#[test]
fn event_names_are_those_of_the_widget() {
    let names: Vec<&str> = events().into_iter().map(|event| event.name()).collect();
    assert_eq!(names, vec!["opening", "opened", "closing", "closed"]);
}

#[test]
fn action_is_parsed_from_the_payload() {
    assert_eq!(EventDetail::Action(String::from("ok")).action(), Ok(String::from("ok")));
    assert_eq!(EventDetail::Action(String::new()).action(), Ok(String::new()));
}

#[test]
fn missing_payload_is_a_typed_failure() {
    assert_eq!(EventDetail::Missing.action(), Err(DialogError::MissingEventPayload));
    assert_eq!(EventDetail::WithoutAction.action(), Err(DialogError::MissingEventPayload));
}

#[test]
fn action_defaults_to_the_empty_string() {
    assert_eq!(action_from_event(&EventDetail::Missing), "");
    assert_eq!(action_from_event(&EventDetail::WithoutAction), "");
    assert_eq!(action_from_event(&EventDetail::Action(String::from("ok"))), "ok");
    assert_eq!(action_from_event(&EventDetail::Action(String::from("Schließen"))), "Schließen");
}

#[test]
fn closing_with_action_ok_reaches_the_closing_callback() {
    let detail = EventDetail::Action(String::from("ok"));
    assert_eq!(
        CallbackInvocation::for_event(LifecycleEvent::Closing, &detail),
        CallbackInvocation::Closing(String::from("ok"))
    );
    let dialog = mounted_dialog();
    assert_eq!(
        dialog.dispatch(LifecycleEvent::Closing, &detail),
        Some(CallbackInvocation::Closing(String::from("ok")))
    );
}

#[test]
fn closed_with_action_reaches_the_closed_callback() {
    let detail = EventDetail::Action(String::from("cancel"));
    let dialog = mounted_dialog();
    assert_eq!(
        dialog.dispatch(LifecycleEvent::Closed, &detail),
        Some(CallbackInvocation::Closed(String::from("cancel")))
    );
}

#[test]
fn opened_without_payload_invokes_the_callback_without_payload() {
    assert_eq!(
        CallbackInvocation::for_event(LifecycleEvent::Opened, &EventDetail::Missing),
        CallbackInvocation::Opened
    );
    let dialog = mounted_dialog();
    assert_eq!(
        dialog.dispatch(LifecycleEvent::Opened, &EventDetail::Missing),
        Some(CallbackInvocation::Opened)
    );
}

#[test]
fn open_callbacks_ignore_the_payload() {
    for detail in details() {
        assert_eq!(
            CallbackInvocation::for_event(LifecycleEvent::Opening, &detail),
            CallbackInvocation::Opening
        );
        assert_eq!(
            CallbackInvocation::for_event(LifecycleEvent::Opened, &detail),
            CallbackInvocation::Opened
        );
    }
}

#[test]
fn close_callbacks_get_the_default_on_a_shapeless_payload() {
    for detail in [EventDetail::Missing, EventDetail::WithoutAction] {
        assert_eq!(
            CallbackInvocation::for_event(LifecycleEvent::Closing, &detail),
            CallbackInvocation::Closing(String::new())
        );
        assert_eq!(
            CallbackInvocation::for_event(LifecycleEvent::Closed, &detail),
            CallbackInvocation::Closed(String::new())
        );
    }
}

#[test]
fn invocation_names_its_event() {
    for event in events() {
        for detail in details() {
            assert_eq!(CallbackInvocation::for_event(event, &detail).event(), event);
        }
    }
}

#[test]
fn no_callback_before_the_mount() {
    let mut loader = WidgetLoader::new();
    let (dialog, _) = MatDialog::create(DialogProps::new(()), None, &mut loader);
    for event in events() {
        for detail in details() {
            assert_eq!(dialog.dispatch(event, &detail), None);
        }
    }
}

#[test]
fn no_callback_after_the_teardown() {
    let mut dialog = mounted_dialog();
    dialog.destroy(None);
    for event in events() {
        for detail in details() {
            assert_eq!(dialog.dispatch(event, &detail), None);
        }
    }
}

#[test]
fn every_event_leads_to_one_invocation_while_mounted() {
    let dialog = mounted_dialog();
    for event in events() {
        for detail in details() {
            assert_eq!(
                dialog.dispatch(event, &detail),
                Some(CallbackInvocation::for_event(event, &detail))
            );
        }
    }
}
