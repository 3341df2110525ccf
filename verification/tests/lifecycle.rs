use mat_dialog::{CallbackInvocation, DialogError, EventDetail, LifecycleEvent, ListenerSet};
use mat_dialog::{DialogProps, MatDialog, NativeOp, Phase, WeakComponentLink, WidgetLoader};

fn events() -> Vec<LifecycleEvent> {
    vec![
        LifecycleEvent::Opening,
        LifecycleEvent::Opened,
        LifecycleEvent::Closing,
        LifecycleEvent::Closed,
    ]
}

fn ops() -> Vec<NativeOp> {
    vec![NativeOp::Focus, NativeOp::Blur, NativeOp::Show, NativeOp::Close]
}

fn created(link: Option<&mut WeakComponentLink>) -> MatDialog<()> {
    let mut loader = WidgetLoader::new();
    MatDialog::create(DialogProps::new(()), link, &mut loader).0
}

fn all_calls(link: &WeakComponentLink) -> Vec<Result<NativeOp, DialogError>> {
    vec![link.focus(), link.blur(), link.show(), link.close()]
}

#[test]
fn focus_before_any_mount_is_use_before_mount() {
    let link = WeakComponentLink::new();
    assert_eq!(link.focus(), Err(DialogError::UseBeforeMount));
    assert_eq!(link.phase(), None);
    assert!(!link.is_mounted());
}

#[test]
fn default_handle_is_empty() {
    let link = WeakComponentLink::default();
    assert_eq!(link, WeakComponentLink::new());
    assert_eq!(all_calls(&link), vec![Err(DialogError::UseBeforeMount); 4]);
}

#[test]
fn create_populates_the_handle_without_mounting() {
    let mut link = WeakComponentLink::new();
    let dialog = created(Some(&mut link));
    assert_eq!(dialog.phase(), Phase::Created);
    assert!(!dialog.is_mounted());
    assert!(dialog.listeners().is_empty());
    assert_eq!(link.phase(), Some(Phase::Created));
    assert_eq!(all_calls(&link), vec![Err(DialogError::UseBeforeMount); 4]);
}

#[test]
fn create_stores_the_configuration() {
    let mut loader = WidgetLoader::new();
    let mut props = DialogProps::new(vec![1u8, 2, 3]);
    props.open = true;
    props.heading = Some(String::from("Title"));
    let (dialog, _) = MatDialog::create(props.clone(), None, &mut loader);
    assert_eq!(dialog.props(), &props);
}

#[test]
fn show_then_close_on_a_mounted_handle() {
    let mut link = WeakComponentLink::new();
    let mut calls: Vec<NativeOp> = Vec::new();
    assert_eq!(link.show(), Err(DialogError::UseBeforeMount));
    let mut dialog = created(Some(&mut link));
    assert_eq!(link.show(), Err(DialogError::UseBeforeMount));
    assert_eq!(link.close(), Err(DialogError::UseBeforeMount));
    assert!(dialog.rendered(true, true, Some(&mut link)).is_ok());
    assert!(link.is_mounted());
    calls.extend(link.show());
    calls.extend(link.close());
    assert_eq!(calls, vec![NativeOp::Show, NativeOp::Close]);
}

#[test]
fn every_operation_reaches_a_mounted_widget_as_itself() {
    let mut link = WeakComponentLink::new();
    let mut dialog = created(Some(&mut link));
    dialog.rendered(true, true, Some(&mut link)).unwrap();
    assert_eq!(
        all_calls(&link),
        vec![Ok(NativeOp::Focus), Ok(NativeOp::Blur), Ok(NativeOp::Show), Ok(NativeOp::Close)]
    );
    for op in ops() {
        assert_eq!(link.invoke(op), Ok(op));
    }
}

#[test]
fn operations_after_teardown_are_use_after_unmount() {
    let mut link = WeakComponentLink::new();
    let mut dialog = created(Some(&mut link));
    dialog.rendered(true, true, Some(&mut link)).unwrap();
    dialog.destroy(Some(&mut link));
    assert_eq!(link.phase(), Some(Phase::Unmounted));
    assert_eq!(all_calls(&link), vec![Err(DialogError::UseAfterUnmount); 4]);
    for op in ops() {
        assert_eq!(link.invoke(op), Err(DialogError::UseAfterUnmount));
    }
}

#[test]
fn teardown_before_any_mount_is_use_after_unmount() {
    let mut link = WeakComponentLink::new();
    let mut dialog = created(Some(&mut link));
    assert_eq!(dialog.destroy(Some(&mut link)), Vec::new());
    assert_eq!(dialog.phase(), Phase::Unmounted);
    assert_eq!(link.focus(), Err(DialogError::UseAfterUnmount));
}

#[test]
fn first_render_subscribes_to_the_four_events() {
    let mut dialog = created(None);
    assert_eq!(dialog.rendered(true, true, None), Ok(events()));
    assert_eq!(dialog.phase(), Phase::Mounted);
    for event in events() {
        assert!(dialog.listeners().is_subscribed(event));
    }
}

#[test]
fn later_render_changes_nothing() {
    let mut dialog = created(None);
    assert_eq!(dialog.rendered(false, true, None), Ok(Vec::new()));
    assert_eq!(dialog.phase(), Phase::Created);
    assert!(dialog.listeners().is_empty());
    assert_eq!(dialog.rendered(false, false, None), Ok(Vec::new()));
    assert_eq!(dialog.phase(), Phase::Created);
    dialog.rendered(true, true, None).unwrap();
    assert_eq!(dialog.rendered(false, true, None), Ok(Vec::new()));
    assert_eq!(dialog.rendered(false, false, None), Ok(Vec::new()));
    assert_eq!(dialog.phase(), Phase::Mounted);
    assert!(!dialog.listeners().is_empty());
}

#[test]
fn first_render_without_a_node_fails_and_changes_nothing() {
    let mut link = WeakComponentLink::new();
    let mut dialog = created(Some(&mut link));
    assert_eq!(dialog.rendered(true, false, Some(&mut link)), Err(DialogError::UseBeforeMount));
    assert_eq!(dialog.phase(), Phase::Created);
    assert!(dialog.listeners().is_empty());
    assert_eq!(link.phase(), Some(Phase::Created));
    assert_eq!(link.show(), Err(DialogError::UseBeforeMount));
}

#[test]
fn repeated_first_render_does_not_subscribe_twice() {
    let mut dialog = created(None);
    assert_eq!(dialog.rendered(true, true, None), Ok(events()));
    assert_eq!(dialog.rendered(true, true, None), Ok(Vec::new()));
    assert_eq!(dialog.rendered(true, true, None), Ok(Vec::new()));
    assert_eq!(dialog.destroy(None), events());
}

#[test]
fn remount_after_teardown_invokes_each_callback_once() {
    let mut link = WeakComponentLink::new();
    let mut dialog = created(Some(&mut link));
    let mut attached: Vec<LifecycleEvent> = Vec::new();
    attached.extend(dialog.rendered(true, true, Some(&mut link)).unwrap());
    for released in dialog.destroy(Some(&mut link)) {
        let at = attached.iter().position(|event| *event == released).unwrap();
        attached.remove(at);
    }
    assert!(attached.is_empty());
    attached.extend(dialog.rendered(true, true, Some(&mut link)).unwrap());
    attached.extend(dialog.rendered(true, true, Some(&mut link)).unwrap());
    assert_eq!(attached, events());
    assert_eq!(link.show(), Ok(NativeOp::Show));
    let detail = EventDetail::Action(String::from("ok"));
    let invocations: Vec<CallbackInvocation> = attached
        .iter()
        .filter(|event| **event == LifecycleEvent::Closing)
        .filter_map(|event| dialog.dispatch(*event, &detail))
        .collect();
    assert_eq!(invocations, vec![CallbackInvocation::Closing(String::from("ok"))]);
}

#[test]
fn teardown_releases_what_was_held() {
    let mut dialog = created(None);
    dialog.rendered(true, true, None).unwrap();
    assert_eq!(dialog.destroy(None), events());
    assert!(dialog.listeners().is_empty());
    assert_eq!(dialog.phase(), Phase::Unmounted);
    assert_eq!(dialog.destroy(None), Vec::new());
    assert_eq!(dialog.phase(), Phase::Unmounted);
}

#[test]
fn handle_follows_every_step() {
    let mut link = WeakComponentLink::new();
    let mut dialog = created(Some(&mut link));
    assert_eq!(link.phase(), Some(dialog.phase()));
    dialog.rendered(false, true, Some(&mut link)).unwrap();
    assert_eq!(link.phase(), Some(Phase::Created));
    dialog.rendered(true, true, Some(&mut link)).unwrap();
    assert_eq!(link.phase(), Some(Phase::Mounted));
    dialog.rendered(false, false, Some(&mut link)).unwrap();
    assert_eq!(link.phase(), Some(Phase::Mounted));
    dialog.destroy(Some(&mut link));
    assert_eq!(link.phase(), Some(Phase::Unmounted));
}

#[test]
fn change_keeps_phase_and_subscriptions() {
    let mut dialog = created(None);
    dialog.rendered(true, true, None).unwrap();
    let mut props = DialogProps::new(());
    props.stacked = true;
    assert!(dialog.change(props.clone()));
    assert_eq!(dialog.props(), &props);
    assert_eq!(dialog.phase(), Phase::Mounted);
    for event in events() {
        assert!(dialog.listeners().is_subscribed(event));
    }
}

#[test]
fn widget_definition_is_registered_once() {
    let mut loader = WidgetLoader::new();
    assert!(!loader.is_loaded());
    assert!(loader.ensure_loaded());
    assert!(loader.is_loaded());
    assert!(!loader.ensure_loaded());
    assert!(!loader.ensure_loaded());
    assert!(loader.is_loaded());
}

#[test]
fn only_the_first_created_dialog_registers_the_widget() {
    let mut loader = WidgetLoader::new();
    let (_, first) = MatDialog::create(DialogProps::new(()), None, &mut loader);
    let (_, second) = MatDialog::create(DialogProps::new(()), None, &mut loader);
    let (_, third) = MatDialog::create(DialogProps::new(()), None, &mut loader);
    assert_eq!((first, second, third), (true, false, false));
}

#[test]
fn listener_set_starts_empty() {
    let listeners = ListenerSet::new();
    assert!(listeners.is_empty());
    for event in events() {
        assert!(!listeners.is_subscribed(event));
    }
}

#[test]
fn subscribe_creates_a_subscription_once() {
    for event in events() {
        let mut listeners = ListenerSet::new();
        assert!(listeners.subscribe(event));
        assert!(!listeners.subscribe(event));
        assert!(!listeners.is_empty());
        for other in events() {
            assert_eq!(listeners.is_subscribed(other), other == event);
        }
        assert!(listeners.release(event));
        assert!(!listeners.release(event));
        assert!(listeners.is_empty());
    }
}

#[test]
fn subscribe_missing_skips_what_is_held() {
    let mut listeners = ListenerSet::new();
    listeners.subscribe(LifecycleEvent::Opened);
    listeners.subscribe(LifecycleEvent::Closed);
    assert_eq!(
        listeners.subscribe_missing(),
        vec![LifecycleEvent::Opening, LifecycleEvent::Closing]
    );
    assert_eq!(listeners.subscribe_missing(), Vec::new());
    for event in events() {
        assert!(listeners.is_subscribed(event));
    }
}

#[test]
fn release_all_is_safe_when_some_were_never_created() {
    let mut listeners = ListenerSet::new();
    assert_eq!(listeners.release_all(), Vec::new());
    listeners.subscribe(LifecycleEvent::Closing);
    listeners.subscribe(LifecycleEvent::Opening);
    assert_eq!(
        listeners.release_all(),
        vec![LifecycleEvent::Opening, LifecycleEvent::Closing]
    );
    assert!(listeners.is_empty());
    assert_eq!(listeners.release_all(), Vec::new());
}

#[test]
fn operations_are_named_after_the_widget_methods() {
    let names: Vec<&str> = ops().into_iter().map(|op| op.name()).collect();
    assert_eq!(names, vec!["focus", "blur", "show", "close"]);
}

#[test]
fn create_replaces_what_the_handle_referred_to() {
    let mut link = WeakComponentLink::new();
    let mut first = created(Some(&mut link));
    first.rendered(true, true, Some(&mut link)).unwrap();
    assert_eq!(link.show(), Ok(NativeOp::Show));
    let second = created(Some(&mut link));
    assert_eq!(second.phase(), Phase::Created);
    assert_eq!(link.phase(), Some(Phase::Created));
    assert_eq!(link.show(), Err(DialogError::UseBeforeMount));
    assert!(first.is_mounted());
}
