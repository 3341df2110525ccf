//! Lifecycle events of the native widget and the callbacks they lead to.

use vstd::prelude::*;

verus! {

/// The failures this binding reports instead of aborting.
#[derive(Clone, Copy, Debug, PartialEq, Eq, Structural)]
pub enum DialogError {
    /// An imperative operation was requested while no native node had been
    /// captured yet: the handle slot is empty, or the component is not mounted.
    UseBeforeMount,
    /// An imperative operation was requested after the component was torn down.
    UseAfterUnmount,
    /// A lifecycle event carried no detail payload with a string `action`.
    MissingEventPayload,
}

/// One of the four transitions that the native widget announces.
#[derive(Clone, Copy, Debug, PartialEq, Eq, Structural)]
pub enum LifecycleEvent {
    Opening,
    Opened,
    Closing,
    Closed,
}

impl LifecycleEvent {
    /// Whether the callback bound to this event takes the action string.
    pub open spec fn carries_action(self) -> bool {
        self == LifecycleEvent::Closing || self == LifecycleEvent::Closed
    }

    /// The name under which the native widget fires this event.
    pub open spec fn spec_name(self) -> Seq<char> {
        match self {
            LifecycleEvent::Opening => "opening"@,
            LifecycleEvent::Opened => "opened"@,
            LifecycleEvent::Closing => "closing"@,
            LifecycleEvent::Closed => "closed"@,
        }
    }

    /// The name under which the native widget fires this event.
    pub fn name(self) -> (name: &'static str)
        ensures
            name@ == self.spec_name(),
    {
        match self {
            LifecycleEvent::Opening => "opening",
            LifecycleEvent::Opened => "opened",
            LifecycleEvent::Closing => "closing",
            LifecycleEvent::Closed => "closed",
        }
    }
}

/// What the host found in the detail payload of a native event.
#[derive(Clone, Debug, PartialEq, Eq)]
pub enum EventDetail {
    /// The event carried no detail payload.
    Missing,
    /// The event carried a payload that exposes no string `action`.
    WithoutAction,
    /// The payload exposes this `action`.
    Action(String),
}

/// The mathematical content of an [`EventDetail`].
pub enum EventDetailView {
    Missing,
    WithoutAction,
    Action(Seq<char>),
}

impl EventDetailView {
    /// The action that the payload exposes, if it has the expected shape.
    pub open spec fn action(self) -> Option<Seq<char>> {
        match self {
            EventDetailView::Action(action) => Some(action),
            _ => None,
        }
    }

    /// The action handed to a callback: the one that the payload exposes, or
    /// the empty string where it exposes none.
    pub open spec fn action_or_default(self) -> Seq<char> {
        match self {
            EventDetailView::Action(action) => action,
            _ => Seq::<char>::empty(),
        }
    }
}

impl View for EventDetail {
    type V = EventDetailView;

    open spec fn view(&self) -> EventDetailView {
        match self {
            EventDetail::Missing => EventDetailView::Missing,
            EventDetail::WithoutAction => EventDetailView::WithoutAction,
            EventDetail::Action(action) => EventDetailView::Action(action@),
        }
    }
}

impl EventDetail {
    /// Parses the payload: the action it exposes, or `MissingEventPayload`
    /// where there is no payload or the payload has another shape.
    pub fn action(&self) -> (parsed: Result<String, DialogError>)
        ensures
            match self@.action() {
                Some(action) => parsed is Ok && parsed->Ok_0@ == action,
                None => parsed == Err::<String, DialogError>(DialogError::MissingEventPayload),
            },
    {
        match self {
            EventDetail::Action(action) => Ok(action.clone()),
            _ => Err(DialogError::MissingEventPayload),
        }
    }
}

/// The action string that a `closing` or `closed` callback receives for an
/// event with this detail payload. A payload of the wrong shape is a
/// recoverable failure: the callback then receives the empty string.
pub fn action_from_event(detail: &EventDetail) -> (action: String)
    ensures
        action@ == detail@.action_or_default(),
{
    match detail.action() {
        Ok(action) => action,
        Err(_) => String::new(),
    }
}

/// A callback of the owning parent together with the payload it is invoked
/// with.
#[derive(Clone, Debug, PartialEq, Eq)]
pub enum CallbackInvocation {
    /// The opening callback, which takes no payload.
    Opening,
    /// The opened callback, which takes no payload.
    Opened,
    /// The closing callback with the action that closes the dialog.
    Closing(String),
    /// The closed callback with the action that closed the dialog.
    Closed(String),
}

/// The mathematical content of a [`CallbackInvocation`].
pub enum CallbackInvocationView {
    Opening,
    Opened,
    Closing(Seq<char>),
    Closed(Seq<char>),
}

impl View for CallbackInvocation {
    type V = CallbackInvocationView;

    open spec fn view(&self) -> CallbackInvocationView {
        match self {
            CallbackInvocation::Opening => CallbackInvocationView::Opening,
            CallbackInvocation::Opened => CallbackInvocationView::Opened,
            CallbackInvocation::Closing(action) => CallbackInvocationView::Closing(action@),
            CallbackInvocation::Closed(action) => CallbackInvocationView::Closed(action@),
        }
    }
}

impl CallbackInvocationView {
    /// The invocation that a native event with this detail payload leads to.
    pub open spec fn for_event(event: LifecycleEvent, detail: EventDetailView) -> Self {
        match event {
            LifecycleEvent::Opening => CallbackInvocationView::Opening,
            LifecycleEvent::Opened => CallbackInvocationView::Opened,
            LifecycleEvent::Closing => CallbackInvocationView::Closing(detail.action_or_default()),
            LifecycleEvent::Closed => CallbackInvocationView::Closed(detail.action_or_default()),
        }
    }

    /// The event whose callback is invoked.
    pub open spec fn event(self) -> LifecycleEvent {
        match self {
            CallbackInvocationView::Opening => LifecycleEvent::Opening,
            CallbackInvocationView::Opened => LifecycleEvent::Opened,
            CallbackInvocationView::Closing(_) => LifecycleEvent::Closing,
            CallbackInvocationView::Closed(_) => LifecycleEvent::Closed,
        }
    }

    /// The payload handed to the callback: none for opening and opened.
    pub open spec fn payload(self) -> Option<Seq<char>> {
        match self {
            CallbackInvocationView::Opening => None,
            CallbackInvocationView::Opened => None,
            CallbackInvocationView::Closing(action) => Some(action),
            CallbackInvocationView::Closed(action) => Some(action),
        }
    }
}

/// The opening and the opened callback take no payload, whatever the detail
/// payload of the native event holds.
pub proof fn lemma_open_callbacks_take_nothing(detail: EventDetailView)
    ensures
        CallbackInvocationView::for_event(LifecycleEvent::Opening, detail)
            == CallbackInvocationView::Opening,
        CallbackInvocationView::for_event(LifecycleEvent::Opened, detail)
            == CallbackInvocationView::Opened,
        CallbackInvocationView::for_event(LifecycleEvent::Opening, detail).payload() is None,
        CallbackInvocationView::for_event(LifecycleEvent::Opened, detail).payload() is None,
{
}

/// The closing and the closed callback receive the action of the detail
/// payload as it stands, and the empty string where the payload exposes none.
pub proof fn lemma_close_callbacks_take_action(event: LifecycleEvent, detail: EventDetailView)
    requires
        event.carries_action(),
    ensures
        CallbackInvocationView::for_event(event, detail).event() == event,
        detail matches EventDetailView::Action(action) ==> CallbackInvocationView::for_event(
            event,
            detail,
        ).payload() == Some(action),
        !(detail is Action) ==> CallbackInvocationView::for_event(event, detail).payload() == Some(
            Seq::<char>::empty(),
        ),
{
}

impl CallbackInvocation {
    /// Turns a native event into the invocation of the callback bound to
    /// it: opening and opened take nothing from the detail payload, closing and
    /// closed take its action.
    pub fn for_event(event: LifecycleEvent, detail: &EventDetail) -> (invocation: Self)
        ensures
            invocation@ == CallbackInvocationView::for_event(event, detail@),
    {
        match event {
            LifecycleEvent::Opening => CallbackInvocation::Opening,
            LifecycleEvent::Opened => CallbackInvocation::Opened,
            LifecycleEvent::Closing => CallbackInvocation::Closing(action_from_event(detail)),
            LifecycleEvent::Closed => CallbackInvocation::Closed(action_from_event(detail)),
        }
    }

    /// The event whose callback is invoked.
    pub fn event(&self) -> (event: LifecycleEvent)
        ensures
            event == self@.event(),
    {
        match self {
            CallbackInvocation::Opening => LifecycleEvent::Opening,
            CallbackInvocation::Opened => LifecycleEvent::Opened,
            CallbackInvocation::Closing(_) => LifecycleEvent::Closing,
            CallbackInvocation::Closed(_) => LifecycleEvent::Closed,
        }
    }
}

} // verus!
