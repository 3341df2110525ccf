//! The dialog component: its configuration, its life and what it asks of the
//! host at each step.

use vstd::multiset::Multiset;
use vstd::prelude::*;
use crate::attribute::{
    attribute_views, has_attribute, Attribute, AttributeKind, AttributeView, TAG,
};
use crate::event::{
    CallbackInvocation, CallbackInvocationView, DialogError, EventDetail, EventDetailView,
    LifecycleEvent,
};
use crate::link::{Phase, WeakComponentLink};
use crate::listener::{events_in, ListenerSet};
use crate::loader::WidgetLoader;
use crate::props::{DialogProps, DialogPropsView};

verus! {

/// The element that a dialog renders to, as the host has to build it.
#[derive(Debug)]
pub struct RenderedNode<'a, C> {
    /// The tag of the element.
    pub tag: &'static str,
    /// The attributes to write on it, in order.
    pub attributes: Vec<Attribute<'a>>,
    /// The child content, passed through as the configuration holds it.
    pub children: &'a C,
    /// Whether the host must capture a reference to the element once it is in
    /// the document, so that the native node can be reached after the mount.
    pub captures_node: bool,
}

/// The mathematical content of a [`RenderedNode`].
pub struct RenderedNodeView<C> {
    pub tag: Seq<char>,
    pub attributes: Seq<AttributeView>,
    pub children: C,
    pub captures_node: bool,
}

impl<'a, C> View for RenderedNode<'a, C> {
    type V = RenderedNodeView<C>;

    open spec fn view(&self) -> RenderedNodeView<C> {
        RenderedNodeView {
            tag: self.tag@,
            attributes: attribute_views(self.attributes@),
            children: *self.children,
            captures_node: self.captures_node,
        }
    }
}

/// The state of a dialog component as the contracts speak of it.
pub struct MatDialogView<C> {
    /// The configuration last handed over.
    pub props: DialogPropsView<C>,
    /// Where the component stands in its life.
    pub phase: Phase,
    /// The lifecycle events for which a subscription is held.
    pub listeners: Set<LifecycleEvent>,
}

impl<C> MatDialogView<C> {
    /// What holds of every component: while it is mounted it holds the
    /// subscription for each of the four events, and otherwise none.
    pub open spec fn inv(self) -> bool {
        self.listeners == if self.phase == Phase::Mounted {
            Set::<LifecycleEvent>::full()
        } else {
            Set::<LifecycleEvent>::empty()
        }
    }

    /// The state of a component that has just been created.
    pub open spec fn created(props: DialogPropsView<C>) -> Self {
        MatDialogView { props, phase: Phase::Created, listeners: Set::empty() }
    }

    /// The state after the owner has handed a new configuration over.
    pub open spec fn changed(self, props: DialogPropsView<C>) -> Self {
        MatDialogView { props, ..self }
    }

    /// The element that the component renders to.
    pub open spec fn rendering(self) -> RenderedNodeView<C> {
        RenderedNodeView {
            tag: "mwc-dialog"@,
            attributes: self.props.rendered_attributes(),
            children: self.props.children,
            captures_node: true,
        }
    }

    /// Whether a completed render mounts the component: it is the first one,
    /// and the native node has been captured.
    pub open spec fn mounts(first_render: bool, node_captured: bool) -> bool {
        first_render && node_captured
    }

    /// The state after a render has completed.
    pub open spec fn rendered(self, first_render: bool, node_captured: bool) -> Self {
        if Self::mounts(first_render, node_captured) {
            MatDialogView { phase: Phase::Mounted, listeners: Set::full(), ..self }
        } else {
            self
        }
    }

    /// What a completed render asks of the host: the events to attach a
    /// listener for, or the failure where the first render left no native node
    /// behind.
    pub open spec fn rendered_outcome(self, first_render: bool, node_captured: bool) -> Result<
        Seq<LifecycleEvent>,
        DialogError,
    > {
        if !first_render {
            Ok(Seq::empty())
        } else if !node_captured {
            Err(DialogError::UseBeforeMount)
        } else {
            Ok(events_in(self.listeners.complement()))
        }
    }

    /// The state after the component has been torn down.
    pub open spec fn destroyed(self) -> Self {
        MatDialogView { phase: Phase::Unmounted, listeners: Set::empty(), ..self }
    }

    /// The events whose listeners the host detaches at teardown.
    pub open spec fn released(self) -> Seq<LifecycleEvent> {
        events_in(self.listeners)
    }

    /// The callback invocation that a native event leads to: the one bound to
    /// the event where its subscription is held, none where it is not.
    pub open spec fn dispatch(self, event: LifecycleEvent, detail: EventDetailView) -> Option<
        CallbackInvocationView,
    > {
        if self.listeners.contains(event) {
            Some(CallbackInvocationView::for_event(event, detail))
        } else {
            None
        }
    }
}

/// Whether the listeners that the host has attached are those that the
/// component holds a subscription for, one listener for each.
pub open spec fn attached_once(host: Multiset<LifecycleEvent>, held: Set<LifecycleEvent>) -> bool {
    forall|event: LifecycleEvent|
        #[trigger] host.count(event) == (if held.contains(event) {
            1nat
        } else {
            0nat
        })
}

impl<C> MatDialogView<C> {
    /// Every step of a component's life keeps the invariant.
    pub proof fn lemma_inv_kept(
        self,
        props: DialogPropsView<C>,
        first_render: bool,
        node_captured: bool,
    )
        requires
            self.inv(),
        ensures
            Self::created(props).inv(),
            self.changed(props).inv(),
            self.rendered(first_render, node_captured).inv(),
            self.destroyed().inv(),
    {
    }

    /// While the component is mounted every native event leads to the
    /// invocation of the callback bound to it, and at any other time to none.
    pub proof fn lemma_dispatch_iff_mounted(self, event: LifecycleEvent, detail: EventDetailView)
        requires
            self.inv(),
        ensures
            self.dispatch(event, detail) == if self.phase == Phase::Mounted {
                Some(CallbackInvocationView::for_event(event, detail))
            } else {
                None
            },
    {
        assert(Set::<LifecycleEvent>::full().contains(event));
        assert(!Set::<LifecycleEvent>::empty().contains(event));
    }

    /// A host that attaches a listener for each event that a render hands
    /// back, and for no other, never has two listeners for one event, however
    /// often a render completes.
    pub proof fn lemma_render_attaches_once(
        self,
        host: Multiset<LifecycleEvent>,
        first_render: bool,
        node_captured: bool,
    )
        requires
            attached_once(host, self.listeners),
        ensures
            match self.rendered_outcome(first_render, node_captured) {
                Ok(events) => attached_once(
                    host.add(events.to_multiset()),
                    self.rendered(first_render, node_captured).listeners,
                ),
                Err(_) => self.rendered(first_render, node_captured) == self,
            },
    {
        broadcast use vstd::multiset::group_multiset_axioms;

        if Self::mounts(first_render, node_captured) {
            let events = events_in(self.listeners.complement());
            assert forall|event: LifecycleEvent|
                #[trigger] host.add(events.to_multiset()).count(event) == 1nat by {
                crate::listener::lemma_events_in_lists_once(self.listeners.complement(), event);
            }
        } else if !first_render {
            assert(Seq::<LifecycleEvent>::empty().to_multiset() =~= Multiset::empty()) by {
                broadcast use vstd::seq_lib::group_to_multiset_ensures;

                assert(Seq::<LifecycleEvent>::empty().to_multiset().len() == 0);
            }
            assert(host.add(Multiset::empty()) =~= host);
        }
    }

    /// A host that detaches the listener of each event that the teardown
    /// hands back is left with none.
    pub proof fn lemma_destroy_detaches_all(self, host: Multiset<LifecycleEvent>)
        requires
            attached_once(host, self.listeners),
        ensures
            attached_once(host.sub(self.released().to_multiset()), self.destroyed().listeners),
            host.sub(self.released().to_multiset()) == Multiset::<LifecycleEvent>::empty(),
    {
        broadcast use vstd::multiset::group_multiset_axioms;

        let left = host.sub(self.released().to_multiset());
        assert forall|event: LifecycleEvent| #[trigger] left.count(event) == 0nat by {
            crate::listener::lemma_events_in_lists_once(self.listeners, event);
        }
        assert(left =~= Multiset::<LifecycleEvent>::empty());
    }

    /// Unmounting and mounting again leaves the host with one listener for
    /// each of the four events, so that a native event that fires once leads
    /// to one invocation of the callback bound to it. A further render
    /// attaches nothing more.
    pub proof fn lemma_remount_invokes_once(
        self,
        host: Multiset<LifecycleEvent>,
        event: LifecycleEvent,
        detail: EventDetailView,
    )
        requires
            attached_once(host, self.listeners),
        ensures
            self.destroyed().rendered_outcome(true, true) == Ok::<
                Seq<LifecycleEvent>,
                DialogError,
            >(
                seq![
                    LifecycleEvent::Opening,
                    LifecycleEvent::Opened,
                    LifecycleEvent::Closing,
                    LifecycleEvent::Closed,
                ],
            ),
            host.sub(self.released().to_multiset()).add(
                self.destroyed().rendered_outcome(true, true)->Ok_0.to_multiset(),
            ).count(event) == 1,
            self.destroyed().rendered(true, true).phase == Phase::Mounted,
            self.destroyed().rendered(true, true).dispatch(event, detail) == Some(
                CallbackInvocationView::for_event(event, detail),
            ),
            self.destroyed().rendered(true, true).rendered_outcome(true, true) == Ok::<
                Seq<LifecycleEvent>,
                DialogError,
            >(Seq::empty()),
    {
        let none = Set::<LifecycleEvent>::empty();
        let all = Set::<LifecycleEvent>::full();
        assert(events_in(none.complement()) =~= seq![
            LifecycleEvent::Opening,
            LifecycleEvent::Opened,
            LifecycleEvent::Closing,
            LifecycleEvent::Closed,
        ]);
        assert(events_in(all.complement()) =~= Seq::<LifecycleEvent>::empty());
        self.lemma_destroy_detaches_all(host);
        self.destroyed().lemma_render_attaches_once(
            host.sub(self.released().to_multiset()),
            true,
            true,
        );
        assert(all.contains(event));
    }
}

/// The `mwc-dialog` component.
///
/// It keeps the configuration, follows the component from creation over the
/// mount to the teardown, and holds the subscriptions to the widget's
/// lifecycle events while it is mounted.
#[derive(Debug)]
pub struct MatDialog<C> {
    props: DialogProps<C>,
    life: Life,
}

/// The phase of a component and the subscriptions that go with it; the two
/// change together.
#[derive(Clone, Copy, Debug)]
struct Life {
    phase: Phase,
    listeners: ListenerSet,
}

impl<C> MatDialog<C> {
    /// The state of the component as the contracts speak of it.
    pub closed spec fn state(&self) -> MatDialogView<C> {
        MatDialogView {
            props: self.props@,
            phase: self.life.phase,
            listeners: self.life.listeners@,
        }
    }

    #[verifier::type_invariant]
    spec fn well_formed(self) -> bool {
        self.state().inv()
    }

    /// Creates the component: stores the configuration, points the handle at
    /// the new component where the owner supplied one, and makes sure that the
    /// widget's definition is registered. The second part of the result tells
    /// the host whether it is the one to register the definition now. No
    /// native node exists yet.
    pub fn create(
        props: DialogProps<C>,
        link: Option<&mut WeakComponentLink>,
        loader: &mut WidgetLoader,
    ) -> (created: (Self, bool))
        ensures
            created.0.state() == MatDialogView::created(props@),
            created.0.state().inv(),
            created.1 == !old(loader)@,
            final(loader)@,
            link matches Some(handle) ==> final(handle)@ == Some(Phase::Created),
    {
        match link {
            Some(handle) => {
                handle.follow(Phase::Created);
            },
            None => {},
        }
        let register = loader.ensure_loaded();
        let life = Life { phase: Phase::Created, listeners: ListenerSet::new() };
        let dialog = MatDialog { props, life };
        (dialog, register)
    }

    /// Handles a message of the framework. The component defines none, so
    /// nothing changes and no render is asked for. A new configuration does
    /// not come as a message: it comes through [`MatDialog::change`].
    pub fn update(&mut self, _msg: ()) -> (render: bool)
        ensures
            !render,
            final(self).state() == old(self).state(),
    {
        false
    }

    /// Takes an update of the configuration: replaces the stored one with the
    /// one handed over, whatever the two hold, and asks for a render. Phase
    /// and subscriptions stay as they are.
    pub fn change(&mut self, props: DialogProps<C>) -> (render: bool)
        ensures
            render,
            final(self).state() == old(self).state().changed(props@),
            final(self).state().inv(),
    {
        proof {
            use_type_invariant(&*self);
        }
        self.props = props;
        true
    }

    /// Describes the element to render: the widget's tag, each attribute that
    /// the configuration gives a value and no other, the child content as it
    /// is, and the request to capture the node.
    pub fn view(&self) -> (node: RenderedNode<'_, C>)
        ensures
            node@ == self.state().rendering(),
            forall|kind: AttributeKind|
                has_attribute(node@.attributes, kind) <==> self.state().props.is_set(kind),
            forall|i: int|
                0 <= i < node@.attributes.len() && (
                #[trigger] node@.attributes[i]).kind.is_presence_style()
                    ==> node@.attributes[i].value != "false"@,
    {
        proof {
            self.state().props.lemma_present_iff_set();
            self.state().props.lemma_flags_never_false();
        }
        RenderedNode {
            tag: TAG,
            attributes: self.props.attributes(),
            children: &self.props.children,
            captures_node: true,
        }
    }

    /// Takes note of a completed render. `node_captured` says whether the host
    /// found the native node behind the captured reference.
    ///
    /// The first render mounts the component: every lifecycle event without a
    /// subscription gets one, and the events are returned for the host to
    /// attach a listener to each. An event that is subscribed already is not
    /// returned again. Where the first render left no node behind, the
    /// component stays as it was and the call fails with `UseBeforeMount`. A
    /// later render changes nothing. The handle, where one is passed, shows the
    /// phase of the component afterwards.
    pub fn rendered(
        &mut self,
        first_render: bool,
        node_captured: bool,
        link: Option<&mut WeakComponentLink>,
    ) -> (attached: Result<Vec<LifecycleEvent>, DialogError>)
        ensures
            final(self).state() == old(self).state().rendered(first_render, node_captured),
            final(self).state().inv(),
            match old(self).state().rendered_outcome(first_render, node_captured) {
                Ok(events) => attached is Ok && attached->Ok_0@ == events,
                Err(error) => attached is Err && attached->Err_0 == error,
            },
            link matches Some(handle) ==> final(handle)@ == Some(final(self).state().phase),
    {
        proof {
            use_type_invariant(&*self);
        }
        let attached = if !first_render {
            Ok(Vec::new())
        } else if !node_captured {
            Err(DialogError::UseBeforeMount)
        } else {
            let mut listeners = self.life.listeners;
            let created = listeners.subscribe_missing();
            self.life = Life { phase: Phase::Mounted, listeners };
            Ok(created)
        };
        match link {
            Some(handle) => {
                handle.follow(self.life.phase);
            },
            None => {},
        }
        attached
    }

    /// Tears the component down: gives every subscription up and releases the
    /// native node. Returns the events whose listeners the host detaches; a
    /// component that was never mounted has none. The handle, where one is
    /// passed, reports `UseAfterUnmount` from now on.
    pub fn destroy(&mut self, link: Option<&mut WeakComponentLink>) -> (released: Vec<
        LifecycleEvent,
    >)
        ensures
            final(self).state() == old(self).state().destroyed(),
            final(self).state().inv(),
            released@ == old(self).state().released(),
            link matches Some(handle) ==> final(handle)@ == Some(Phase::Unmounted),
    {
        let mut listeners = self.life.listeners;
        let released = listeners.release_all();
        self.life = Life { phase: Phase::Unmounted, listeners };
        match link {
            Some(handle) => {
                handle.follow(Phase::Unmounted);
            },
            None => {},
        }
        released
    }

    /// Turns a native event into the invocation of the owner's callback.
    /// There is one while the component is mounted, and none where the
    /// component holds no subscription for the event, which is before the
    /// mount and after the teardown.
    pub fn dispatch(&self, event: LifecycleEvent, detail: &EventDetail) -> (invocation: Option<
        CallbackInvocation,
    >)
        ensures
            match self.state().dispatch(event, detail@) {
                Some(expected) => invocation is Some && invocation->Some_0@ == expected,
                None => invocation is None,
            },
            invocation is Some <==> self.state().phase == Phase::Mounted,
    {
        proof {
            use_type_invariant(self);
            self.state().lemma_dispatch_iff_mounted(event, detail@);
        }
        if self.life.listeners.is_subscribed(event) {
            Some(CallbackInvocation::for_event(event, detail))
        } else {
            None
        }
    }

    /// The configuration last handed over.
    pub fn props(&self) -> (props: &DialogProps<C>)
        ensures
            props@ == self.state().props,
    {
        &self.props
    }

    /// Where the component stands in its life.
    pub fn phase(&self) -> (phase: Phase)
        ensures
            phase == self.state().phase,
    {
        self.life.phase
    }

    /// Whether the component is mounted.
    pub fn is_mounted(&self) -> (mounted: bool)
        ensures
            mounted == (self.state().phase == Phase::Mounted),
    {
        self.life.phase == Phase::Mounted
    }

    /// The subscriptions that the component holds.
    pub fn listeners(&self) -> (listeners: ListenerSet)
        ensures
            listeners@ == self.state().listeners,
    {
        self.life.listeners
    }
}

} // verus!
