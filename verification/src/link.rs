//! The handle through which the owner of a dialog reaches the mounted widget.

use vstd::prelude::*;
use crate::event::DialogError;

verus! {

/// Where a component stands in its life.
#[derive(Clone, Copy, Debug, PartialEq, Eq, Structural)]
pub enum Phase {
    /// Created, but its native node has not been captured yet.
    Created,
    /// Mounted: the native node is captured and may be operated on.
    Mounted,
    /// Torn down: the native node has been released.
    Unmounted,
}

/// An imperative operation of the native widget.
#[derive(Clone, Copy, Debug, PartialEq, Eq, Structural)]
pub enum NativeOp {
    Focus,
    Blur,
    Show,
    Close,
}

impl NativeOp {
    /// The name of the method of the native widget.
    pub open spec fn spec_name(self) -> Seq<char> {
        match self {
            NativeOp::Focus => "focus"@,
            NativeOp::Blur => "blur"@,
            NativeOp::Show => "show"@,
            NativeOp::Close => "close"@,
        }
    }

    /// The name of the method of the native widget.
    pub fn name(self) -> (name: &'static str)
        ensures
            name@ == self.spec_name(),
    {
        match self {
            NativeOp::Focus => "focus",
            NativeOp::Blur => "blur",
            NativeOp::Show => "show",
            NativeOp::Close => "close",
        }
    }
}

/// What an imperative call through a handle comes to: the native operation to
/// perform where the slot refers to a mounted component, and otherwise the
/// failure that tells an early call from a late one.
pub open spec fn resolve(slot: Option<Phase>, op: NativeOp) -> Result<NativeOp, DialogError> {
    match slot {
        None => Err(DialogError::UseBeforeMount),
        Some(Phase::Created) => Err(DialogError::UseBeforeMount),
        Some(Phase::Mounted) => Ok(op),
        Some(Phase::Unmounted) => Err(DialogError::UseAfterUnmount),
    }
}

/// The native operations that a series of imperative calls through one handle
/// leads to, in the order of the calls: one for each call that resolves, none
/// for a call that fails.
pub open spec fn native_calls(slot: Option<Phase>, ops: Seq<NativeOp>) -> Seq<NativeOp>
    decreases ops.len(),
{
    if ops.len() == 0 {
        Seq::empty()
    } else {
        let earlier = native_calls(slot, ops.drop_last());
        match resolve(slot, ops.last()) {
            Ok(op) => earlier.push(op),
            Err(_) => earlier,
        }
    }
}

/// On a mounted handle every operation reaches the widget, and reaches it as
/// the operation that was asked for.
pub proof fn lemma_mounted_handle_reaches_widget(op: NativeOp)
    ensures
        resolve(Some(Phase::Mounted), op) == Ok::<NativeOp, DialogError>(op),
{
}

/// A series of calls through a mounted handle leads to the same series of
/// native operations: each call to one native operation, in the order of the
/// calls. Through a handle that is not mounted a series of calls leads to no
/// native operation at all.
pub proof fn lemma_calls_reach_widget_in_order(slot: Option<Phase>, ops: Seq<NativeOp>)
    ensures
        slot == Some(Phase::Mounted) ==> native_calls(slot, ops) == ops,
        slot != Some(Phase::Mounted) ==> native_calls(slot, ops) == Seq::<NativeOp>::empty(),
    decreases ops.len(),
{
    if ops.len() > 0 {
        lemma_calls_reach_widget_in_order(slot, ops.drop_last());
        if slot == Some(Phase::Mounted) {
            assert(ops.drop_last().push(ops.last()) =~= ops);
        }
    }
}

/// `show` then `close` on a mounted handle leads to the native `show`, then to
/// the native `close`, each once, and to nothing else.
pub proof fn lemma_show_then_close()
    ensures
        native_calls(Some(Phase::Mounted), seq![NativeOp::Show, NativeOp::Close]) == seq![
            NativeOp::Show,
            NativeOp::Close,
        ],
{
    lemma_calls_reach_widget_in_order(
        Some(Phase::Mounted),
        seq![NativeOp::Show, NativeOp::Close],
    );
}

/// Through a handle that is not mounted no operation reaches the widget. The
/// failure tells why: `UseBeforeMount` while the slot is empty or the
/// component has not been mounted, `UseAfterUnmount` once it is torn down.
pub proof fn lemma_unmounted_handle_fails(slot: Option<Phase>, op: NativeOp)
    requires
        slot != Some(Phase::Mounted),
    ensures
        resolve(slot, op) is Err,
        slot is None || slot == Some(Phase::Created) ==> resolve(slot, op) == Err::<
            NativeOp,
            DialogError,
        >(DialogError::UseBeforeMount),
        slot == Some(Phase::Unmounted) ==> resolve(slot, op) == Err::<NativeOp, DialogError>(
            DialogError::UseAfterUnmount,
        ),
{
}

/// A weak handle on a dialog component: a single slot, empty until a component
/// is created with it, that follows the component through its life afterwards.
/// It never owns the component.
#[derive(Clone, Copy, Debug, PartialEq, Eq)]
pub struct WeakComponentLink {
    slot: Option<Phase>,
}

impl View for WeakComponentLink {
    type V = Option<Phase>;

    /// The slot: `None` while empty, else the phase of the component it refers to.
    closed spec fn view(&self) -> Option<Phase> {
        self.slot
    }
}

impl WeakComponentLink {
    /// A handle with an empty slot.
    pub fn new() -> (link: Self)
        ensures
            link@ is None,
    {
        WeakComponentLink { slot: None }
    }

    /// Points the slot at a component in the given phase.
    pub(crate) fn follow(&mut self, phase: Phase)
        ensures
            final(self)@ == Some(phase),
    {
        self.slot = Some(phase);
    }

    /// The phase of the component in the slot; `None` while the slot is empty.
    pub fn phase(&self) -> (phase: Option<Phase>)
        ensures
            phase == self@,
    {
        self.slot
    }

    /// Whether an imperative call through this handle reaches the widget.
    pub fn is_mounted(&self) -> (mounted: bool)
        ensures
            mounted == (self@ == Some(Phase::Mounted)),
    {
        match self.slot {
            Some(Phase::Mounted) => true,
            _ => false,
        }
    }

    /// Resolves the handle for one operation: first to the component in the
    /// slot, then to its captured native node.
    pub fn invoke(&self, op: NativeOp) -> (call: Result<NativeOp, DialogError>)
        ensures
            call == resolve(self@, op),
    {
        match self.slot {
            None => Err(DialogError::UseBeforeMount),
            Some(Phase::Created) => Err(DialogError::UseBeforeMount),
            Some(Phase::Mounted) => Ok(op),
            Some(Phase::Unmounted) => Err(DialogError::UseAfterUnmount),
        }
    }

    /// Asks the widget to take the focus.
    pub fn focus(&self) -> (call: Result<NativeOp, DialogError>)
        ensures
            call == resolve(self@, NativeOp::Focus),
    {
        self.invoke(NativeOp::Focus)
    }

    /// Asks the widget to give the focus up.
    pub fn blur(&self) -> (call: Result<NativeOp, DialogError>)
        ensures
            call == resolve(self@, NativeOp::Blur),
    {
        self.invoke(NativeOp::Blur)
    }

    /// Asks the widget to open.
    pub fn show(&self) -> (call: Result<NativeOp, DialogError>)
        ensures
            call == resolve(self@, NativeOp::Show),
    {
        self.invoke(NativeOp::Show)
    }

    /// Asks the widget to close.
    pub fn close(&self) -> (call: Result<NativeOp, DialogError>)
        ensures
            call == resolve(self@, NativeOp::Close),
    {
        self.invoke(NativeOp::Close)
    }
}

impl Default for WeakComponentLink {
    fn default() -> (link: Self)
        ensures
            link@ is None,
    {
        WeakComponentLink::new()
    }
}

} // verus!
