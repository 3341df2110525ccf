//! Verified core of a binding between a component framework and the
//! `mwc-dialog` web component.
//!
//! The crate decides; its caller acts. Every operation here is a function from
//! the binding's state and an incoming event to the next state and the action
//! the host has to carry out: which attributes to write on the element, which
//! native events to listen for, which callback to invoke with which payload,
//! and whether an imperative call may reach the native widget.

pub mod attribute;
pub mod dialog;
pub mod event;
pub mod link;
pub mod listener;
pub mod loader;
pub mod props;

pub use attribute::{to_option, Attribute, AttributeKind, ATTRIBUTE_COUNT, TAG};
pub use dialog::{MatDialog, RenderedNode};
pub use event::{action_from_event, CallbackInvocation, DialogError, EventDetail, LifecycleEvent};
pub use link::{NativeOp, Phase, WeakComponentLink};
pub use listener::ListenerSet;
pub use loader::WidgetLoader;
pub use props::DialogProps;
