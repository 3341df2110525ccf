//! The one-shot guard on the registration of the widget's definition.

use vstd::prelude::*;

verus! {

/// Remembers whether the definition of the native widget has been asked for.
/// The definition must be registered once in a process, before the first
/// dialog renders, and is never unloaded: the flag is set by the first request
/// and stays set.
#[derive(Debug)]
pub struct WidgetLoader {
    requested: bool,
}

impl View for WidgetLoader {
    type V = bool;

    /// Whether the registration has been asked for.
    closed spec fn view(&self) -> bool {
        self.requested
    }
}

impl WidgetLoader {
    /// A guard under which nothing has been asked for yet.
    pub fn new() -> (loader: Self)
        ensures
            !loader@,
    {
        WidgetLoader { requested: false }
    }

    /// Whether the registration has been asked for.
    pub fn is_loaded(&self) -> (requested: bool)
        ensures
            requested == self@,
    {
        self.requested
    }

    /// Makes sure that the registration is asked for exactly once. Returns
    /// `true` to the first caller, who has to register the definition, and
    /// `false` to every later one.
    pub fn ensure_loaded(&mut self) -> (register: bool)
        ensures
            register == !old(self)@,
            final(self)@,
    {
        let register = !self.requested;
        self.requested = true;
        register
    }
}

} // verus!
