//! The attributes that configure the native widget.

use vstd::prelude::*;

verus! {

/// The tag of the native widget.
pub const TAG: &'static str = "mwc-dialog";

/// An attribute of the native widget that this binding writes.
#[derive(Clone, Copy, Debug, PartialEq, Eq, Structural)]
pub enum AttributeKind {
    Open,
    HideActions,
    Stacked,
    Heading,
    ScrimClickAction,
    EscapeKeyAction,
    DefaultAction,
    ActionAttribute,
    InitialFocusAttribute,
}

/// The number of attributes that this binding writes.
pub const ATTRIBUTE_COUNT: usize = 9;

impl AttributeKind {
    /// Position of the attribute in the order in which attributes are written.
    pub open spec fn ordinal(self) -> int {
        match self {
            AttributeKind::Open => 0,
            AttributeKind::HideActions => 1,
            AttributeKind::Stacked => 2,
            AttributeKind::Heading => 3,
            AttributeKind::ScrimClickAction => 4,
            AttributeKind::EscapeKeyAction => 5,
            AttributeKind::DefaultAction => 6,
            AttributeKind::ActionAttribute => 7,
            AttributeKind::InitialFocusAttribute => 8,
        }
    }

    /// The attribute at a position; the inverse of [`AttributeKind::ordinal`].
    pub open spec fn at(position: int) -> AttributeKind {
        if position == 0 {
            AttributeKind::Open
        } else if position == 1 {
            AttributeKind::HideActions
        } else if position == 2 {
            AttributeKind::Stacked
        } else if position == 3 {
            AttributeKind::Heading
        } else if position == 4 {
            AttributeKind::ScrimClickAction
        } else if position == 5 {
            AttributeKind::EscapeKeyAction
        } else if position == 6 {
            AttributeKind::DefaultAction
        } else if position == 7 {
            AttributeKind::ActionAttribute
        } else {
            AttributeKind::InitialFocusAttribute
        }
    }

    /// Whether the mere presence of the attribute switches a behaviour on,
    /// whatever its value.
    pub open spec fn is_presence_style(self) -> bool {
        self == AttributeKind::Open || self == AttributeKind::HideActions || self
            == AttributeKind::Stacked
    }

    /// The name of the attribute on the element.
    pub open spec fn spec_name(self) -> Seq<char> {
        match self {
            AttributeKind::Open => "open"@,
            AttributeKind::HideActions => "hide-actions"@,
            AttributeKind::Stacked => "stacked"@,
            AttributeKind::Heading => "heading"@,
            AttributeKind::ScrimClickAction => "scrim-click-action"@,
            AttributeKind::EscapeKeyAction => "escape-key-action"@,
            AttributeKind::DefaultAction => "default-action"@,
            AttributeKind::ActionAttribute => "action-attribute"@,
            AttributeKind::InitialFocusAttribute => "initial-focus-attribute"@,
        }
    }

    /// The name of the attribute on the element.
    pub fn name(self) -> (name: &'static str)
        ensures
            name@ == self.spec_name(),
    {
        match self {
            AttributeKind::Open => "open",
            AttributeKind::HideActions => "hide-actions",
            AttributeKind::Stacked => "stacked",
            AttributeKind::Heading => "heading",
            AttributeKind::ScrimClickAction => "scrim-click-action",
            AttributeKind::EscapeKeyAction => "escape-key-action",
            AttributeKind::DefaultAction => "default-action",
            AttributeKind::ActionAttribute => "action-attribute",
            AttributeKind::InitialFocusAttribute => "initial-focus-attribute",
        }
    }

    /// The attribute at a position in the order in which attributes are
    /// written; `None` past the last one.
    pub fn from_ordinal(position: usize) -> (kind: Option<AttributeKind>)
        ensures
            kind is Some <==> position < ATTRIBUTE_COUNT,
            kind matches Some(k) ==> k == AttributeKind::at(position as int) && k.ordinal()
                == position,
    {
        if position == 0 {
            Some(AttributeKind::Open)
        } else if position == 1 {
            Some(AttributeKind::HideActions)
        } else if position == 2 {
            Some(AttributeKind::Stacked)
        } else if position == 3 {
            Some(AttributeKind::Heading)
        } else if position == 4 {
            Some(AttributeKind::ScrimClickAction)
        } else if position == 5 {
            Some(AttributeKind::EscapeKeyAction)
        } else if position == 6 {
            Some(AttributeKind::DefaultAction)
        } else if position == 7 {
            Some(AttributeKind::ActionAttribute)
        } else if position == 8 {
            Some(AttributeKind::InitialFocusAttribute)
        } else {
            None
        }
    }
}

/// The value under which a flag that is set appears as an attribute; a flag
/// that is not set has no attribute at all.
pub fn to_option(value: bool) -> (written: Option<&'static str>)
    ensures
        written is Some <==> value,
        value ==> written->Some_0@ == "true"@,
{
    if value {
        Some("true")
    } else {
        None
    }
}

/// An attribute as it is written on the element.
#[derive(Clone, Copy, Debug, PartialEq, Eq)]
pub struct Attribute<'a> {
    pub kind: AttributeKind,
    pub value: &'a str,
}

/// The mathematical content of an [`Attribute`].
pub struct AttributeView {
    pub kind: AttributeKind,
    pub value: Seq<char>,
}

impl<'a> View for Attribute<'a> {
    type V = AttributeView;

    open spec fn view(&self) -> AttributeView {
        AttributeView { kind: self.kind, value: self.value@ }
    }
}

/// The mathematical content of a list of attributes.
pub open spec fn attribute_views(attributes: Seq<Attribute<'_>>) -> Seq<AttributeView> {
    attributes.map_values(|attribute: Attribute<'_>| attribute@)
}

/// Whether a list of attributes holds one of the given kind.
pub open spec fn has_attribute(attributes: Seq<AttributeView>, kind: AttributeKind) -> bool {
    exists|i: int| 0 <= i < attributes.len() && (#[trigger] attributes[i]).kind == kind
}

} // verus!
