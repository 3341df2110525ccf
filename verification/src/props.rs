//! The configuration of a dialog and the attributes it is rendered with.

use vstd::prelude::*;
use crate::attribute::{
    attribute_views, has_attribute, to_option, Attribute, AttributeKind, AttributeView,
    ATTRIBUTE_COUNT,
};

verus! {

/// The configuration of a dialog, as its owner hands it over: flags, texts and
/// the child content, which this layer passes through without looking at it.
/// A configuration is replaced as a whole, never changed in part.
///
/// The callbacks of the owner are not among the fields. This layer names the
/// callback that an event leads to and the payload it takes, and leaves it to
/// the host to keep the callbacks and to invoke them.
#[derive(Clone, Debug, PartialEq, Eq)]
pub struct DialogProps<C> {
    pub open: bool,
    pub hide_action: bool,
    pub stacked: bool,
    pub heading: Option<String>,
    pub scrim_click_action: Option<String>,
    pub escape_key_action: Option<String>,
    pub default_action: Option<String>,
    pub action_attribute: Option<String>,
    pub initial_focus_attribute: Option<String>,
    pub children: C,
}

/// The mathematical content of a [`DialogProps`].
pub struct DialogPropsView<C> {
    pub open: bool,
    pub hide_action: bool,
    pub stacked: bool,
    pub heading: Option<Seq<char>>,
    pub scrim_click_action: Option<Seq<char>>,
    pub escape_key_action: Option<Seq<char>>,
    pub default_action: Option<Seq<char>>,
    pub action_attribute: Option<Seq<char>>,
    pub initial_focus_attribute: Option<Seq<char>>,
    pub children: C,
}

/// The characters of an optional text.
pub open spec fn text_of(text: Option<String>) -> Option<Seq<char>> {
    match text {
        Some(text) => Some(text@),
        None => None,
    }
}

/// The value of a flag as an attribute: `value` where the flag is set, no
/// attribute where it is not.
pub open spec fn flag_as(flag: bool, value: Seq<char>) -> Option<Seq<char>> {
    if flag {
        Some(value)
    } else {
        None
    }
}

impl<C> View for DialogProps<C> {
    type V = DialogPropsView<C>;

    open spec fn view(&self) -> DialogPropsView<C> {
        DialogPropsView {
            open: self.open,
            hide_action: self.hide_action,
            stacked: self.stacked,
            heading: text_of(self.heading),
            scrim_click_action: text_of(self.scrim_click_action),
            escape_key_action: text_of(self.escape_key_action),
            default_action: text_of(self.default_action),
            action_attribute: text_of(self.action_attribute),
            initial_focus_attribute: text_of(self.initial_focus_attribute),
            children: self.children,
        }
    }
}

impl<C> DialogPropsView<C> {
    /// The value with which an attribute is written, or `None` where the
    /// configuration leaves it out. A flag is written under its own name for
    /// `open` and as `true` for the others, and only where it is set; a text
    /// is written as it stands, and only where it is given.
    pub open spec fn attribute_value(self, kind: AttributeKind) -> Option<Seq<char>> {
        match kind {
            AttributeKind::Open => flag_as(self.open, AttributeKind::Open.spec_name()),
            AttributeKind::HideActions => flag_as(self.hide_action, "true"@),
            AttributeKind::Stacked => flag_as(self.stacked, "true"@),
            AttributeKind::Heading => self.heading,
            AttributeKind::ScrimClickAction => self.scrim_click_action,
            AttributeKind::EscapeKeyAction => self.escape_key_action,
            AttributeKind::DefaultAction => self.default_action,
            AttributeKind::ActionAttribute => self.action_attribute,
            AttributeKind::InitialFocusAttribute => self.initial_focus_attribute,
        }
    }

    /// What one kind of attribute adds to the element: the attribute where it
    /// has a value, nothing where it has none.
    pub open spec fn written(self, kind: AttributeKind) -> Seq<AttributeView> {
        match self.attribute_value(kind) {
            Some(value) => seq![AttributeView { kind, value }],
            None => Seq::empty(),
        }
    }

    /// The attributes on the rendered element, in the order in which they are
    /// written.
    pub open spec fn rendered_attributes(self) -> Seq<AttributeView> {
        self.written(AttributeKind::Open) + self.written(AttributeKind::HideActions)
            + self.written(AttributeKind::Stacked) + self.written(AttributeKind::Heading)
            + self.written(AttributeKind::ScrimClickAction) + self.written(
            AttributeKind::EscapeKeyAction,
        ) + self.written(AttributeKind::DefaultAction) + self.written(
            AttributeKind::ActionAttribute,
        ) + self.written(AttributeKind::InitialFocusAttribute)
    }

    /// The attributes at the first `count` positions of the writing order.
    spec fn rendered_prefix(self, count: nat) -> Seq<AttributeView>
        decreases count,
    {
        if count == 0 {
            Seq::empty()
        } else {
            self.rendered_prefix((count - 1) as nat) + self.written(
                AttributeKind::at(count - 1),
            )
        }
    }

    /// Going through all positions gives the attributes of the element.
    proof fn lemma_prefix_complete(self)
        ensures
            self.rendered_prefix(ATTRIBUTE_COUNT as nat) == self.rendered_attributes(),
    {
        reveal_with_fuel(DialogPropsView::rendered_prefix, 10);
        assert(self.rendered_prefix(9) =~= self.rendered_attributes());
    }

    /// What holds of the attributes at the first `count` positions: each has
    /// the value that the configuration gives its kind, the kinds come in
    /// writing order, and no kind with a value is missing.
    proof fn lemma_prefix_exact(self, count: nat)
        requires
            count <= ATTRIBUTE_COUNT,
        ensures
            forall|i: int|
                0 <= i < self.rendered_prefix(count).len() ==> {
                    let attribute = #[trigger] self.rendered_prefix(count)[i];
                    &&& attribute.kind.ordinal() < count
                    &&& self.attribute_value(attribute.kind) == Some(attribute.value)
                },
            forall|i: int, j: int|
                0 <= i < j < self.rendered_prefix(count).len() ==> (
                #[trigger] self.rendered_prefix(count)[i]).kind.ordinal() < (
                #[trigger] self.rendered_prefix(count)[j]).kind.ordinal(),
            forall|kind: AttributeKind|
                kind.ordinal() < count && self.attribute_value(kind) is Some ==> has_attribute(
                    self.rendered_prefix(count),
                    kind,
                ),
        decreases count,
    {
        if count > 0 {
            let shorter = self.rendered_prefix((count - 1) as nat);
            let last = AttributeKind::at(count - 1);
            let longer = self.rendered_prefix(count);
            self.lemma_prefix_exact((count - 1) as nat);
            assert(longer == shorter + self.written(last));
            assert(last.ordinal() == count - 1);
            assert forall|kind: AttributeKind|
                kind.ordinal() < count && self.attribute_value(kind) is Some implies has_attribute(
                longer,
                kind,
            ) by {
                if kind.ordinal() < count - 1 {
                    assert(has_attribute(shorter, kind));
                    let i = choose|i: int|
                        0 <= i < shorter.len() && (#[trigger] shorter[i]).kind == kind;
                    assert(longer[i] == shorter[i]);
                } else {
                    assert(kind == last);
                    assert(longer[shorter.len() as int].kind == kind);
                }
            }
        }
    }

    /// The rendered element carries exactly the attributes that the
    /// configuration gives a value: each attribute on it has the value of its
    /// kind, every kind with a value is on it, and the kinds follow the
    /// writing order, so that none is written twice.
    pub proof fn lemma_rendered_exactly(self)
        ensures
            forall|i: int|
                0 <= i < self.rendered_attributes().len() ==> self.attribute_value(
                    (#[trigger] self.rendered_attributes()[i]).kind,
                ) == Some(self.rendered_attributes()[i].value),
            forall|kind: AttributeKind|
                has_attribute(self.rendered_attributes(), kind) <==> self.attribute_value(kind)
                    is Some,
            forall|i: int, j: int|
                0 <= i < j < self.rendered_attributes().len() ==> (
                #[trigger] self.rendered_attributes()[i]).kind.ordinal() < (
                #[trigger] self.rendered_attributes()[j]).kind.ordinal(),
    {
        self.lemma_prefix_complete();
        self.lemma_prefix_exact(ATTRIBUTE_COUNT as nat);
    }

    /// Whether the configuration sets the field behind an attribute: the flag
    /// is on, or the text is given.
    pub open spec fn is_set(self, kind: AttributeKind) -> bool {
        match kind {
            AttributeKind::Open => self.open,
            AttributeKind::HideActions => self.hide_action,
            AttributeKind::Stacked => self.stacked,
            AttributeKind::Heading => self.heading is Some,
            AttributeKind::ScrimClickAction => self.scrim_click_action is Some,
            AttributeKind::EscapeKeyAction => self.escape_key_action is Some,
            AttributeKind::DefaultAction => self.default_action is Some,
            AttributeKind::ActionAttribute => self.action_attribute is Some,
            AttributeKind::InitialFocusAttribute => self.initial_focus_attribute is Some,
        }
    }

    /// An attribute is on the rendered element if and only if the field behind
    /// it is set. A field that is left unset has no attribute at all, and a
    /// flag has its attribute exactly when it is on.
    pub proof fn lemma_present_iff_set(self)
        ensures
            forall|kind: AttributeKind|
                has_attribute(self.rendered_attributes(), kind) <==> self.is_set(kind),
    {
        self.lemma_rendered_exactly();
    }

    /// No flag is ever written with the value `false`: a flag that is off is
    /// absent from the element.
    pub proof fn lemma_flags_never_false(self)
        ensures
            forall|i: int|
                0 <= i < self.rendered_attributes().len() && (
                #[trigger] self.rendered_attributes()[i]).kind.is_presence_style()
                    ==> self.rendered_attributes()[i].value != "false"@,
    {
        self.lemma_rendered_exactly();
        reveal_strlit("false");
        reveal_strlit("true");
        reveal_strlit("open");
        assert("false"@.len() == 5);
        assert("true"@.len() == 4);
        assert("open"@.len() == 4);
    }
}

impl<C> DialogProps<C> {
    /// A configuration with every flag off and every text left out.
    pub fn new(children: C) -> (props: Self)
        ensures
            props@ == (DialogPropsView {
                open: false,
                hide_action: false,
                stacked: false,
                heading: None,
                scrim_click_action: None,
                escape_key_action: None,
                default_action: None,
                action_attribute: None,
                initial_focus_attribute: None,
                children,
            }),
    {
        DialogProps {
            open: false,
            hide_action: false,
            stacked: false,
            heading: None,
            scrim_click_action: None,
            escape_key_action: None,
            default_action: None,
            action_attribute: None,
            initial_focus_attribute: None,
            children,
        }
    }

    /// The attribute of one kind as this configuration has it written, or
    /// `None` where the configuration leaves it out.
    pub fn attribute(&self, kind: AttributeKind) -> (attribute: Option<Attribute<'_>>)
        ensures
            attribute is Some <==> self@.attribute_value(kind) is Some,
            attribute matches Some(a) ==> a.kind == kind && Some(a.value@)
                == self@.attribute_value(kind),
    {
        let value: Option<&str> = match kind {
            AttributeKind::Open => if self.open {
                Some(AttributeKind::Open.name())
            } else {
                None
            },
            AttributeKind::HideActions => to_option(self.hide_action),
            AttributeKind::Stacked => to_option(self.stacked),
            AttributeKind::Heading => borrowed(&self.heading),
            AttributeKind::ScrimClickAction => borrowed(&self.scrim_click_action),
            AttributeKind::EscapeKeyAction => borrowed(&self.escape_key_action),
            AttributeKind::DefaultAction => borrowed(&self.default_action),
            AttributeKind::ActionAttribute => borrowed(&self.action_attribute),
            AttributeKind::InitialFocusAttribute => borrowed(&self.initial_focus_attribute),
        };
        match value {
            Some(value) => Some(Attribute { kind, value }),
            None => None,
        }
    }

    /// The attributes of the rendered element, in the order in which they are
    /// written. An attribute that the configuration leaves out is not in the
    /// list at all.
    pub fn attributes(&self) -> (attributes: Vec<Attribute<'_>>)
        ensures
            attribute_views(attributes@) == self@.rendered_attributes(),
            forall|kind: AttributeKind|
                has_attribute(attribute_views(attributes@), kind) <==> self@.is_set(kind),
            forall|i: int|
                0 <= i < attributes.len() && (#[trigger] attributes[i]).kind.is_presence_style()
                    ==> attributes[i].value@ != "false"@,
    {
        let mut attributes: Vec<Attribute<'_>> = Vec::new();
        let mut position: usize = 0;
        while position < ATTRIBUTE_COUNT
            invariant
                position <= ATTRIBUTE_COUNT,
                attribute_views(attributes@) == self@.rendered_prefix(position as nat),
            decreases ATTRIBUTE_COUNT - position,
        {
            let ghost before = attributes@;
            if let Some(kind) = AttributeKind::from_ordinal(position) {
                if let Some(attribute) = self.attribute(kind) {
                    attributes.push(attribute);
                    assert(attribute_views(attributes@) =~= attribute_views(before) + seq![
                        attribute@,
                    ]);
                }
            }
            position = position + 1;
        }
        proof {
            self@.lemma_prefix_complete();
            self@.lemma_present_iff_set();
            self@.lemma_flags_never_false();
            assert forall|i: int|
                0 <= i < attributes.len() && (
                #[trigger] attributes[i]).kind.is_presence_style() implies attributes[i].value@
                != "false"@ by {
                assert(attribute_views(attributes@)[i] == attributes[i]@);
            }
        }
        attributes
    }
}

/// The text inside an optional string, borrowed.
fn borrowed(text: &Option<String>) -> (slice: Option<&str>)
    ensures
        slice is Some <==> text is Some,
        slice matches Some(s) ==> s@ == text->Some_0@,
{
    match text {
        Some(text) => Some(text.as_str()),
        None => None,
    }
}

} // verus!
