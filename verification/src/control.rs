//! The proxy control and the operations on it.
//!
//! The proxy control is a hidden single-line text input that belongs to the
//! agent alone. The agent never touches it directly: it names operations, and
//! whoever drives the agent carries them out on the platform. `ControlModel`
//! says what each operation is taken to do once the platform has accepted it.

use vstd::prelude::*;

verus! {

/// What the agent is attached to.
#[derive(Clone, Copy, Debug, PartialEq, Eq)]
pub enum Root {
    /// The whole document.
    Document,
    /// A container node inside a document.
    Container,
}

/// The node that holds the proxy control as its child.
#[derive(Clone, Copy, Debug, PartialEq, Eq)]
pub enum Parent {
    /// The body of the document.
    Body,
    /// The container that the agent was attached to.
    Container,
}

/// A kind of notification that the proxy control receives.
#[derive(Clone, Copy, Debug, PartialEq, Eq)]
pub enum Signal {
    Input,
    CompositionStart,
    CompositionUpdate,
    CompositionEnd,
    KeyDown,
    KeyUp,
}

/// An operation on the proxy control.
#[derive(Clone, Copy, Debug, PartialEq, Eq)]
pub enum ControlOp {
    /// Create the control: a single-line input element, not yet in the document.
    Create,
    /// Ask for the focus as soon as the control is in the document.
    Autofocus,
    /// Make the control a plain text field.
    TextType,
    /// Set an attribute of the control.
    Attribute { name: &'static str, value: &'static str },
    /// Set a property of the control's inline style.
    Style { property: &'static str, value: &'static str },
    /// Append the control to the children of a node.
    Insert(Parent),
    /// Subscribe to a kind of notification on the control.
    Listen(Signal),
    /// Empty the text that the control has buffered.
    ClearValue,
    /// Take the focus away from the control.
    Blur,
    /// Give the focus to the control.
    Focus,
    /// Take the control out of the document.
    Remove,
}

/// The node that receives the control for a given root: the body for a whole
/// document, the container itself otherwise.
pub open spec fn parent_for(root: Root) -> Parent {
    match root {
        Root::Document => Parent::Body,
        Root::Container => Parent::Container,
    }
}

impl Root {
    /// The node to which the proxy control is appended.
    pub fn parent(&self) -> (p: Parent)
        ensures
            p == parent_for(*self),
    {
        match self {
            Root::Document => Parent::Body,
            Root::Container => Parent::Container,
        }
    }
}

impl Signal {
    /// The name under which the platform delivers this kind of notification.
    pub open spec fn name_chars(self) -> Seq<char> {
        match self {
            Signal::Input => "input"@,
            Signal::CompositionStart => "compositionstart"@,
            Signal::CompositionUpdate => "compositionupdate"@,
            Signal::CompositionEnd => "compositionend"@,
            Signal::KeyDown => "keydown"@,
            Signal::KeyUp => "keyup"@,
        }
    }

    /// The name under which the platform delivers this kind of notification.
    pub fn name(&self) -> (s: &'static str)
        ensures
            s@ == self.name_chars(),
    {
        match self {
            Signal::Input => "input",
            Signal::CompositionStart => "compositionstart",
            Signal::CompositionUpdate => "compositionupdate",
            Signal::CompositionEnd => "compositionend",
            Signal::KeyDown => "keydown",
            Signal::KeyUp => "keyup",
        }
    }
}

/// What the agent's operations determine of the proxy control.
pub struct ControlModel {
    /// The node that holds the control, if it is in the document.
    pub parent: Option<Parent>,
    /// The text that the control has buffered.
    pub value: Seq<char>,
    /// Whether the control has the focus.
    pub focused: bool,
}

impl ControlModel {
    /// Before anything was done: no control in the document.
    pub open spec fn absent() -> ControlModel {
        ControlModel { parent: None, value: Seq::empty(), focused: false }
    }

    /// The control after one accepted operation.
    pub open spec fn after(self, op: ControlOp) -> ControlModel {
        match op {
            ControlOp::Insert(parent) => ControlModel { parent: Some(parent), ..self },
            ControlOp::Remove => ControlModel { parent: None, focused: false, ..self },
            ControlOp::ClearValue => ControlModel { value: Seq::empty(), ..self },
            ControlOp::Blur => ControlModel { focused: false, ..self },
            ControlOp::Focus => ControlModel { focused: true, ..self },
            _ => self,
        }
    }

    /// The control after a run of accepted operations, first to last.
    pub open spec fn after_all(self, ops: Seq<ControlOp>) -> ControlModel
        decreases ops.len(),
    {
        if ops.len() == 0 {
            self
        } else {
            self.after_all(ops.drop_last()).after(ops.last())
        }
    }

    /// The control after an operation that may be absent.
    pub open spec fn after_maybe(self, op: Option<ControlOp>) -> ControlModel {
        match op {
            Some(op) => self.after(op),
            None => self,
        }
    }

    /// Whether the control is in the document.
    pub open spec fn attached(self) -> bool {
        self.parent is Some
    }
}

/// Whether a run of operations leaves the buffer empty, whatever it held.
pub open spec fn empties_value(ops: Seq<ControlOp>) -> bool {
    forall|before: ControlModel| #[trigger] before.after_all(ops).value == Seq::<char>::empty()
}

/// Whether a run of operations leaves the control where it is, in the
/// document or outside it.
pub open spec fn keeps_place(ops: Seq<ControlOp>) -> bool {
    forall|before: ControlModel| #[trigger] before.after_all(ops).parent == before.parent
}

/// A run that ends with the emptying of the buffer leaves it empty.
pub proof fn clear_at_the_end_empties_value(ops: Seq<ControlOp>)
    requires
        ops.len() > 0,
        ops.last() == ControlOp::ClearValue,
    ensures
        empties_value(ops),
{
}

/// A run without an insertion and without a removal leaves the control
/// where it is.
pub proof fn run_without_insert_or_remove_keeps_place(ops: Seq<ControlOp>)
    requires
        forall|i: int| 0 <= i < ops.len() ==> !(#[trigger] ops[i] is Insert) && !(ops[i] is Remove),
    ensures
        keeps_place(ops),
    decreases ops.len(),
{
    if ops.len() > 0 {
        run_without_insert_or_remove_keeps_place(ops.drop_last());
        assert forall|before: ControlModel| #[trigger]
            before.after_all(ops).parent == before.parent by {
            assert(before.after_all(ops.drop_last()).parent == before.parent);
            assert(!(ops[ops.len() - 1] is Insert));
        }
    }
}

} // verus!
