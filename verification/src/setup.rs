//! Bringing the proxy control into the document.

use vstd::prelude::*;
use crate::agent::TextAgent;
use crate::control::{parent_for, ControlModel, ControlOp, Root, Signal};

verus! {

/// The operations that bring the proxy control into the document, in order.
///
/// The control is created and configured while it is still outside the
/// document: it asks for the focus, takes plain text and does not capitalise.
/// Its style makes it invisible and leaves it no room: no background, border,
/// outline or caret, one pixel wide and high, at the origin of its parent.
/// Then it is appended to its parent, and last the subscriptions are made.
pub open spec fn setup_plan(root: Root) -> Seq<ControlOp> {
    seq![
        ControlOp::Create,
        ControlOp::Autofocus,
        ControlOp::TextType,
        ControlOp::Attribute { name: "autocapitalize", value: "off" },
        ControlOp::Style { property: "background-color", value: "transparent" },
        ControlOp::Style { property: "border", value: "none" },
        ControlOp::Style { property: "outline", value: "none" },
        ControlOp::Style { property: "width", value: "1px" },
        ControlOp::Style { property: "height", value: "1px" },
        ControlOp::Style { property: "caret-color", value: "transparent" },
        ControlOp::Style { property: "position", value: "absolute" },
        ControlOp::Style { property: "top", value: "0" },
        ControlOp::Style { property: "left", value: "0" },
        ControlOp::Insert(parent_for(root)),
        ControlOp::Listen(Signal::Input),
        ControlOp::Listen(Signal::CompositionStart),
        ControlOp::Listen(Signal::CompositionUpdate),
        ControlOp::Listen(Signal::CompositionEnd),
        ControlOp::Listen(Signal::KeyDown),
        ControlOp::Listen(Signal::KeyUp),
    ]
}

/// The number of operations in the plan.
pub const PLAN_LEN: usize = 20;

/// What is left to undo when an operation was rejected after `accepted`
/// others: the control is taken out again if it was in the document already.
pub open spec fn cleanup_after(root: Root, accepted: int) -> Option<ControlOp> {
    if ControlModel::absent().after_all(setup_plan(root).take(accepted)).attached() {
        Some(ControlOp::Remove)
    } else {
        None
    }
}

/// The place of the insertion in the plan.
pub const INSERT_AT: usize = 13;

/// The operation at one place of the plan.
fn plan_step(root: Root, index: usize) -> (op: ControlOp)
    requires
        index < PLAN_LEN,
    ensures
        op == setup_plan(root)[index as int],
{
    match index {
        0 => ControlOp::Create,
        1 => ControlOp::Autofocus,
        2 => ControlOp::TextType,
        3 => ControlOp::Attribute { name: "autocapitalize", value: "off" },
        4 => ControlOp::Style { property: "background-color", value: "transparent" },
        5 => ControlOp::Style { property: "border", value: "none" },
        6 => ControlOp::Style { property: "outline", value: "none" },
        7 => ControlOp::Style { property: "width", value: "1px" },
        8 => ControlOp::Style { property: "height", value: "1px" },
        9 => ControlOp::Style { property: "caret-color", value: "transparent" },
        10 => ControlOp::Style { property: "position", value: "absolute" },
        11 => ControlOp::Style { property: "top", value: "0" },
        12 => ControlOp::Style { property: "left", value: "0" },
        13 => ControlOp::Insert(root.parent()),
        14 => ControlOp::Listen(Signal::Input),
        15 => ControlOp::Listen(Signal::CompositionStart),
        16 => ControlOp::Listen(Signal::CompositionUpdate),
        17 => ControlOp::Listen(Signal::CompositionEnd),
        18 => ControlOp::Listen(Signal::KeyDown),
        _ => ControlOp::Listen(Signal::KeyUp),
    }
}

/// In the plan only the insertion changes where the control is.
proof fn only_the_insertion_attaches(root: Root, index: int)
    requires
        0 <= index < PLAN_LEN,
    ensures
        setup_plan(root).len() == PLAN_LEN,
        index == INSERT_AT ==> setup_plan(root)[index] == ControlOp::Insert(parent_for(root)),
        index != INSERT_AT ==> !(setup_plan(root)[index] is Insert) && !(setup_plan(
            root,
        )[index] is Remove),
{
}

/// The plan creates the control once, first of all.
pub proof fn plan_creates_one_control(root: Root, index: int)
    requires
        0 <= index < PLAN_LEN,
    ensures
        setup_plan(root)[index] is Create <==> index == 0,
{
}

/// Where the control is after the first `accepted` operations of the plan:
/// outside the document up to the insertion, under its parent from then on.
pub proof fn parent_after_prefix(root: Root, accepted: int)
    requires
        0 <= accepted <= PLAN_LEN,
    ensures
        ControlModel::absent().after_all(setup_plan(root).take(accepted)).parent == if accepted
            > INSERT_AT {
            Some(parent_for(root))
        } else {
            None
        },
    decreases accepted,
{
    let plan = setup_plan(root);
    if accepted > 0 {
        parent_after_prefix(root, accepted - 1);
        only_the_insertion_attaches(root, accepted - 1);
        assert(plan.take(accepted).drop_last() =~= plan.take(accepted - 1));
        assert(plan.take(accepted).last() == plan[accepted - 1]);
    } else {
        assert(plan.take(0).len() == 0);
    }
}

/// An attachment under way: some operations of the plan were accepted, the
/// next one is pending.
#[derive(Debug)]
pub struct Attachment {
    root: Root,
    accepted: usize,
}

/// How an attachment goes on after the platform's answer to the pending
/// operation.
#[derive(Debug)]
pub enum Progress {
    /// The operation was accepted and another one is pending.
    Pending(Attachment),
    /// The last operation was accepted: the control is in place, and this is
    /// its agent.
    Attached(TextAgent),
    /// The operation was rejected. The attachment has failed, and `cleanup`
    /// is what is left to do so that no control stays behind.
    Failed { cleanup: Option<ControlOp> },
}

impl Attachment {
    #[verifier::type_invariant]
    spec fn within_plan(self) -> bool {
        self.accepted < PLAN_LEN
    }

    /// What the agent is being attached to.
    pub closed spec fn root(self) -> Root {
        self.root
    }

    /// How many operations of the plan were accepted so far.
    pub closed spec fn accepted(self) -> nat {
        self.accepted as nat
    }

    pub(crate) fn begin(root: Root) -> (attachment: Attachment)
        ensures
            attachment.root() == root,
            attachment.accepted() == 0,
    {
        Attachment { root, accepted: 0 }
    }

    /// The operation that is to be carried out now.
    pub fn pending(&self) -> (op: ControlOp)
        ensures
            self.accepted() < setup_plan(self.root()).len(),
            op == setup_plan(self.root())[self.accepted() as int],
    {
        proof {
            use_type_invariant(self);
            only_the_insertion_attaches(self.root, 0);
        }
        plan_step(self.root, self.accepted)
    }

    /// Takes the platform's answer to the pending operation.
    ///
    /// An accepted operation leads to the next one, the last one to the
    /// agent. A rejected one ends the attachment: no agent comes of it, and
    /// a control that was in the document already is to be taken out again.
    pub fn advance(self, accepted: bool) -> (progress: Progress)
        ensures
            match progress {
                Progress::Pending(next) => {
                    &&& accepted
                    &&& self.accepted() + 1 < PLAN_LEN
                    &&& next.root() == self.root()
                    &&& next.accepted() == self.accepted() + 1
                },
                Progress::Attached(agent) => {
                    &&& accepted
                    &&& self.accepted() + 1 == PLAN_LEN
                    &&& agent.recorded() is None
                },
                Progress::Failed { cleanup } => {
                    &&& !accepted
                    &&& cleanup == cleanup_after(self.root(), self.accepted() as int)
                },
            },
    {
        proof {
            use_type_invariant(&self);
        }
        if !accepted {
            proof {
                parent_after_prefix(self.root, self.accepted as int);
            }
            let cleanup = if self.accepted > INSERT_AT {
                Some(ControlOp::Remove)
            } else {
                None
            };
            Progress::Failed { cleanup }
        } else if self.accepted + 1 < PLAN_LEN {
            Progress::Pending(Attachment { root: self.root, accepted: self.accepted + 1 })
        } else {
            Progress::Attached(TextAgent::new())
        }
    }
}

/// A plan that was accepted whole leaves the control in the document, under
/// the body for a whole document and under the container otherwise.
pub proof fn accepted_plan_attaches(root: Root)
    ensures
        ControlModel::absent().after_all(setup_plan(root)).parent == Some(parent_for(root)),
{
    parent_after_prefix(root, PLAN_LEN as int);
    only_the_insertion_attaches(root, 0);
    assert(setup_plan(root).take(PLAN_LEN as int) =~= setup_plan(root));
}

/// Wherever an attachment fails, no control stays behind in the document
/// once the cleanup is done.
pub proof fn failed_attachment_leaves_nothing(root: Root, accepted: int)
    requires
        0 <= accepted < PLAN_LEN,
    ensures
        !ControlModel::absent().after_all(setup_plan(root).take(accepted)).after_maybe(
            cleanup_after(root, accepted),
        ).attached(),
{
}

} // verus!
