//! The agent: where the proxy control goes, and who has the focus.

use vstd::prelude::*;
use crate::control::{ControlModel, ControlOp, Root};
use crate::geometry::{ImeOutput, Rect};
use crate::platform::{is_mobile_safari, mobile_safari};
use crate::setup::Attachment;

verus! {

/// From where the vertical position of the proxy control is measured.
#[derive(Clone, Copy, Debug, PartialEq, Eq)]
pub enum VerticalOrigin {
    /// From the top of the canvas's content rectangle on the page.
    CanvasContent,
    /// From the canvas element's own top offset. This is for the mobile
    /// browser whose virtual keyboard shifts the viewport.
    CanvasOffsetTop,
}

/// Where the proxy control is to be put.
///
/// Its top left corner goes to the centre of `cursor_rect`, moved by the
/// canvas's origin on the page and scaled by the zoom factor. The horizontal
/// position is written first, then the vertical one.
#[derive(Clone, Copy, Debug, PartialEq)]
pub struct Placement {
    /// The cursor's rectangle on the drawing surface.
    pub cursor_rect: Rect,
    /// Which vertical origin of the canvas counts.
    pub vertical_origin: VerticalOrigin,
}

/// Whether two snapshots are equal: both absent, or both present and equal.
pub open spec fn snapshot_eq(a: Option<ImeOutput>, b: Option<ImeOutput>) -> bool {
    match (a, b) {
        (None, None) => true,
        (Some(x), Some(y)) => x.same_as(y),
        _ => false,
    }
}

/// The snapshot on record after one has been handed in: an equal one leaves
/// the record as it is, any other replaces it.
pub open spec fn recorded_after(
    recorded: Option<ImeOutput>,
    ime: Option<ImeOutput>,
) -> Option<ImeOutput> {
    if snapshot_eq(recorded, ime) {
        recorded
    } else {
        ime
    }
}

/// Where the proxy control is to be put once a snapshot has been handed in,
/// if it is to be moved at all. It stays where it is when the snapshot equals
/// the one on record, and when there is no geometry to go by.
pub open spec fn placement_for(
    recorded: Option<ImeOutput>,
    ime: Option<ImeOutput>,
    mobile_safari: bool,
) -> Option<Placement> {
    match ime {
        Some(geometry) if !snapshot_eq(recorded, ime) => Some(
            Placement {
                cursor_rect: geometry.cursor_rect,
                vertical_origin: if mobile_safari {
                    VerticalOrigin::CanvasOffsetTop
                } else {
                    VerticalOrigin::CanvasContent
                },
            },
        ),
        _ => None,
    }
}

/// The call that brings the focus to the wanted state, if it is not there yet.
pub open spec fn focus_call(on: bool, has_focus: bool) -> Option<ControlOp> {
    if on == has_focus {
        None
    } else if on {
        Some(ControlOp::Focus)
    } else {
        Some(ControlOp::Blur)
    }
}

fn same_snapshot(a: &Option<ImeOutput>, b: &Option<ImeOutput>) -> (r: bool)
    ensures
        r == snapshot_eq(*a, *b),
{
    match (a, b) {
        (None, None) => true,
        (Some(x), Some(y)) => *x == *y,
        _ => false,
    }
}

/// The agent behind one proxy control.
///
/// An agent comes out of a completed attachment and from nowhere else, so
/// each agent stands for exactly one control that is in the document. It keeps
/// the last geometry snapshot that it was handed, to tell a change from a
/// repetition.
#[derive(Debug)]
pub struct TextAgent {
    prev_ime_output: Option<ImeOutput>,
}

impl TextAgent {
    /// The snapshot on record.
    pub closed spec fn recorded(&self) -> Option<ImeOutput> {
        self.prev_ime_output
    }

    pub(crate) fn new() -> (agent: TextAgent)
        ensures
            agent.recorded() is None,
    {
        TextAgent { prev_ime_output: None }
    }

    /// Begins to attach an agent to a document or to a container in one.
    /// Nothing has been done yet: the first operation is pending.
    pub fn attach(root: Root) -> (attachment: Attachment)
        ensures
            attachment.root() == root,
            attachment.accepted() == 0,
    {
        Attachment::begin(root)
    }

    /// The snapshot on record.
    pub fn prev_ime_output(&self) -> (recorded: Option<ImeOutput>)
        ensures
            recorded == self.recorded(),
    {
        self.prev_ime_output
    }

    /// Takes this frame's geometry snapshot and says where the proxy control
    /// is to be put, if it has to move.
    ///
    /// A snapshot equal to the one on record changes nothing. Any other is
    /// put on record; the control is then moved if the snapshot holds a
    /// geometry, and left alone if it holds none. `user_agent` is the
    /// platform's identification string, `None` if it could not be read.
    pub fn move_to(&mut self, ime: Option<ImeOutput>, user_agent: Option<&str>) -> (placement:
        Option<Placement>)
        ensures
            final(self).recorded() == recorded_after(old(self).recorded(), ime),
            placement == placement_for(old(self).recorded(), ime, mobile_safari(user_agent)),
    {
        if same_snapshot(&self.prev_ime_output, &ime) {
            return None;
        }
        self.prev_ime_output = ime;
        match ime {
            None => None,
            Some(geometry) => {
                let vertical_origin = if is_mobile_safari(user_agent) {
                    VerticalOrigin::CanvasOffsetTop
                } else {
                    VerticalOrigin::CanvasContent
                };
                Some(Placement { cursor_rect: geometry.cursor_rect, vertical_origin })
            },
        }
    }

    /// Says which call brings the focus to the wanted state. `has_focus` is
    /// whether the proxy control has the focus now. Where it is in the
    /// wanted state already, no call is made.
    pub fn set_focus(&self, on: bool, has_focus: bool) -> (call: Option<ControlOp>)
        ensures
            call == focus_call(on, has_focus),
            on == has_focus ==> call is None,
            on && !has_focus ==> call == Some(ControlOp::Focus),
            !on && has_focus ==> call == Some(ControlOp::Blur),
    {
        if on {
            self.focus(has_focus)
        } else {
            self.blur(has_focus)
        }
    }

    /// Says which call gives the focus to the proxy control: none if it has
    /// the focus already.
    pub fn focus(&self, has_focus: bool) -> (call: Option<ControlOp>)
        ensures
            call == focus_call(true, has_focus),
    {
        if has_focus {
            return None;
        }
        Some(ControlOp::Focus)
    }

    /// Says which call takes the focus away from the proxy control: none if
    /// it does not have the focus.
    pub fn blur(&self, has_focus: bool) -> (call: Option<ControlOp>)
        ensures
            call == focus_call(false, has_focus),
    {
        if !has_focus {
            return None;
        }
        Some(ControlOp::Blur)
    }

    /// Ends the agent. Its proxy control is taken out of the document,
    /// whatever has happened to it before.
    pub fn teardown(self) -> (op: ControlOp)
        ensures
            op == ControlOp::Remove,
    {
        ControlOp::Remove
    }
}

/// Handing in two equal snapshots in a row moves nothing the second time.
pub proof fn repeated_snapshot_moves_nothing(
    recorded: Option<ImeOutput>,
    first: Option<ImeOutput>,
    second: Option<ImeOutput>,
    mobile_safari: bool,
)
    requires
        snapshot_eq(first, second),
    ensures
        placement_for(recorded_after(recorded, first), second, mobile_safari) is None,
        recorded_after(recorded_after(recorded, first), second) == recorded_after(recorded, first),
{
}

/// A geometry followed by none: the change is put on record, and nothing is
/// moved.
pub proof fn geometry_then_none_moves_nothing(
    recorded: Option<ImeOutput>,
    geometry: ImeOutput,
    mobile_safari: bool,
)
    ensures
        recorded_after(recorded_after(recorded, Some(geometry)), None) is None,
        placement_for(recorded_after(recorded, Some(geometry)), None, mobile_safari) is None,
{
}

/// The call that `set_focus` names brings the focus to the wanted state, and
/// once it is there no further call is named.
pub proof fn set_focus_is_idempotent(control: ControlModel, on: bool)
    ensures
        control.after_maybe(focus_call(on, control.focused)).focused == on,
        focus_call(on, control.after_maybe(focus_call(on, control.focused)).focused) is None,
{
}

/// Whatever has happened to the proxy control, after the teardown it is in
/// no document.
pub proof fn teardown_detaches(control: ControlModel)
    ensures
        !control.after(ControlOp::Remove).attached(),
{
}

} // verus!
