//! From platform notifications to events for the application.
//!
//! Each notification is judged by itself, from what it carries: there is no
//! state between two of them. A notification yields at most one event, and
//! whenever it yields one, a repaint is asked for at once.

use vstd::prelude::*;
use crate::control::{
    clear_at_the_end_empties_value, empties_value, keeps_place,
    run_without_insert_or_remove_keeps_place, ControlOp,
};
use crate::event::{chars_of, event_view, Event, EventView, Notification, NotificationView};

verus! {

/// What is to be done about one notification.
#[derive(Clone, Debug, PartialEq, Eq)]
pub struct Reaction {
    /// Operations on the proxy control, to be carried out in this order and
    /// before the event is handed on. None of them has to succeed.
    pub ops: Vec<ControlOp>,
    /// The event for the application's input queue, if there is one.
    pub event: Option<Event>,
    /// Whether the application is to repaint as soon as possible.
    pub repaint: bool,
}

/// A `Reaction` over sequences.
pub struct ReactionView {
    pub ops: Seq<ControlOp>,
    pub event: Option<EventView>,
    pub repaint: bool,
}

impl View for Reaction {
    type V = ReactionView;

    open spec fn view(&self) -> ReactionView {
        ReactionView { ops: self.ops@, event: event_view(self.event), repaint: self.repaint }
    }
}

impl ReactionView {
    /// Nothing to do.
    pub open spec fn quiet() -> ReactionView {
        ReactionView { ops: Seq::empty(), event: None, repaint: false }
    }
}

/// The reaction to a change of the buffered text.
///
/// While a composition is going on the platform reports the provisional text
/// here as well as in the composition's own notifications, so this one is
/// passed over whole. Otherwise the focus is taken away and given back, which
/// makes the platform drop a suggestion that it may still be showing; and a
/// text that is not empty is taken out of the buffer and committed.
pub open spec fn input_reaction(value: Seq<char>, composing: bool) -> ReactionView {
    if composing {
        ReactionView::quiet()
    } else if value.len() == 0 {
        ReactionView { ops: seq![ControlOp::Blur, ControlOp::Focus], event: None, repaint: false }
    } else {
        ReactionView {
            ops: seq![ControlOp::Blur, ControlOp::Focus, ControlOp::ClearValue],
            event: Some(EventView::Text(value)),
            repaint: true,
        }
    }
}

/// The reaction to the start of a composition session: the buffer is emptied,
/// so that the session does not begin with stale text.
pub open spec fn composition_start_reaction() -> ReactionView {
    ReactionView {
        ops: seq![ControlOp::ClearValue],
        event: Some(EventView::ImeEnabled),
        repaint: true,
    }
}

/// The reaction to a change of the provisional text. An absent text and an
/// empty one are passed over.
pub open spec fn composition_update_reaction(data: Option<Seq<char>>) -> ReactionView {
    match data {
        Some(text) if text.len() > 0 => ReactionView {
            ops: Seq::empty(),
            event: Some(EventView::ImePreedit(text)),
            repaint: true,
        },
        _ => ReactionView::quiet(),
    }
}

/// The reaction to the end of a composition session. With a text the buffer
/// is emptied; the text is committed unless it is empty. Without one nothing
/// is done.
pub open spec fn composition_end_reaction(data: Option<Seq<char>>) -> ReactionView {
    match data {
        Some(text) => ReactionView {
            ops: seq![ControlOp::ClearValue],
            event: if text.len() > 0 {
                Some(EventView::ImeCommit(text))
            } else {
                None
            },
            repaint: text.len() > 0,
        },
        None => ReactionView::quiet(),
    }
}

/// The reaction to any notification.
pub open spec fn reaction_to(notification: NotificationView) -> ReactionView {
    match notification {
        NotificationView::Input { value, composing } => input_reaction(value, composing),
        NotificationView::CompositionStart => composition_start_reaction(),
        NotificationView::CompositionUpdate { data } => composition_update_reaction(data),
        NotificationView::CompositionEnd { data } => composition_end_reaction(data),
    }
}

fn quiet() -> (r: Reaction)
    ensures
        r@ == ReactionView::quiet(),
{
    Reaction { ops: Vec::new(), event: None, repaint: false }
}

/// Handles a change of the buffered text.
///
/// A text that is not empty, outside a composition, gives exactly the event
/// `Text` with that text, and leaves the buffer empty. During a composition
/// nothing is emitted and nothing is touched, whatever the buffer holds.
pub fn on_input(value: String, composing: bool) -> (r: Reaction)
    ensures
        r@ == input_reaction(value@, composing),
        !composing && value@.len() > 0 ==> {
            &&& r@.event == Some(EventView::Text(value@))
            &&& empties_value(r@.ops)
        },
        composing ==> r@.event is None && r@.ops.len() == 0 && !r@.repaint,
{
    if composing {
        return quiet();
    }
    let mut ops: Vec<ControlOp> = Vec::new();
    ops.push(ControlOp::Blur);
    ops.push(ControlOp::Focus);
    if value.as_str().is_empty() {
        assert(ops@ =~= seq![ControlOp::Blur, ControlOp::Focus]);
        return Reaction { ops, event: None, repaint: false };
    }
    ops.push(ControlOp::ClearValue);
    proof {
        assert(ops@ =~= seq![ControlOp::Blur, ControlOp::Focus, ControlOp::ClearValue]);
        clear_at_the_end_empties_value(ops@);
    }
    Reaction { ops, event: Some(Event::Text(value)), repaint: true }
}

/// Handles the start of a composition session. The buffer is empty
/// afterwards.
pub fn on_composition_start() -> (r: Reaction)
    ensures
        r@ == composition_start_reaction(),
        empties_value(r@.ops),
{
    let mut ops: Vec<ControlOp> = Vec::new();
    ops.push(ControlOp::ClearValue);
    proof {
        clear_at_the_end_empties_value(ops@);
    }
    Reaction { ops, event: Some(Event::ImeEnabled), repaint: true }
}

/// Handles a change of the provisional text.
pub fn on_composition_update(data: Option<String>) -> (r: Reaction)
    ensures
        r@ == composition_update_reaction(chars_of(data)),
{
    match data {
        Some(text) => {
            if text.as_str().is_empty() {
                quiet()
            } else {
                Reaction { ops: Vec::new(), event: Some(Event::ImePreedit(text)), repaint: true }
            }
        },
        None => quiet(),
    }
}

/// Handles the end of a composition session. Where it ended with a text,
/// the buffer is empty afterwards.
pub fn on_composition_end(data: Option<String>) -> (r: Reaction)
    ensures
        r@ == composition_end_reaction(chars_of(data)),
        data is Some ==> empties_value(r@.ops),
{
    match data {
        Some(text) => {
            let mut ops: Vec<ControlOp> = Vec::new();
            ops.push(ControlOp::ClearValue);
            proof {
                clear_at_the_end_empties_value(ops@);
            }
            if text.as_str().is_empty() {
                Reaction { ops, event: None, repaint: false }
            } else {
                Reaction { ops, event: Some(Event::ImeCommit(text)), repaint: true }
            }
        },
        None => quiet(),
    }
}

/// Decides what is to be done about a notification.
///
/// A repaint is asked for exactly when there is an event. Plain text comes
/// only of a change of the buffered text outside a composition: whatever
/// arrives during one is left to the composition's own notifications.
pub fn translate(notification: Notification) -> (r: Reaction)
    ensures
        r@ == reaction_to(notification@),
        r@.repaint == (r@.event is Some),
        r@.event matches Some(EventView::Text(text)) ==> notification@
            == (NotificationView::Input { value: text, composing: false }) && text.len() > 0,
{
    match notification {
        Notification::Input { value, composing } => on_input(value, composing),
        Notification::CompositionStart => on_composition_start(),
        Notification::CompositionUpdate { data } => on_composition_update(data),
        Notification::CompositionEnd { data } => on_composition_end(data),
    }
}

/// No reaction moves the proxy control: it stays in the document through
/// every notification.
pub proof fn reaction_keeps_place(notification: NotificationView)
    ensures
        keeps_place(reaction_to(notification).ops),
{
    run_without_insert_or_remove_keeps_place(reaction_to(notification).ops);
}

} // verus!
