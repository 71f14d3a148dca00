//! What comes in from the platform, and what goes out to the application.

use vstd::prelude::*;

verus! {

/// An event for the application's input queue.
#[derive(Clone, Debug, PartialEq, Eq)]
pub enum Event {
    /// Text that was typed or pasted: committed as it stands.
    Text(String),
    /// A composition session has begun.
    ImeEnabled,
    /// The provisional text of the composition in progress.
    ImePreedit(String),
    /// The text with which a composition session ended.
    ImeCommit(String),
}

/// An `Event` with its texts as sequences of characters.
pub enum EventView {
    Text(Seq<char>),
    ImeEnabled,
    ImePreedit(Seq<char>),
    ImeCommit(Seq<char>),
}

impl View for Event {
    type V = EventView;

    open spec fn view(&self) -> EventView {
        match self {
            Event::Text(text) => EventView::Text(text@),
            Event::ImeEnabled => EventView::ImeEnabled,
            Event::ImePreedit(text) => EventView::ImePreedit(text@),
            Event::ImeCommit(text) => EventView::ImeCommit(text@),
        }
    }
}

/// A notification that the platform delivered to the proxy control.
#[derive(Clone, Debug, PartialEq, Eq)]
pub enum Notification {
    /// The buffered text changed. `value` is the whole buffered text,
    /// `composing` the platform's word on whether a composition is going on.
    Input { value: String, composing: bool },
    /// A composition session begins.
    CompositionStart,
    /// The provisional text of the session changed.
    CompositionUpdate { data: Option<String> },
    /// The session ended.
    CompositionEnd { data: Option<String> },
}

/// A `Notification` with its texts as sequences of characters.
pub enum NotificationView {
    Input { value: Seq<char>, composing: bool },
    CompositionStart,
    CompositionUpdate { data: Option<Seq<char>> },
    CompositionEnd { data: Option<Seq<char>> },
}

/// The characters of a text that may be absent.
pub open spec fn chars_of(data: Option<String>) -> Option<Seq<char>> {
    match data {
        Some(text) => Some(text@),
        None => None,
    }
}

/// The view of an event that may be absent.
pub open spec fn event_view(event: Option<Event>) -> Option<EventView> {
    match event {
        Some(e) => Some(e@),
        None => None,
    }
}

impl View for Notification {
    type V = NotificationView;

    open spec fn view(&self) -> NotificationView {
        match self {
            Notification::Input { value, composing } => NotificationView::Input {
                value: value@,
                composing: *composing,
            },
            Notification::CompositionStart => NotificationView::CompositionStart,
            Notification::CompositionUpdate { data } => NotificationView::CompositionUpdate {
                data: chars_of(*data),
            },
            Notification::CompositionEnd { data } => NotificationView::CompositionEnd {
                data: chars_of(*data),
            },
        }
    }
}

} // verus!
