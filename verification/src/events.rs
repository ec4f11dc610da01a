//! The events that a generation run delivers to its listener.

use vstd::prelude::*;

verus! {

/// One event of a run's stream: a generated fragment, or the sentinel that
/// marks the run's normal completion.
#[derive(Debug, PartialEq, Eq)]
pub enum TokenEvent {
    /// One generated fragment of text.
    Token(String),
    /// The run completed normally; nothing follows.
    End,
}

/// What a [`TokenEvent`] is, with its text as a sequence of characters.
pub enum EventView {
    Token(Seq<char>),
    End,
}

impl View for TokenEvent {
    type V = EventView;

    open spec fn view(&self) -> EventView {
        match self {
            TokenEvent::Token(text) => EventView::Token(text@),
            TokenEvent::End => EventView::End,
        }
    }
}

/// The payload that carries an event to the listener: the text of a fragment,
/// or nothing for the sentinel.
pub open spec fn payload_of(event: EventView) -> Option<Seq<char>> {
    match event {
        EventView::Token(text) => Some(text),
        EventView::End => None,
    }
}

/// The event that a payload stands for.
pub open spec fn event_of(payload: Option<Seq<char>>) -> EventView {
    match payload {
        Some(text) => EventView::Token(text),
        None => EventView::End,
    }
}

/// A payload as it is held in memory, with its text as a sequence of
/// characters.
pub open spec fn payload_view(payload: Option<String>) -> Option<Seq<char>> {
    match payload {
        Some(text) => Some(text@),
        None => None,
    }
}

/// The views of a sequence of events, one for one.
pub open spec fn views_of(events: Seq<TokenEvent>) -> Seq<EventView> {
    events.map_values(|event: TokenEvent| event@)
}

/// The fragments of text as `Token` events, one for one and in order.
pub open spec fn tokens_as_events(texts: Seq<Seq<char>>) -> Seq<EventView> {
    texts.map_values(|text: Seq<char>| EventView::Token(text))
}

impl Clone for TokenEvent {
    fn clone(&self) -> (copy: TokenEvent)
        ensures
            copy@ == self@,
    {
        match self {
            TokenEvent::Token(text) => TokenEvent::Token(text.clone()),
            TokenEvent::End => TokenEvent::End,
        }
    }
}

impl TokenEvent {
    /// Whether this event is the sentinel.
    pub fn is_end(&self) -> (end: bool)
        ensures
            end == (self@ is End),
    {
        match self {
            TokenEvent::Token(_) => false,
            TokenEvent::End => true,
        }
    }

    /// The payload under which this event travels to the listener.
    pub fn payload(&self) -> (payload: Option<String>)
        ensures
            payload_view(payload) == payload_of(self@),
    {
        match self {
            TokenEvent::Token(text) => Some(text.clone()),
            TokenEvent::End => None,
        }
    }

    /// The event that arrived under a payload.
    pub fn from_payload(payload: Option<String>) -> (event: TokenEvent)
        ensures
            event@ == event_of(payload_view(payload)),
    {
        match payload {
            Some(text) => TokenEvent::Token(text),
            None => TokenEvent::End,
        }
    }
}

/// A payload names its event and an event its payload: the two conversions
/// are inverse to each other.
pub proof fn law_payload_round_trip(event: EventView, payload: Option<Seq<char>>)
    ensures
        event_of(payload_of(event)) == event,
        payload_of(event_of(payload)) == payload,
{
}

} // verus!
