//! The events that the payload of a transport frame may write.

use vstd::prelude::*;
use crate::events::simple::{
    parse_v3, simple_request_json, simple_request_of, SimpleRequestView,
};
use crate::text::{chars_of, has_at, starts_with_at};
use crate::ua::UserAgentParser;

pub mod simple;

pub use simple::SimpleRequest;

verus! {

/// An event, by its kind.
#[derive(Debug, Clone, PartialEq, Eq)]
pub enum Event {
    SimpleRequest(SimpleRequest),
}

/// The mathematical value of [`Event`].
pub enum EventView {
    SimpleRequest(SimpleRequestView),
}

impl View for Event {
    type V = EventView;

    open spec fn view(&self) -> EventView {
        match self {
            Event::SimpleRequest(request) => EventView::SimpleRequest(request@),
        }
    }
}

/// The values of a list of events.
pub open spec fn event_views(events: Seq<Event>) -> Seq<EventView> {
    events.map_values(|e: Event| e@)
}

/// Why a payload gave no event.
#[derive(Debug, Clone, Copy, PartialEq, Eq, Structural)]
pub enum EventParseError {
    /// The user agent is one whose requests are not counted.
    IgnoredUserAgent,
    /// No rule answers the user agent.
    InvalidUserAgent,
    /// The payload is malformed.
    Error,
}

/// The kinds of event.
#[derive(Debug, Clone, Copy, PartialEq, Eq, Structural)]
pub enum EventKind {
    SimpleRequest,
}

/// The event that a payload writes: the version tag `3@`, then the event of
/// one kind. Nothing where the event is one to ignore.
pub open spec fn event_of(payload: Seq<char>) -> Result<Option<EventView>, EventParseError> {
    if has_at(payload, 0, "3@"@) && 2 <= payload.len() {
        match simple_request_of(payload.skip(2)) {
            Ok(Some(request)) => Ok(Some(EventView::SimpleRequest(request))),
            Ok(None) => Ok(None),
            Err(e) => Err(e),
        }
    } else {
        Err(EventParseError::Error)
    }
}

/// The event that a payload writes, with an event to ignore counted as an
/// error of its own.
pub open spec fn strict_event_of(payload: Seq<char>) -> Result<EventView, EventParseError> {
    match event_of(payload) {
        Ok(Some(event)) => Ok(event),
        Ok(None) => Err(EventParseError::IgnoredUserAgent),
        Err(e) => Err(e),
    }
}

/// The value of the result of reading an event.
pub open spec fn parsed_view(r: Result<Option<Event>, EventParseError>) -> Result<
    Option<EventView>,
    EventParseError,
> {
    match r {
        Ok(Some(event)) => Ok(Some(event@)),
        Ok(None) => Ok(None),
        Err(e) => Err(e),
    }
}

/// Reads the event that a payload writes.
///
/// `Ok(None)` is the answer for an event whose user agent is one that is
/// ignored; it is no error. `Err(InvalidUserAgent)` is the answer where no
/// rule answers the user agent, and `Err(Error)` where the payload is
/// malformed.
pub fn parse(parser: &UserAgentParser, payload: &str) -> (r: Result<
    Option<Event>,
    EventParseError,
>)
    ensures
        parsed_view(r) == event_of(payload@),
        !(r matches Err(EventParseError::IgnoredUserAgent)),
{
    let chars = chars_of(payload);
    if !starts_with_at(&chars, 0, "3@") || chars.len() < 2 {
        return Err(EventParseError::Error);
    }
    let rest = payload.substring_char(2, chars.len());
    assert(rest@ =~= payload@.skip(2));
    match parse_v3(parser, rest) {
        Ok(Some(request)) => Ok(Some(Event::SimpleRequest(request))),
        Ok(None) => Ok(None),
        Err(e) => Err(e),
    }
}

impl Event {
    /// The kind of this event.
    pub fn kind(&self) -> (k: EventKind)
        ensures
            k == self@.kind(),
    {
        match self {
            Event::SimpleRequest(_) => EventKind::SimpleRequest,
        }
    }

    /// This event written as JSON.
    pub fn to_json(&self) -> (r: Option<String>)
        ensures
            crate::text::text_of(r) == self@.json(),
    {
        match self {
            Event::SimpleRequest(request) => request.to_json(),
        }
    }

    /// Reads the event that a payload writes; an event to ignore is the
    /// error `IgnoredUserAgent`.
    pub fn from_str(parser: &UserAgentParser, s: &str) -> (r: Result<Event, EventParseError>)
        ensures
            match r {
                Ok(event) => strict_event_of(s@) == Ok::<EventView, EventParseError>(event@),
                Err(e) => strict_event_of(s@) == Err::<EventView, EventParseError>(e),
            },
    {
        match parse(parser, s) {
            Ok(Some(event)) => Ok(event),
            Ok(None) => Err(EventParseError::IgnoredUserAgent),
            Err(e) => Err(e),
        }
    }
}

impl EventView {
    /// This event written as JSON.
    pub open spec fn json(self) -> Option<Seq<char>> {
        match self {
            EventView::SimpleRequest(request) => simple_request_json(request),
        }
    }

    /// The kind of this event.
    pub open spec fn kind(self) -> EventKind {
        match self {
            EventView::SimpleRequest(_) => EventKind::SimpleRequest,
        }
    }
}

/// An event whose user agent is one to ignore is no event and no error;
/// one whose user agent no rule answers is an error, and no event.
pub proof fn lemma_ignored_is_no_error(payload: Seq<char>)
    requires
        has_at(payload, 0, "3@"@),
        2 <= payload.len(),
        crate::events::simple::simple_fields(payload.skip(2)) is Some,
    ensures
        crate::ua::classification(
            crate::events::simple::simple_fields(payload.skip(2))->0.user_agent,
        ) == crate::ua::OutcomeView::Ignored ==> event_of(payload) == Ok::<
            Option<EventView>,
            EventParseError,
        >(None),
        crate::ua::classification(
            crate::events::simple::simple_fields(payload.skip(2))->0.user_agent,
        ) == crate::ua::OutcomeView::Unrecognized ==> event_of(payload) == Err::<
            Option<EventView>,
            EventParseError,
        >(EventParseError::InvalidUserAgent),
{
}

/// Every event that a payload writes can be written as JSON.
pub proof fn lemma_event_has_json(payload: Seq<char>)
    ensures
        event_of(payload) matches Ok(Some(event)) ==> event.json() is Some,
{
    if event_of(payload) matches Ok(Some(event)) {
        let s = payload.skip(2);
        let fields = crate::events::simple::simple_fields(s)->0;
        assert(crate::events::simple::date_at(s, 7) is Some);
        let day_at = crate::text::blank_run(s, 11int);
        let month_pos = crate::text::blank_run(s, day_at + 2);
        let year_at = crate::text::blank_run(s, month_pos + 3);
        let time_at = crate::text::blank_run(s, year_at + 4);
        crate::timestamp::lemma_instant_is_well_formed(
            crate::text::fixed_number(s, year_at, 4)->0 as int,
            crate::events::simple::month_at(s, month_pos)->0 as int,
            crate::text::fixed_number(s, day_at, 2)->0 as int,
            crate::text::fixed_number(s, time_at, 2)->0 as int,
            crate::text::fixed_number(s, time_at + 3, 2)->0 as int,
            crate::text::fixed_number(s, time_at + 6, 2)->0 as int,
        );
        assert(fields.timestamp.wf());
    }
}

} // verus!
