//! Events: creating, listing and deleting them, and closing those whose
//! day has come.
//!
//! An event's date arrives as text in the form `YYYY-MM-DD`; the `chrono`
//! crate reads it. Dates are kept as day numbers, so that a date and the
//! current day compare as integers.

use vstd::prelude::*;
use crate::jwt_auth::JwtMiddleware;
use crate::models::{copy_text, AppState, Event, EventWithTickets, NewEvent};
use crate::store::{event_ids, find_event, lemma_first_place, lemma_remove_keeps_apart};
use crate::ticket_handlers::{get_ticket, tickets_of};

verus! {

/// Why no event was created.
#[derive(Debug, Clone, Copy, PartialEq, Eq, Structural)]
pub enum EventError {
    /// The date is not a calendar date in the form `YYYY-MM-DD`.
    InvalidDate,
    /// The identifier is taken.
    Storage,
}

impl EventError {
    /// The HTTP status of the refusal: 400 for a bad date, 500 for a
    /// storage failure.
    pub fn status_code(&self) -> (code: u16)
        ensures
            code == match *self {
                EventError::InvalidDate => 400u16,
                EventError::Storage => 500u16,
            },
    {
        match self {
            EventError::InvalidDate => 400,
            EventError::Storage => 500,
        }
    }
}

/// The day number of the calendar date that `text` spells in the form
/// `YYYY-MM-DD`, counted as `chrono` counts days of the common era; `None`
/// where `chrono` does not read a date from it.
pub uninterp spec fn event_date_parsed(text: Seq<char>) -> Option<i32>;

/// Calls `NaiveDate::parse_from_str` with the format `%Y-%m-%d` and takes
/// the date's `num_days_from_ce`. The contract names the result.
#[verifier::external_body]
fn parse_event_date(text: &str) -> (day: Option<i32>)
    ensures
        day == event_date_parsed(text@),
{
    match chrono::NaiveDate::parse_from_str(text, "%Y-%m-%d") {
        Ok(date) => Some(chrono::Datelike::num_days_from_ce(&date)),
        Err(_) => None,
    }
}

/// Calls `chrono::Utc::now` and returns the day number of its date.
/// Nothing is claimed of the value.
#[verifier::external_body]
fn current_day() -> i32 {
    chrono::Datelike::num_days_from_ce(&chrono::Utc::now().date_naive())
}

impl Event {
    /// A copy of the record, field for field.
    pub fn copy(&self) -> (r: Event)
        ensures
            r == *self,
    {
        Event {
            event_id: self.event_id,
            user_id: self.user_id,
            event_name: self.event_name.clone(),
            event_date: self.event_date,
            event_location: copy_text(&self.event_location),
            event_description: copy_text(&self.event_description),
            event_status: self.event_status,
        }
    }
}

/// The event that `user_id` creates from `event` on the day `day`: open,
/// and owned by its creator.
pub open spec fn created(event: NewEvent, event_id: u128, user_id: u128, day: i32) -> Event {
    Event {
        event_id,
        user_id: Some(user_id),
        event_name: event.event_name,
        event_date: day,
        event_location: Some(event.event_location),
        event_description: Some(event.event_description),
        event_status: false,
    }
}

/// Creates an event for the guarded user once its date was read: `day` is
/// the date's day number, or `None` where the text was no date.
pub fn create_event_on(
    state: &mut AppState,
    jwt_guard: &JwtMiddleware,
    event_data: &NewEvent,
    event_id: u128,
    day: Option<i32>,
) -> (r: Result<Event, EventError>)
    ensures
        match day {
            None => r == Err::<Event, EventError>(EventError::InvalidDate) && *final(state)
                == *old(state),
            Some(d) => if event_ids(old(state).events@).contains(event_id) {
                r == Err::<Event, EventError>(EventError::Storage) && *final(state) == *old(state)
            } else {
                &&& r == Ok::<Event, EventError>(
                    created(*event_data, event_id, jwt_guard.user.user_id, d),
                )
                &&& final(state).events@ == old(state).events@.push(r->Ok_0)
                &&& final(state).users == old(state).users
                &&& final(state).tickets == old(state).tickets
                &&& final(state).bookings == old(state).bookings
            },
        },
        old(state).wf() ==> final(state).wf(),
{
    let day = match day {
        Some(day) => day,
        None => {
            return Err(EventError::InvalidDate);
        },
    };
    if find_event(&state.events, event_id).is_some() {
        assert(event_ids(state.events@).contains(event_id));
        return Err(EventError::Storage);
    }
    let event = Event {
        event_id,
        user_id: Some(jwt_guard.user.user_id),
        event_name: event_data.event_name.clone(),
        event_date: day,
        event_location: Some(event_data.event_location.clone()),
        event_description: Some(event_data.event_description.clone()),
        event_status: false,
    };
    let kept = event.copy();
    state.events.push(event);
    assert(event_ids(state.events@) =~= event_ids(old(state).events@).push(event_id));
    Ok(kept)
}

/// Creates an event for the guarded user under the identifier `event_id`.
/// The date must be a calendar date in the form `YYYY-MM-DD`.
pub fn create_event(
    state: &mut AppState,
    jwt_guard: &JwtMiddleware,
    event_data: &NewEvent,
    event_id: u128,
) -> (r: Result<Event, EventError>)
    ensures
        match event_date_parsed(event_data.event_date@) {
            None => r == Err::<Event, EventError>(EventError::InvalidDate) && *final(state)
                == *old(state),
            Some(d) => if event_ids(old(state).events@).contains(event_id) {
                r == Err::<Event, EventError>(EventError::Storage) && *final(state) == *old(state)
            } else {
                &&& r == Ok::<Event, EventError>(
                    created(*event_data, event_id, jwt_guard.user.user_id, d),
                )
                &&& final(state).events@ == old(state).events@.push(r->Ok_0)
                &&& final(state).users == old(state).users
                &&& final(state).tickets == old(state).tickets
                &&& final(state).bookings == old(state).bookings
            },
        },
        old(state).wf() ==> final(state).wf(),
{
    let day = parse_event_date(event_data.event_date.as_str());
    create_event_on(state, jwt_guard, event_data, event_id, day)
}

/// The event `event_id` with the tickets sold for it, if there is such an
/// event.
pub fn get_event(state: &AppState, event_id: u128) -> (r: Option<EventWithTickets>)
    ensures
        match event_ids(state.events@).index_of_first(event_id) {
            None => r is None,
            Some(i) => r matches Some(found) && found.event == state.events[i] && found.tickets@
                == tickets_of(state.tickets@, event_id),
        },
{
    let found = find_event(&state.events, event_id);
    proof {
        lemma_first_place(event_ids(state.events@), event_id, found);
    }
    match found {
        None => None,
        Some(i) => Some(
            EventWithTickets { event: state.events[i].copy(), tickets: get_ticket(state, event_id) },
        ),
    }
}

/// All events, each with the tickets sold for it.
pub fn get_events_with_tickets(state: &AppState) -> (found: Vec<EventWithTickets>)
    ensures
        found@.len() == state.events@.len(),
        forall|i: int|
            0 <= i < found@.len() ==> (#[trigger] found@[i]).event == state.events@[i]
                && found@[i].tickets@ == tickets_of(state.tickets@, state.events@[i].event_id),
{
    let mut found: Vec<EventWithTickets> = Vec::new();
    let mut i: usize = 0;
    while i < state.events.len()
        invariant
            i <= state.events.len(),
            found@.len() == i,
            forall|j: int|
                0 <= j < i ==> (#[trigger] found@[j]).event == state.events@[j]
                    && found@[j].tickets@ == tickets_of(
                    state.tickets@,
                    state.events@[j].event_id,
                ),
        decreases state.events.len() - i,
    {
        let event = state.events[i].copy();
        let tickets = get_ticket(state, event.event_id);
        found.push(EventWithTickets { event, tickets });
        i += 1;
    }
    found
}

/// All events, in table order.
pub fn get_events(state: &AppState) -> (events: Vec<Event>)
    ensures
        events@ == state.events@,
{
    let mut events: Vec<Event> = Vec::new();
    let mut i: usize = 0;
    while i < state.events.len()
        invariant
            i <= state.events.len(),
            events@ == state.events@.take(i as int),
        decreases state.events.len() - i,
    {
        events.push(state.events[i].copy());
        assert(events@ =~= state.events@.take(i + 1));
        i += 1;
    }
    assert(state.events@.take(i as int) =~= state.events@);
    events
}

/// The events of `events` that `user_id` created, in table order.
pub open spec fn events_of(events: Seq<Event>, user_id: u128) -> Seq<Event> {
    events.filter(|e: Event| e.user_id == Some(user_id))
}

/// The events that the guarded user created.
pub fn get_event_by_user(state: &AppState, jwt_guard: &JwtMiddleware) -> (events: Vec<Event>)
    ensures
        events@ == events_of(state.events@, jwt_guard.user.user_id),
{
    let user_id = jwt_guard.user.user_id;
    let mut events: Vec<Event> = Vec::new();
    let mut i: usize = 0;
    proof {
        reveal(Seq::filter);
    }
    while i < state.events.len()
        invariant
            i <= state.events.len(),
            events@ == events_of(state.events@.take(i as int), user_id),
        decreases state.events.len() - i,
    {
        proof {
            reveal(Seq::filter);
            assert(state.events@.take(i + 1).drop_last() =~= state.events@.take(i as int));
        }
        let owned = match state.events[i].user_id {
            Some(owner) => owner == user_id,
            None => false,
        };
        if owned {
            events.push(state.events[i].copy());
        }
        i += 1;
    }
    assert(state.events@.take(i as int) =~= state.events@);
    events
}

/// Deletes the event `event_id`: the first row with the identifier leaves
/// the events, and nothing else changes.
pub fn delete_event(state: &mut AppState, event_id: u128)
    ensures
        match event_ids(old(state).events@).index_of_first(event_id) {
            None => *final(state) == *old(state),
            Some(i) => {
                &&& final(state).events@ == old(state).events@.remove(i)
                &&& final(state).users == old(state).users
                &&& final(state).tickets == old(state).tickets
                &&& final(state).bookings == old(state).bookings
            },
        },
        old(state).wf() ==> final(state).wf() && !event_ids(final(state).events@).contains(
            event_id,
        ),
{
    let found = find_event(&state.events, event_id);
    proof {
        lemma_first_place(event_ids(state.events@), event_id, found);
    }
    if let Some(i) = found {
        state.events.remove(i);
        proof {
            lemma_remove_keeps_apart(event_ids(old(state).events@), i as int);
            assert(event_ids(state.events@) =~= event_ids(old(state).events@).remove(i as int));
        }
    }
}

/// The event after the sweep of the day `today`: closed if its date is
/// that day or earlier, and otherwise as it was. A closed event stays
/// closed.
pub open spec fn swept(event: Event, today: i32) -> Event {
    Event { event_status: event.event_status || event.event_date <= today, ..event }
}

/// The events after the sweep of the day `today`.
pub open spec fn swept_all(events: Seq<Event>, today: i32) -> Seq<Event> {
    events.map_values(|e: Event| swept(e, today))
}

/// Closes every event whose date is `today` or earlier. No event is
/// reopened and nothing else changes.
pub fn close_past_events(state: &mut AppState, today: i32)
    ensures
        final(state).events@ == swept_all(old(state).events@, today),
        final(state).users == old(state).users,
        final(state).tickets == old(state).tickets,
        final(state).bookings == old(state).bookings,
        old(state).wf() ==> final(state).wf(),
{
    let mut i: usize = 0;
    while i < state.events.len()
        invariant
            i <= state.events.len(),
            state.events.len() == old(state).events.len(),
            forall|j: int| 0 <= j < i ==> state.events[j] == swept(old(state).events[j], today),
            forall|j: int| i <= j < state.events.len() ==> state.events[j] == old(state).events[j],
            state.users == old(state).users,
            state.tickets == old(state).tickets,
            state.bookings == old(state).bookings,
        decreases state.events.len() - i,
    {
        let mut event = state.events[i].copy();
        if event.event_date <= today {
            event.event_status = true;
        }
        state.events.set(i, event);
        i += 1;
    }
    assert(state.events@ =~= swept_all(old(state).events@, today));
    assert(event_ids(state.events@) =~= event_ids(old(state).events@));
}

/// Closes every event whose date is the system clock's day or earlier:
/// the sweep of some day.
pub fn check_and_update_events(state: &mut AppState)
    ensures
        exists|today: i32| final(state).events@ == #[trigger] swept_all(old(state).events@, today),
        final(state).users == old(state).users,
        final(state).tickets == old(state).tickets,
        final(state).bookings == old(state).bookings,
        old(state).wf() ==> final(state).wf(),
{
    let today = current_day();
    close_past_events(state, today);
}

} // verus!
