//! Rows of the four tables and the request bodies that create them.
//!
//! Identifiers are 128-bit values, timestamps are Unix seconds and calendar
//! dates are day numbers, so that the rules in the other modules can compare
//! and compute with them directly.

use vstd::prelude::*;
use crate::store::{booking_ids, event_ids, ticket_ids, user_emails, user_ids};

verus! {

/// The application's state: the four tables.
#[derive(Debug, Clone, PartialEq, Eq)]
pub struct AppState {
    pub users: Vec<User>,
    pub events: Vec<Event>,
    pub tickets: Vec<Ticket>,
    pub bookings: Vec<Booking>,
}

impl AppState {
    /// The state's invariant: within a table no identifier occurs twice,
    /// no two users share an address, no ticket has a negative unsold
    /// count, and every booking is for at least one unit.
    pub open spec fn wf(&self) -> bool {
        &&& user_ids(self.users@).no_duplicates()
        &&& user_emails(self.users@).no_duplicates()
        &&& event_ids(self.events@).no_duplicates()
        &&& ticket_ids(self.tickets@).no_duplicates()
        &&& booking_ids(self.bookings@).no_duplicates()
        &&& forall|i: int| 0 <= i < self.tickets.len() ==> (#[trigger] self.tickets[i]).wf()
        &&& forall|i: int| 0 <= i < self.bookings.len() ==> (#[trigger] self.bookings[i]).quantity > 0
    }

    /// A state with empty tables.
    pub fn new() -> (state: AppState)
        ensures
            state.wf(),
            state.users@.len() == 0,
            state.events@.len() == 0,
            state.tickets@.len() == 0,
            state.bookings@.len() == 0,
    {
        AppState { users: Vec::new(), events: Vec::new(), tickets: Vec::new(), bookings: Vec::new() }
    }
}

/// A registered account.
#[derive(Debug, Clone, PartialEq, Eq)]
pub struct User {
    pub user_id: u128,
    pub username: String,
    pub email: String,
    /// The stored password hash, never the password itself.
    pub password: String,
    pub first_name: Option<String>,
    pub last_name: Option<String>,
    pub phone_number: Option<String>,
    pub registration_date: Option<i64>,
}

/// An event that tickets are sold for.
#[derive(Debug, Clone, PartialEq, Eq)]
pub struct Event {
    pub event_id: u128,
    /// The user who created the event.
    pub user_id: Option<u128>,
    pub event_name: String,
    /// Day number of the event's calendar date.
    pub event_date: i32,
    pub event_location: Option<String>,
    pub event_description: Option<String>,
    /// `true` once the event is closed.
    pub event_status: bool,
}

/// One kind of ticket of an event, with its unsold count.
#[derive(Debug, Clone, PartialEq, Eq)]
pub struct Ticket {
    pub ticket_id: u128,
    pub event_id: Option<u128>,
    pub event_name: Option<String>,
    pub ticket_type: Option<String>,
    /// Unit price in minor currency units.
    pub price: i32,
    /// Units not yet sold.
    pub availability: i32,
}

/// A purchase of `quantity` units of one ticket.
#[derive(Debug, Clone, PartialEq, Eq)]
pub struct Booking {
    pub booking_id: u128,
    pub user_id: Option<u128>,
    pub event_id: Option<u128>,
    pub event_name: Option<String>,
    pub ticket_id: Option<u128>,
    pub quantity: i32,
    pub total_price: i64,
    pub booking_date: Option<i64>,
    /// `true` once the booking was redeemed at the entrance.
    pub verified: bool,
}

/// Body of a login request.
#[derive(Debug, Clone, PartialEq, Eq)]
pub struct Login {
    pub email: String,
    pub password: String,
}

/// Body of a request that creates an event; the date is still text.
#[derive(Debug, Clone, PartialEq, Eq)]
pub struct NewEvent {
    pub event_name: String,
    pub event_date: String,
    pub event_location: String,
    pub event_description: String,
}

/// An event together with the tickets sold for it.
#[derive(Debug, Clone, PartialEq, Eq)]
pub struct EventWithTickets {
    pub event: Event,
    pub tickets: Vec<Ticket>,
}

/// Body of a request that creates a ticket.
#[derive(Debug, Clone, PartialEq, Eq)]
pub struct NewTicket {
    /// The user the request claims to act for.
    pub user_id: u128,
    pub event_id: u128,
    pub email: String,
    pub event_name: String,
    pub ticket_type: String,
    pub price: i32,
    pub availability: i32,
}

/// Body of a booking request. Only `ticket_id` and `quantity` are trusted;
/// the buyer and the price come from the server's own records.
#[derive(Debug, Clone, PartialEq, Eq)]
pub struct NewBooking {
    pub user_id: u128,
    pub event_name: String,
    pub ticket_id: u128,
    pub quantity: i32,
    pub price: i32,
}

/// Body of a registration request.
#[derive(Debug, Clone, PartialEq, Eq)]
pub struct NewUser {
    pub username: String,
    pub email: String,
    pub password: String,
    pub first_name: String,
    pub last_name: String,
    pub phone_number: String,
}

/// A copy of an optional string.
pub fn copy_text(text: &Option<String>) -> (r: Option<String>)
    ensures
        r == *text,
{
    match text {
        Some(s) => Some(s.clone()),
        None => None,
    }
}

impl User {
    /// A copy of the record, field for field.
    pub fn copy(&self) -> (r: User)
        ensures
            r == *self,
    {
        User {
            user_id: self.user_id,
            username: self.username.clone(),
            email: self.email.clone(),
            password: self.password.clone(),
            first_name: copy_text(&self.first_name),
            last_name: copy_text(&self.last_name),
            phone_number: copy_text(&self.phone_number),
            registration_date: self.registration_date,
        }
    }
}

impl Ticket {
    /// The ticket's invariant: the unsold count is never negative.
    pub open spec fn wf(&self) -> bool {
        self.availability >= 0
    }

    /// A copy of the record, field for field.
    pub fn copy(&self) -> (r: Ticket)
        ensures
            r == *self,
    {
        Ticket {
            ticket_id: self.ticket_id,
            event_id: self.event_id,
            event_name: copy_text(&self.event_name),
            ticket_type: copy_text(&self.ticket_type),
            price: self.price,
            availability: self.availability,
        }
    }
}

impl Booking {
    /// A copy of the record, field for field.
    pub fn copy(&self) -> (r: Booking)
        ensures
            r == *self,
    {
        Booking {
            booking_id: self.booking_id,
            user_id: self.user_id,
            event_id: self.event_id,
            event_name: copy_text(&self.event_name),
            ticket_id: self.ticket_id,
            quantity: self.quantity,
            total_price: self.total_price,
            booking_date: self.booking_date,
            verified: self.verified,
        }
    }
}

} // verus!
