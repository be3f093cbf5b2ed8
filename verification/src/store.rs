//! Finding rows by their identifier in tables held in memory.
//!
//! A table is a vector of rows. A lookup returns the first row with the
//! identifier, so a table in which an identifier occurs once behaves as a
//! keyed table.

use vstd::prelude::*;
use crate::models::{Booking, Event, Ticket, User};

verus! {

/// A failure to read from or write to the tables.
#[derive(Debug, Clone, PartialEq, Eq)]
pub struct StorageError {
    pub message: String,
}

/// The identifiers of the users, in table order.
pub open spec fn user_ids(users: Seq<User>) -> Seq<u128> {
    users.map_values(|u: User| u.user_id)
}

/// The addresses of the users, in table order.
pub open spec fn user_emails(users: Seq<User>) -> Seq<Seq<char>> {
    users.map_values(|u: User| u.email@)
}

/// The identifiers of the events, in table order.
pub open spec fn event_ids(events: Seq<Event>) -> Seq<u128> {
    events.map_values(|e: Event| e.event_id)
}

/// The identifiers of the tickets, in table order.
pub open spec fn ticket_ids(tickets: Seq<Ticket>) -> Seq<u128> {
    tickets.map_values(|t: Ticket| t.ticket_id)
}

/// The identifiers of the bookings, in table order.
pub open spec fn booking_ids(bookings: Seq<Booking>) -> Seq<u128> {
    bookings.map_values(|b: Booking| b.booking_id)
}

/// Whether `found` is the first place at which `id` stands in `ids`, or
/// `None` where it stands nowhere.
pub open spec fn is_first_place<A>(ids: Seq<A>, id: A, found: Option<usize>) -> bool {
    match found {
        Some(i) => {
            &&& i < ids.len()
            &&& ids[i as int] == id
            &&& forall|j: int| 0 <= j < i ==> ids[j] != id
        },
        None => !ids.contains(id),
    }
}

/// A place in a table as a mathematical index.
pub open spec fn place(found: Option<usize>) -> Option<int> {
    match found {
        Some(i) => Some(i as int),
        None => None,
    }
}

/// The first place of an identifier is the one that `Seq::index_of_first`
/// names.
pub proof fn lemma_first_place<A>(ids: Seq<A>, id: A, found: Option<usize>)
    requires
        is_first_place(ids, id, found),
    ensures
        ids.index_of_first(id) == place(found),
{
    ids.index_of_first_ensures(id);
    match found {
        Some(i) => {
            assert(ids.contains(id));
            let k = ids.index_of_first(id).unwrap();
            assert(!(k < i));
            assert(!(i < k));
        },
        None => {},
    }
}

/// Taking a row out of a table keeps its identifiers apart, and takes the
/// row's identifier out with it.
pub proof fn lemma_remove_keeps_apart<A>(ids: Seq<A>, i: int)
    requires
        0 <= i < ids.len(),
    ensures
        ids.no_duplicates() ==> ids.remove(i).no_duplicates() && !ids.remove(i).contains(ids[i]),
{
    if ids.no_duplicates() {
        let rest = ids.remove(i);
        assert forall|a: int, b: int| 0 <= a < rest.len() && 0 <= b < rest.len() && a != b implies rest[a] != rest[b] by {
            let a0 = if a < i { a } else { a + 1 };
            let b0 = if b < i { b } else { b + 1 };
            assert(rest[a] == ids[a0] && rest[b] == ids[b0]);
        }
        assert forall|a: int| 0 <= a < rest.len() implies rest[a] != ids[i] by {
            let a0 = if a < i { a } else { a + 1 };
            assert(rest[a] == ids[a0]);
        }
    }
}

/// The place of the user `id` in `users`.
pub fn find_user(users: &Vec<User>, id: u128) -> (found: Option<usize>)
    ensures
        is_first_place(user_ids(users@), id, found),
{
    let mut i: usize = 0;
    while i < users.len()
        invariant
            i <= users.len(),
            forall|j: int| 0 <= j < i ==> user_ids(users@)[j] != id,
        decreases users.len() - i,
    {
        if users[i].user_id == id {
            return Some(i);
        }
        i += 1;
    }
    None
}

/// The place of the user with the address `email` in `users`: the first
/// one, or `None` where no user has it.
pub fn find_user_by_email(users: &Vec<User>, email: &str) -> (found: Option<usize>)
    ensures
        is_first_place(user_emails(users@), email@, found),
{
    let mut i: usize = 0;
    while i < users.len()
        invariant
            i <= users.len(),
            forall|j: int| 0 <= j < i ==> user_emails(users@)[j] != email@,
        decreases users.len() - i,
    {
        if same_text(users[i].email.as_str(), email) {
            return Some(i);
        }
        i += 1;
    }
    None
}

/// Whether two strings hold the same characters.
pub fn same_text(a: &str, b: &str) -> (same: bool)
    ensures
        same == (a@ == b@),
{
    let n = a.unicode_len();
    if n != b.unicode_len() {
        return false;
    }
    let mut i: usize = 0;
    while i < n
        invariant
            i <= n,
            n == a@.len(),
            n == b@.len(),
            forall|j: int| 0 <= j < i ==> a@[j] == b@[j],
        decreases n - i,
    {
        if a.get_char(i) != b.get_char(i) {
            return false;
        }
        i += 1;
    }
    assert(a@ =~= b@);
    true
}

/// The place of the event `id` in `events`.
pub fn find_event(events: &Vec<Event>, id: u128) -> (found: Option<usize>)
    ensures
        is_first_place(event_ids(events@), id, found),
{
    let mut i: usize = 0;
    while i < events.len()
        invariant
            i <= events.len(),
            forall|j: int| 0 <= j < i ==> event_ids(events@)[j] != id,
        decreases events.len() - i,
    {
        if events[i].event_id == id {
            return Some(i);
        }
        i += 1;
    }
    None
}

/// The place of the ticket `id` in `tickets`.
pub fn find_ticket(tickets: &Vec<Ticket>, id: u128) -> (found: Option<usize>)
    ensures
        is_first_place(ticket_ids(tickets@), id, found),
{
    let mut i: usize = 0;
    while i < tickets.len()
        invariant
            i <= tickets.len(),
            forall|j: int| 0 <= j < i ==> ticket_ids(tickets@)[j] != id,
        decreases tickets.len() - i,
    {
        if tickets[i].ticket_id == id {
            return Some(i);
        }
        i += 1;
    }
    None
}

/// The place of the booking `id` in `bookings`.
pub fn find_booking(bookings: &Vec<Booking>, id: u128) -> (found: Option<usize>)
    ensures
        is_first_place(booking_ids(bookings@), id, found),
{
    let mut i: usize = 0;
    while i < bookings.len()
        invariant
            i <= bookings.len(),
            forall|j: int| 0 <= j < i ==> booking_ids(bookings@)[j] != id,
        decreases bookings.len() - i,
    {
        if bookings[i].booking_id == id {
            return Some(i);
        }
        i += 1;
    }
    None
}

} // verus!
