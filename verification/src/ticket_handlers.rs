//! Tickets: creating, listing and deleting them.

use vstd::prelude::*;
use crate::jwt_auth::JwtMiddleware;
use crate::models::{AppState, NewTicket, Ticket};
use crate::store::{find_ticket, lemma_first_place, lemma_remove_keeps_apart, ticket_ids};

verus! {

/// Why no ticket was created.
#[derive(Debug, Clone, Copy, PartialEq, Eq, Structural)]
pub enum TicketError {
    /// The request names another user than the guarded one.
    Unauthorized,
    /// The unsold count is negative.
    InvalidAvailability,
    /// The identifier is taken.
    Storage,
}

impl TicketError {
    /// The HTTP status of the refusal: 203 where the request acts for
    /// another user, 400 for a negative count, 500 for a storage failure.
    pub fn status_code(&self) -> (code: u16)
        ensures
            code == match *self {
                TicketError::Unauthorized => 203u16,
                TicketError::InvalidAvailability => 400u16,
                TicketError::Storage => 500u16,
            },
    {
        match self {
            TicketError::Unauthorized => 203,
            TicketError::InvalidAvailability => 400,
            TicketError::Storage => 500,
        }
    }
}

/// The ticket that the request `ticket` creates.
pub open spec fn issued(ticket: NewTicket, ticket_id: u128) -> Ticket {
    Ticket {
        ticket_id,
        event_id: Some(ticket.event_id),
        event_name: Some(ticket.event_name),
        ticket_type: Some(ticket.ticket_type),
        price: ticket.price,
        availability: ticket.availability,
    }
}

/// What a request to create a ticket comes to among `tickets` for the
/// guarded user `user_id`.
pub open spec fn ticket_decision(
    tickets: Seq<Ticket>,
    user_id: u128,
    ticket: NewTicket,
    ticket_id: u128,
) -> Result<(), TicketError> {
    if user_id != ticket.user_id {
        Err(TicketError::Unauthorized)
    } else if ticket.availability < 0 {
        Err(TicketError::InvalidAvailability)
    } else if ticket_ids(tickets).contains(ticket_id) {
        Err(TicketError::Storage)
    } else {
        Ok(())
    }
}

/// Creates a ticket under the identifier `ticket_id`.
///
/// The request must name the guarded user as the one it acts for, and its
/// unsold count must not be negative. On success the ticket stands at the
/// end of the tickets; on any refusal the state is what it was.
pub fn generate_ticket(
    state: &mut AppState,
    jwt_guard: &JwtMiddleware,
    ticket_data: &NewTicket,
    ticket_id: u128,
) -> (r: Result<Ticket, TicketError>)
    ensures
        match ticket_decision(
            old(state).tickets@,
            jwt_guard.user.user_id,
            *ticket_data,
            ticket_id,
        ) {
            Err(e) => r == Err::<Ticket, TicketError>(e) && *final(state) == *old(state),
            Ok(()) => {
                &&& r == Ok::<Ticket, TicketError>(issued(*ticket_data, ticket_id))
                &&& final(state).tickets@ == old(state).tickets@.push(r->Ok_0)
                &&& final(state).users == old(state).users
                &&& final(state).events == old(state).events
                &&& final(state).bookings == old(state).bookings
            },
        },
        old(state).wf() ==> final(state).wf(),
{
    if jwt_guard.user.user_id != ticket_data.user_id {
        return Err(TicketError::Unauthorized);
    }
    if ticket_data.availability < 0 {
        return Err(TicketError::InvalidAvailability);
    }
    if find_ticket(&state.tickets, ticket_id).is_some() {
        assert(ticket_ids(state.tickets@).contains(ticket_id));
        return Err(TicketError::Storage);
    }
    let ticket = Ticket {
        ticket_id,
        event_id: Some(ticket_data.event_id),
        event_name: Some(ticket_data.event_name.clone()),
        ticket_type: Some(ticket_data.ticket_type.clone()),
        price: ticket_data.price,
        availability: ticket_data.availability,
    };
    let kept = ticket.copy();
    state.tickets.push(ticket);
    assert(ticket_ids(state.tickets@) =~= ticket_ids(old(state).tickets@).push(ticket_id));
    Ok(kept)
}

/// The tickets of `tickets` that are sold for the event `event_id`, in
/// table order.
pub open spec fn tickets_of(tickets: Seq<Ticket>, event_id: u128) -> Seq<Ticket> {
    tickets.filter(|t: Ticket| t.event_id == Some(event_id))
}

/// The tickets that are sold for the event `event_id`.
pub fn get_ticket(state: &AppState, event_id: u128) -> (tickets: Vec<Ticket>)
    ensures
        tickets@ == tickets_of(state.tickets@, event_id),
{
    let mut tickets: Vec<Ticket> = Vec::new();
    let mut i: usize = 0;
    proof {
        reveal(Seq::filter);
    }
    while i < state.tickets.len()
        invariant
            i <= state.tickets.len(),
            tickets@ == tickets_of(state.tickets@.take(i as int), event_id),
        decreases state.tickets.len() - i,
    {
        proof {
            reveal(Seq::filter);
            assert(state.tickets@.take(i + 1).drop_last() =~= state.tickets@.take(i as int));
        }
        let sold_for = match state.tickets[i].event_id {
            Some(event) => event == event_id,
            None => false,
        };
        if sold_for {
            tickets.push(state.tickets[i].copy());
        }
        i += 1;
    }
    assert(state.tickets@.take(i as int) =~= state.tickets@);
    tickets
}

/// Deletes the ticket `ticket_id`: the first row with the identifier
/// leaves the tickets, and nothing else changes.
pub fn delete_ticket(state: &mut AppState, ticket_id: u128)
    ensures
        match ticket_ids(old(state).tickets@).index_of_first(ticket_id) {
            None => *final(state) == *old(state),
            Some(i) => {
                &&& final(state).tickets@ == old(state).tickets@.remove(i)
                &&& final(state).users == old(state).users
                &&& final(state).events == old(state).events
                &&& final(state).bookings == old(state).bookings
            },
        },
        old(state).wf() ==> final(state).wf() && !ticket_ids(final(state).tickets@).contains(
            ticket_id,
        ),
{
    let found = find_ticket(&state.tickets, ticket_id);
    proof {
        lemma_first_place(ticket_ids(state.tickets@), ticket_id, found);
    }
    if let Some(i) = found {
        state.tickets.remove(i);
        proof {
            lemma_remove_keeps_apart(ticket_ids(old(state).tickets@), i as int);
            assert(ticket_ids(state.tickets@) =~= ticket_ids(old(state).tickets@).remove(i as int));
        }
    }
}

} // verus!
