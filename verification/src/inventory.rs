//! The inventory ledger: the one place where a ticket's unsold count
//! changes.
//!
//! A reservation takes `quantity` units from a ticket if that many are
//! left, and leaves the ticket alone if not. Nothing is ever granted in
//! part. The laws at the end say what this gives for any run of attempts on
//! one ticket, in whatever order they are served.

use vstd::prelude::*;
use crate::models::{AppState, Ticket};
use crate::store::{find_ticket, lemma_first_place, ticket_ids};

verus! {

/// Why a reservation was turned down.
#[derive(Debug, Clone, Copy, PartialEq, Eq, Structural)]
pub enum InventoryError {
    /// Fewer units are left than were asked for.
    InsufficientAvailability,
    /// There is no such ticket.
    TicketNotFound,
}

/// Whether an attempt for `quantity` units is granted when `availability`
/// units are left.
pub open spec fn granted(availability: int, quantity: int) -> bool {
    quantity <= availability
}

/// The units left after an attempt for `quantity` units.
pub open spec fn after_attempt(availability: int, quantity: int) -> int {
    if granted(availability, quantity) {
        availability - quantity
    } else {
        availability
    }
}

/// The ticket after `quantity` of its units were sold.
pub open spec fn sold_from(ticket: Ticket, quantity: i32) -> Ticket {
    Ticket { availability: (ticket.availability - quantity) as i32, ..ticket }
}

/// Takes `quantity` units from `ticket` if that many are left.
///
/// The attempt is granted exactly when `quantity` does not exceed the
/// unsold count; the count then drops by `quantity`. Otherwise the ticket
/// stays as it was. A count that was not negative stays so.
pub fn reserve_units(ticket: &mut Ticket, quantity: i32) -> (r: Result<(), InventoryError>)
    requires
        quantity > 0,
    ensures
        r is Ok <==> granted(old(ticket).availability as int, quantity as int),
        r is Ok ==> *final(ticket) == sold_from(*old(ticket), quantity),
        r is Err ==> r == Err::<(), InventoryError>(InventoryError::InsufficientAvailability)
            && *final(ticket) == *old(ticket),
        final(ticket).availability == after_attempt(
            old(ticket).availability as int,
            quantity as int,
        ),
        old(ticket).wf() ==> final(ticket).wf(),
{
    if ticket.availability >= quantity {
        ticket.availability = ticket.availability - quantity;
        Ok(())
    } else {
        Err(InventoryError::InsufficientAvailability)
    }
}

/// What a reservation of `quantity` units of the ticket `ticket_id` comes to
/// among `tickets`: the place of the ticket that the units are taken from,
/// or the reason for taking none.
pub open spec fn reservation(tickets: Seq<Ticket>, ticket_id: u128, quantity: i32) -> Result<
    int,
    InventoryError,
> {
    match ticket_ids(tickets).index_of_first(ticket_id) {
        None => Err(InventoryError::TicketNotFound),
        Some(i) => if granted(tickets[i].availability as int, quantity as int) {
            Ok(i)
        } else {
            Err(InventoryError::InsufficientAvailability)
        },
    }
}

/// Reserves `quantity` units of the ticket `ticket_id` in one step: the
/// count is read, compared and lowered with nothing in between.
///
/// On success the ticket's row holds the lowered count when the call
/// returns, and the row is handed back; no other row changes. On a refusal
/// the state is what it was.
pub fn reserve(state: &mut AppState, ticket_id: u128, quantity: i32) -> (r: Result<
    Ticket,
    InventoryError,
>)
    requires
        quantity > 0,
    ensures
        match reservation(old(state).tickets@, ticket_id, quantity) {
            Err(e) => r == Err::<Ticket, InventoryError>(e) && *final(state) == *old(state),
            Ok(i) => {
                &&& r == Ok::<Ticket, InventoryError>(sold_from(old(state).tickets[i], quantity))
                &&& final(state).tickets@ == old(state).tickets@.update(i, r->Ok_0)
                &&& final(state).users == old(state).users
                &&& final(state).events == old(state).events
                &&& final(state).bookings == old(state).bookings
            },
        },
        old(state).wf() ==> final(state).wf(),
{
    let found = find_ticket(&state.tickets, ticket_id);
    proof {
        lemma_first_place(ticket_ids(state.tickets@), ticket_id, found);
    }
    let i = match found {
        Some(i) => i,
        None => {
            return Err(InventoryError::TicketNotFound);
        },
    };
    let mut ticket = state.tickets[i].copy();
    match reserve_units(&mut ticket, quantity) {
        Ok(()) => {
            let kept = ticket.copy();
            state.tickets.set(i, ticket);
            assert(ticket_ids(state.tickets@) =~= ticket_ids(old(state).tickets@));
            Ok(kept)
        },
        Err(e) => Err(e),
    }
}

/// The units left of `availability` after the attempts `quantities` were
/// served one after the other.
pub open spec fn remaining(availability: int, quantities: Seq<int>) -> int
    decreases quantities.len(),
{
    if quantities.len() == 0 {
        availability
    } else {
        after_attempt(remaining(availability, quantities.drop_last()), quantities.last())
    }
}

/// Whether the attempt at place `i` of `quantities` is granted.
pub open spec fn granted_at(availability: int, quantities: Seq<int>, i: int) -> bool {
    granted(remaining(availability, quantities.take(i)), quantities[i])
}

/// The units that the granted attempts among `quantities` took together.
pub open spec fn units_sold(availability: int, quantities: Seq<int>) -> int
    decreases quantities.len(),
{
    if quantities.len() == 0 {
        0
    } else {
        units_sold(availability, quantities.drop_last()) + if granted(
            remaining(availability, quantities.drop_last()),
            quantities.last(),
        ) {
            quantities.last()
        } else {
            0
        }
    }
}

/// How many of the attempts `quantities` are granted.
pub open spec fn attempts_granted(availability: int, quantities: Seq<int>) -> nat
    decreases quantities.len(),
{
    if quantities.len() == 0 {
        0
    } else {
        attempts_granted(availability, quantities.drop_last()) + if granted(
            remaining(availability, quantities.drop_last()),
            quantities.last(),
        ) {
            1nat
        } else {
            0nat
        }
    }
}

/// The sum of `quantities`.
pub open spec fn total(quantities: Seq<int>) -> int
    decreases quantities.len(),
{
    if quantities.len() == 0 {
        0
    } else {
        total(quantities.drop_last()) + quantities.last()
    }
}

/// Whether every attempt asks for at least one unit.
pub open spec fn all_positive(quantities: Seq<int>) -> bool {
    forall|i: int| 0 <= i < quantities.len() ==> quantities[i] > 0
}

/// Whatever attempts are served and in whatever order, the unsold count
/// never goes below zero, and the units that the granted attempts took are
/// exactly the units that are gone: they never exceed what was there at the
/// start.
pub proof fn lemma_inventory_is_conserved(availability: int, quantities: Seq<int>)
    requires
        availability >= 0,
        all_positive(quantities),
    ensures
        0 <= remaining(availability, quantities) <= availability,
        units_sold(availability, quantities) + remaining(availability, quantities) == availability,
        0 <= units_sold(availability, quantities) <= availability,
    decreases quantities.len(),
{
    if quantities.len() > 0 {
        lemma_inventory_is_conserved(availability, quantities.drop_last());
    }
}

/// The unsold count only ever drops: after more attempts no more is left
/// than after fewer.
pub proof fn lemma_remaining_drops(availability: int, quantities: Seq<int>, i: int)
    requires
        all_positive(quantities),
        0 <= i <= quantities.len(),
    ensures
        remaining(availability, quantities) <= remaining(availability, quantities.take(i)),
    decreases quantities.len() - i,
{
    if i == quantities.len() {
        assert(quantities.take(i) =~= quantities);
    } else {
        lemma_remaining_drops(availability, quantities, i + 1);
        assert(quantities.take(i + 1).drop_last() =~= quantities.take(i));
    }
}

/// The granted attempts are as many as can be: an attempt that was turned
/// down would not fit beside the granted ones, in any order of serving
/// them.
pub proof fn lemma_rejected_does_not_fit(availability: int, quantities: Seq<int>, i: int)
    requires
        availability >= 0,
        all_positive(quantities),
        0 <= i < quantities.len(),
        !granted_at(availability, quantities, i),
    ensures
        units_sold(availability, quantities) + quantities[i] > availability,
{
    lemma_inventory_is_conserved(availability, quantities);
    lemma_remaining_drops(availability, quantities, i);
}

/// While the attempts served so far ask for no more than was there at the
/// start, every one of them is granted.
pub proof fn lemma_fitting_prefix_is_granted(availability: int, quantities: Seq<int>, k: int)
    requires
        all_positive(quantities),
        0 <= k <= quantities.len(),
        total(quantities.take(k)) <= availability,
    ensures
        forall|i: int| 0 <= i < k ==> granted_at(availability, quantities, i),
        remaining(availability, quantities.take(k)) == availability - total(quantities.take(k)),
        attempts_granted(availability, quantities.take(k)) == k,
        units_sold(availability, quantities.take(k)) == total(quantities.take(k)),
    decreases k,
{
    if k > 0 {
        let head = quantities.take(k);
        assert(head.drop_last() =~= quantities.take(k - 1));
        assert(head.last() == quantities[k - 1]);
        lemma_fitting_prefix_is_granted(availability, quantities, k - 1);
        assert forall|i: int| 0 <= i < k implies granted_at(availability, quantities, i) by {
            if i == k - 1 {
                assert(quantities.take(i) =~= head.drop_last());
            }
        }
    }
}

} // verus!
