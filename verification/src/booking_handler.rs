//! Booking tickets and redeeming bookings at the entrance.
//!
//! A booking takes its buyer from the guarded request and its price from
//! the ticket; the request body is trusted for the ticket and the quantity
//! only. The units are taken from the ticket and the booking is stored
//! together, or neither happens. Redeeming a booking works once.

use vstd::prelude::*;
use crate::inventory::{reserve_units, sold_from};
use crate::jwt_auth::JwtMiddleware;
use crate::models::{copy_text, AppState, Booking, NewBooking, Ticket, User};
use crate::store::{
    booking_ids,
    find_booking,
    find_ticket,
    lemma_first_place,
    lemma_remove_keeps_apart,
    ticket_ids,
};

verus! {

/// Why no booking was made.
#[derive(Debug, Clone, Copy, PartialEq, Eq, Structural)]
pub enum BookingError {
    /// The quantity is not positive.
    InvalidQuantity,
    /// There is no such ticket.
    TicketNotFound,
    /// Fewer units are left than were asked for.
    InsufficientAvailability,
    /// The booking could not be stored; nothing was taken from the ticket.
    Storage,
}

/// What redeeming a booking came to.
#[derive(Debug, Clone, Copy, PartialEq, Eq, Structural)]
pub enum VerificationOutcome {
    /// The booking was unverified and is verified now.
    Verified,
    /// The booking had been verified before.
    AlreadyVerified,
    /// There is no such booking.
    NotFound,
}

/// The booking that `user` gets for `quantity` units of `ticket`: the price
/// is the quantity times the ticket's unit price at that moment.
pub open spec fn booked(user: User, ticket: Ticket, quantity: i32, booking_id: u128, now: i64)
    -> Booking {
    Booking {
        booking_id,
        user_id: Some(user.user_id),
        event_id: ticket.event_id,
        event_name: ticket.event_name,
        ticket_id: Some(ticket.ticket_id),
        quantity,
        total_price: (quantity * ticket.price) as i64,
        booking_date: Some(now),
        verified: false,
    }
}

/// A booking's total price is its quantity times the unit price that the
/// ticket has when it is booked, for every quantity and every price.
pub proof fn lemma_total_price_is_quantity_times_price(
    user: User,
    ticket: Ticket,
    quantity: i32,
    booking_id: u128,
    now: i64,
)
    ensures
        booked(user, ticket, quantity, booking_id, now).total_price == quantity * ticket.price,
{
    let q = quantity as int;
    let p = ticket.price as int;
    assert(-0x4000_0000_0000_0000 <= q * p <= 0x4000_0000_0000_0000) by (nonlinear_arith)
        requires
            -0x8000_0000 <= q <= 0x7fff_ffff,
            -0x8000_0000 <= p <= 0x7fff_ffff,
    ;
}

/// Books `quantity` units of `ticket` for the guarded user.
///
/// A quantity that is not positive is refused, and so is one that exceeds
/// the unsold count; the ticket then stays as it was. Otherwise the units
/// are taken and the booking is returned, unverified, with the total price
/// computed from the ticket's own unit price.
pub fn create_booking(
    principal: &JwtMiddleware,
    ticket: &mut Ticket,
    quantity: i32,
    booking_id: u128,
    now: i64,
) -> (r: Result<Booking, BookingError>)
    ensures
        quantity <= 0 ==> r == Err::<Booking, BookingError>(BookingError::InvalidQuantity),
        0 < quantity && old(ticket).availability < quantity ==> r == Err::<Booking, BookingError>(
            BookingError::InsufficientAvailability,
        ),
        0 < quantity <= old(ticket).availability ==> r == Ok::<Booking, BookingError>(
            booked(principal.user, *old(ticket), quantity, booking_id, now),
        ),
        r is Ok ==> *final(ticket) == sold_from(*old(ticket), quantity),
        r is Ok ==> r->Ok_0.total_price == quantity * old(ticket).price,
        r is Err ==> *final(ticket) == *old(ticket),
        old(ticket).wf() ==> final(ticket).wf(),
{
    if quantity <= 0 {
        return Err(BookingError::InvalidQuantity);
    }
    let price: i64 = ticket.price as i64;
    let units: i64 = quantity as i64;
    assert(i64::MIN <= units * price <= i64::MAX) by (nonlinear_arith)
        requires
            0 < units <= 0x7fff_ffff,
            -0x8000_0000 <= price <= 0x7fff_ffff,
    ;
    let total_price: i64 = units * price;
    let event_id = ticket.event_id;
    let event_name = copy_text(&ticket.event_name);
    let ticket_id = ticket.ticket_id;
    match reserve_units(ticket, quantity) {
        Ok(()) => Ok(
            Booking {
                booking_id,
                user_id: Some(principal.user.user_id),
                event_id,
                event_name,
                ticket_id: Some(ticket_id),
                quantity,
                total_price,
                booking_date: Some(now),
                verified: false,
            },
        ),
        Err(_) => Err(BookingError::InsufficientAvailability),
    }
}

/// What a booking request comes to in a state with the given tables: the
/// place of the ticket to sell from, or the reason to refuse.
pub open spec fn booking_decision(
    tickets: Seq<Ticket>,
    bookings: Seq<Booking>,
    ticket_id: u128,
    quantity: i32,
    booking_id: u128,
) -> Result<int, BookingError> {
    if quantity <= 0 {
        Err(BookingError::InvalidQuantity)
    } else {
        match ticket_ids(tickets).index_of_first(ticket_id) {
            None => Err(BookingError::TicketNotFound),
            Some(i) => if tickets[i].availability < quantity {
                Err(BookingError::InsufficientAvailability)
            } else if booking_ids(bookings).contains(booking_id) {
                Err(BookingError::Storage)
            } else {
                Ok(i)
            },
        }
    }
}

/// Books tickets for the guarded user, under the identifier `booking_id`
/// and with `now` as the booking's date.
///
/// Of the request body only the ticket and the quantity are read. On
/// success the ticket's unsold count has dropped by the quantity and the
/// booking stands at the end of the bookings; on any refusal the state is
/// what it was.
pub fn book_ticket(
    state: &mut AppState,
    jwt_guard: &JwtMiddleware,
    booking: &NewBooking,
    booking_id: u128,
    now: i64,
) -> (r: Result<Booking, BookingError>)
    ensures
        match booking_decision(
            old(state).tickets@,
            old(state).bookings@,
            booking.ticket_id,
            booking.quantity,
            booking_id,
        ) {
            Err(e) => r == Err::<Booking, BookingError>(e) && *final(state) == *old(state),
            Ok(i) => {
                &&& r == Ok::<Booking, BookingError>(
                    booked(jwt_guard.user, old(state).tickets[i], booking.quantity, booking_id, now),
                )
                &&& final(state).tickets@ == old(state).tickets@.update(
                    i,
                    sold_from(old(state).tickets[i], booking.quantity),
                )
                &&& final(state).bookings@ == old(state).bookings@.push(r->Ok_0)
                &&& final(state).users == old(state).users
                &&& final(state).events == old(state).events
            },
        },
        r is Ok ==> r->Ok_0.total_price == booking.quantity * old(state).tickets[booking_decision(
            old(state).tickets@,
            old(state).bookings@,
            booking.ticket_id,
            booking.quantity,
            booking_id,
        )->Ok_0].price,
        old(state).wf() ==> final(state).wf(),
{
    if booking.quantity <= 0 {
        return Err(BookingError::InvalidQuantity);
    }
    let found = find_ticket(&state.tickets, booking.ticket_id);
    proof {
        lemma_first_place(ticket_ids(state.tickets@), booking.ticket_id, found);
    }
    let i = match found {
        Some(i) => i,
        None => {
            return Err(BookingError::TicketNotFound);
        },
    };
    if state.tickets[i].availability < booking.quantity {
        return Err(BookingError::InsufficientAvailability);
    }
    let taken = find_booking(&state.bookings, booking_id);
    if taken.is_some() {
        assert(booking_ids(state.bookings@).contains(booking_id));
        return Err(BookingError::Storage);
    }
    let mut ticket = state.tickets[i].copy();
    let made = create_booking(jwt_guard, &mut ticket, booking.quantity, booking_id, now);
    match made {
        Ok(row) => {
            let kept = row.copy();
            state.tickets.set(i, ticket);
            state.bookings.push(row);
            proof {
                lemma_update_keeps_ticket_ids(
                    old(state).tickets@,
                    i as int,
                    sold_from(old(state).tickets[i as int], booking.quantity),
                );
                if old(state).wf() {
                    lemma_push_keeps_booking_ids_apart(old(state).bookings@, kept);
                }
            }
            Ok(kept)
        },
        Err(e) => Err(e),
    }
}

/// Replacing a ticket by one with the same identifier leaves the table's
/// identifiers as they were.
pub proof fn lemma_update_keeps_ticket_ids(tickets: Seq<Ticket>, i: int, ticket: Ticket)
    requires
        0 <= i < tickets.len(),
        ticket.ticket_id == tickets[i].ticket_id,
    ensures
        ticket_ids(tickets.update(i, ticket)) == ticket_ids(tickets),
{
    assert(ticket_ids(tickets.update(i, ticket)) =~= ticket_ids(tickets));
}

/// Adding a booking whose identifier is new keeps the identifiers apart.
pub proof fn lemma_push_keeps_booking_ids_apart(bookings: Seq<Booking>, booking: Booking)
    requires
        booking_ids(bookings).no_duplicates(),
        !booking_ids(bookings).contains(booking.booking_id),
    ensures
        booking_ids(bookings.push(booking)).no_duplicates(),
{
    assert(booking_ids(bookings.push(booking)) =~= booking_ids(bookings).push(booking.booking_id));
}

/// The bookings of `bookings` that `user_id` made, in table order.
pub open spec fn bookings_of(bookings: Seq<Booking>, user_id: u128) -> Seq<Booking> {
    bookings.filter(|b: Booking| b.user_id == Some(user_id))
}

/// The bookings that the guarded user made.
pub fn get_bookings(state: &AppState, jwt_guard: &JwtMiddleware) -> (bookings: Vec<Booking>)
    ensures
        bookings@ == bookings_of(state.bookings@, jwt_guard.user.user_id),
{
    let user_id = jwt_guard.user.user_id;
    let mut bookings: Vec<Booking> = Vec::new();
    let mut i: usize = 0;
    proof {
        reveal(Seq::filter);
    }
    while i < state.bookings.len()
        invariant
            i <= state.bookings.len(),
            bookings@ == bookings_of(state.bookings@.take(i as int), user_id),
        decreases state.bookings.len() - i,
    {
        proof {
            reveal(Seq::filter);
            assert(state.bookings@.take(i + 1).drop_last() =~= state.bookings@.take(i as int));
        }
        let made = match state.bookings[i].user_id {
            Some(buyer) => buyer == user_id,
            None => false,
        };
        if made {
            bookings.push(state.bookings[i].copy());
        }
        i += 1;
    }
    assert(state.bookings@.take(i as int) =~= state.bookings@);
    bookings
}

/// Deletes the booking `booking_id`: the first row with the identifier
/// leaves the bookings, and nothing else changes. The ticket's unsold
/// count is not given back.
pub fn delete_booking(state: &mut AppState, booking_id: u128)
    ensures
        match booking_ids(old(state).bookings@).index_of_first(booking_id) {
            None => *final(state) == *old(state),
            Some(i) => {
                &&& final(state).bookings@ == old(state).bookings@.remove(i)
                &&& final(state).users == old(state).users
                &&& final(state).events == old(state).events
                &&& final(state).tickets == old(state).tickets
            },
        },
        old(state).wf() ==> final(state).wf() && !booking_ids(final(state).bookings@).contains(
            booking_id,
        ),
{
    let found = find_booking(&state.bookings, booking_id);
    proof {
        lemma_first_place(booking_ids(state.bookings@), booking_id, found);
    }
    if let Some(i) = found {
        state.bookings.remove(i);
        proof {
            lemma_remove_keeps_apart(booking_ids(old(state).bookings@), i as int);
            assert(booking_ids(state.bookings@) =~= booking_ids(old(state).bookings@).remove(
                i as int,
            ));
        }
    }
}

/// What presenting a booking comes to: the first time verifies it, every
/// later time finds it verified.
pub open spec fn scan_outcome(verified: bool) -> VerificationOutcome {
    if verified {
        VerificationOutcome::AlreadyVerified
    } else {
        VerificationOutcome::Verified
    }
}

/// Redeems `booking`: marks it verified if it was not, and says which of
/// the two it was. No other field changes, and a verified booking stays
/// verified.
pub fn verify_booking(booking: &mut Booking) -> (outcome: VerificationOutcome)
    ensures
        outcome == scan_outcome(old(booking).verified),
        *final(booking) == (Booking { verified: true, ..*old(booking) }),
{
    if booking.verified {
        VerificationOutcome::AlreadyVerified
    } else {
        booking.verified = true;
        VerificationOutcome::Verified
    }
}

/// What redeeming the booking `booking_id` comes to among `bookings`.
pub open spec fn verification_outcome(bookings: Seq<Booking>, booking_id: u128)
    -> VerificationOutcome {
    match booking_ids(bookings).index_of_first(booking_id) {
        None => VerificationOutcome::NotFound,
        Some(i) => scan_outcome(bookings[i].verified),
    }
}

/// The bookings after the booking `booking_id` was presented: that row is
/// verified, and everything else is as it was.
pub open spec fn scanned(bookings: Seq<Booking>, booking_id: u128) -> Seq<Booking> {
    match booking_ids(bookings).index_of_first(booking_id) {
        None => bookings,
        Some(i) => bookings.update(i, Booking { verified: true, ..bookings[i] }),
    }
}

/// Redeems the booking `booking_id` at the entrance.
///
/// An unverified booking becomes verified, and only then is the outcome
/// `Verified`; a verified one stays so; every other row, and every other
/// field of this one, stays as it was.
pub fn ticket_verification(state: &mut AppState, booking_id: u128) -> (outcome:
    VerificationOutcome)
    ensures
        outcome == verification_outcome(old(state).bookings@, booking_id),
        final(state).bookings@ == scanned(old(state).bookings@, booking_id),
        outcome == VerificationOutcome::NotFound ==> *final(state) == *old(state),
        final(state).users == old(state).users,
        final(state).events == old(state).events,
        final(state).tickets == old(state).tickets,
        old(state).wf() ==> final(state).wf(),
{
    let found = find_booking(&state.bookings, booking_id);
    proof {
        lemma_first_place(booking_ids(state.bookings@), booking_id, found);
    }
    match found {
        None => VerificationOutcome::NotFound,
        Some(i) => {
            let mut row = state.bookings[i].copy();
            let outcome = verify_booking(&mut row);
            state.bookings.set(i, row);
            assert(booking_ids(state.bookings@) =~= booking_ids(old(state).bookings@));
            outcome
        },
    }
}

/// The outcomes of presenting the booking `booking_id` `times` times in a
/// row, starting from `bookings`.
pub open spec fn scan_outcomes(bookings: Seq<Booking>, booking_id: u128, times: nat) -> Seq<
    VerificationOutcome,
>
    decreases times,
{
    if times == 0 {
        Seq::empty()
    } else {
        seq![verification_outcome(bookings, booking_id)] + scan_outcomes(
            scanned(bookings, booking_id),
            booking_id,
            (times - 1) as nat,
        )
    }
}

/// Presenting a booking leaves it verified, and presenting it again changes
/// nothing more: the second attempt meets a verified booking, or still no
/// booking at all.
pub proof fn lemma_scan_is_idempotent(bookings: Seq<Booking>, booking_id: u128)
    ensures
        scanned(scanned(bookings, booking_id), booking_id) == scanned(bookings, booking_id),
        booking_ids(scanned(bookings, booking_id)) == booking_ids(bookings),
        verification_outcome(scanned(bookings, booking_id), booking_id) == if verification_outcome(
            bookings,
            booking_id,
        ) == VerificationOutcome::NotFound {
            VerificationOutcome::NotFound
        } else {
            VerificationOutcome::AlreadyVerified
        },
{
    let ids = booking_ids(bookings);
    ids.index_of_first_ensures(booking_id);
    assert(booking_ids(scanned(bookings, booking_id)) =~= ids);
    match ids.index_of_first(booking_id) {
        None => {},
        Some(i) => {
            let once = scanned(bookings, booking_id);
            assert(once.update(i, Booking { verified: true, ..once[i] }) =~= once);
        },
    }
}

/// Of any number of attempts to redeem one booking, the first is
/// `Verified` exactly when the booking was there and unverified; every
/// later one is `AlreadyVerified`; and where there is no such booking all
/// are `NotFound`.
pub proof fn lemma_only_first_scan_verifies(bookings: Seq<Booking>, booking_id: u128, times: nat)
    ensures
        scan_outcomes(bookings, booking_id, times).len() == times,
        forall|i: int|
            0 <= i < times ==> #[trigger] scan_outcomes(bookings, booking_id, times)[i] == if i
                == 0 {
                verification_outcome(bookings, booking_id)
            } else if verification_outcome(bookings, booking_id) == VerificationOutcome::NotFound {
                VerificationOutcome::NotFound
            } else {
                VerificationOutcome::AlreadyVerified
            },
    decreases times,
{
    if times > 0 {
        let once = scanned(bookings, booking_id);
        lemma_scan_is_idempotent(bookings, booking_id);
        lemma_only_first_scan_verifies(once, booking_id, (times - 1) as nat);
        let rest = scan_outcomes(once, booking_id, (times - 1) as nat);
        assert forall|i: int| 0 <= i < times implies #[trigger] scan_outcomes(
            bookings,
            booking_id,
            times,
        )[i] == if i == 0 {
            verification_outcome(bookings, booking_id)
        } else if verification_outcome(bookings, booking_id) == VerificationOutcome::NotFound {
            VerificationOutcome::NotFound
        } else {
            VerificationOutcome::AlreadyVerified
        } by {
            if i > 0 {
                assert(scan_outcomes(bookings, booking_id, times)[i] == rest[i - 1]);
            }
        }
    }
}

/// The HTTP status of a redeeming attempt: 200 for the first, 409 for a
/// repeated one, 404 for an unknown booking.
pub fn verification_status(outcome: VerificationOutcome) -> (code: u16)
    ensures
        code == match outcome {
            VerificationOutcome::Verified => 200u16,
            VerificationOutcome::AlreadyVerified => 409u16,
            VerificationOutcome::NotFound => 404u16,
        },
{
    match outcome {
        VerificationOutcome::Verified => 200,
        VerificationOutcome::AlreadyVerified => 409,
        VerificationOutcome::NotFound => 404,
    }
}

impl BookingError {
    /// The HTTP status of the refusal: 404 for an unknown ticket, 500 for a
    /// storage failure, 400 for the rest.
    pub fn status_code(&self) -> (code: u16)
        ensures
            code == match *self {
                BookingError::InvalidQuantity => 400u16,
                BookingError::TicketNotFound => 404u16,
                BookingError::InsufficientAvailability => 400u16,
                BookingError::Storage => 500u16,
            },
    {
        match self {
            BookingError::InvalidQuantity => 400,
            BookingError::TicketNotFound => 404,
            BookingError::InsufficientAvailability => 400,
            BookingError::Storage => 500,
        }
    }
}

} // verus!
