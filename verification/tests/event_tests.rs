use ticketing::event_handlers::{
    check_and_update_events, close_past_events, create_event, create_event_on, delete_event,
    get_event, get_event_by_user, get_events, get_events_with_tickets, EventError,
};
use ticketing::jwt_auth::JwtMiddleware;
use ticketing::models::{AppState, Event, EventWithTickets, NewEvent, NewTicket, Ticket, User};
use ticketing::store::{
    find_booking, find_event, find_ticket, find_user, find_user_by_email, same_text,
};
use ticketing::ticket_handlers::{delete_ticket, generate_ticket, get_ticket, TicketError};

fn guard(id: u128) -> JwtMiddleware {
    JwtMiddleware {
        user: User {
            user_id: id,
            username: "u".to_string(),
            email: format!("u{}@example.com", id),
            password: String::new(),
            first_name: None,
            last_name: None,
            phone_number: None,
            registration_date: None,
        },
    }
}

fn new_event(name: &str, date: &str) -> NewEvent {
    NewEvent {
        event_name: name.to_string(),
        event_date: date.to_string(),
        event_location: "Hall".to_string(),
        event_description: "Live".to_string(),
    }
}

fn new_ticket(user_id: u128, event_id: u128, availability: i32) -> NewTicket {
    NewTicket {
        user_id,
        event_id,
        email: "u@example.com".to_string(),
        event_name: "Concert".to_string(),
        ticket_type: "Seat".to_string(),
        price: 120,
        availability,
    }
}

#[test]
fn event_is_created_open_and_owned_by_its_creator() {
    let mut state = AppState::new();
    let made = create_event(&mut state, &guard(7), &new_event("Concert", "1970-01-01"), 1).unwrap();
    assert_eq!(
        made,
        Event {
            event_id: 1,
            user_id: Some(7),
            event_name: "Concert".to_string(),
            event_date: 719_163,
            event_location: Some("Hall".to_string()),
            event_description: Some("Live".to_string()),
            event_status: false,
        }
    );
    assert_eq!(state.events, vec![made]);
}

#[test]
fn event_dates_are_day_numbers() {
    let mut state = AppState::new();
    let a = create_event(&mut state, &guard(7), &new_event("A", "2024-02-29"), 1).unwrap();
    let b = create_event(&mut state, &guard(7), &new_event("B", "2024-03-01"), 2).unwrap();
    assert_eq!(b.event_date - a.event_date, 1);
    assert_eq!(a.event_date, 738_945);
}

#[test]
fn event_with_a_bad_date_is_refused() {
    let mut state = AppState::new();
    for bad in ["", "tomorrow", "2023-02-29", "2024/01/01", "01-02-2024"] {
        assert_eq!(
            create_event(&mut state, &guard(7), &new_event("X", bad), 1),
            Err(EventError::InvalidDate)
        );
    }
    assert_eq!(
        create_event_on(&mut state, &guard(7), &new_event("X", "2024-01-01"), 1, None),
        Err(EventError::InvalidDate)
    );
    assert_eq!(state, AppState::new());
}

#[test]
fn event_with_a_taken_identifier_is_refused() {
    let mut state = AppState::new();
    create_event_on(&mut state, &guard(7), &new_event("A", "x"), 1, Some(10)).unwrap();
    let before = state.clone();
    assert_eq!(
        create_event_on(&mut state, &guard(8), &new_event("B", "x"), 1, Some(11)),
        Err(EventError::Storage)
    );
    assert_eq!(state, before);
}

#[test]
fn events_are_listed_all_and_by_creator() {
    let mut state = AppState::new();
    let a = create_event_on(&mut state, &guard(7), &new_event("A", "x"), 1, Some(10)).unwrap();
    let b = create_event_on(&mut state, &guard(8), &new_event("B", "x"), 2, Some(11)).unwrap();
    let c = create_event_on(&mut state, &guard(7), &new_event("C", "x"), 3, Some(12)).unwrap();
    assert_eq!(get_events(&state), vec![a.clone(), b.clone(), c.clone()]);
    assert_eq!(get_event_by_user(&state, &guard(7)), vec![a, c]);
    assert_eq!(get_event_by_user(&state, &guard(8)), vec![b]);
    assert_eq!(get_event_by_user(&state, &guard(9)), Vec::<Event>::new());
}

#[test]
fn event_comes_with_its_tickets() {
    let mut state = AppState::new();
    let a = create_event_on(&mut state, &guard(7), &new_event("A", "x"), 1, Some(10)).unwrap();
    create_event_on(&mut state, &guard(7), &new_event("B", "x"), 2, Some(10)).unwrap();
    let t1 = generate_ticket(&mut state, &guard(7), &new_ticket(7, 1, 5), 100).unwrap();
    let _t2 = generate_ticket(&mut state, &guard(7), &new_ticket(7, 2, 5), 101).unwrap();
    let t3 = generate_ticket(&mut state, &guard(7), &new_ticket(7, 1, 9), 102).unwrap();
    assert_eq!(
        get_event(&state, 1),
        Some(EventWithTickets { event: a, tickets: vec![t1.clone(), t3.clone()] })
    );
    assert_eq!(get_event(&state, 3), None);
    assert_eq!(get_ticket(&state, 1), vec![t1, t3]);
    assert_eq!(get_ticket(&state, 3), Vec::<Ticket>::new());
}

#[test]
fn past_events_are_closed_and_stay_closed() {
    let mut state = AppState::new();
    create_event_on(&mut state, &guard(7), &new_event("past", "x"), 1, Some(99)).unwrap();
    create_event_on(&mut state, &guard(7), &new_event("today", "x"), 2, Some(100)).unwrap();
    create_event_on(&mut state, &guard(7), &new_event("future", "x"), 3, Some(101)).unwrap();
    close_past_events(&mut state, 100);
    let status: Vec<bool> = state.events.iter().map(|e| e.event_status).collect();
    assert_eq!(status, vec![true, true, false]);
    close_past_events(&mut state, 50);
    let status: Vec<bool> = state.events.iter().map(|e| e.event_status).collect();
    assert_eq!(status, vec![true, true, false]);
    assert_eq!(state.events[2].event_name, "future");
}

#[test]
fn deleted_event_is_gone() {
    let mut state = AppState::new();
    create_event_on(&mut state, &guard(7), &new_event("A", "x"), 1, Some(10)).unwrap();
    let b = create_event_on(&mut state, &guard(7), &new_event("B", "x"), 2, Some(10)).unwrap();
    delete_event(&mut state, 1);
    assert_eq!(state.events, vec![b.clone()]);
    delete_event(&mut state, 1);
    assert_eq!(state.events, vec![b]);
}

#[test]
fn ticket_is_created_for_the_guarded_user_only() {
    let mut state = AppState::new();
    let made = generate_ticket(&mut state, &guard(7), &new_ticket(7, 1, 5), 100).unwrap();
    assert_eq!(
        made,
        Ticket {
            ticket_id: 100,
            event_id: Some(1),
            event_name: Some("Concert".to_string()),
            ticket_type: Some("Seat".to_string()),
            price: 120,
            availability: 5,
        }
    );
    let before = state.clone();
    assert_eq!(
        generate_ticket(&mut state, &guard(8), &new_ticket(7, 1, 5), 101),
        Err(TicketError::Unauthorized)
    );
    assert_eq!(
        generate_ticket(&mut state, &guard(7), &new_ticket(7, 1, -1), 101),
        Err(TicketError::InvalidAvailability)
    );
    assert_eq!(
        generate_ticket(&mut state, &guard(7), &new_ticket(7, 1, 5), 100),
        Err(TicketError::Storage)
    );
    assert_eq!(state, before);
}

#[test]
fn deleted_ticket_is_gone() {
    let mut state = AppState::new();
    generate_ticket(&mut state, &guard(7), &new_ticket(7, 1, 5), 100).unwrap();
    let kept = generate_ticket(&mut state, &guard(7), &new_ticket(7, 1, 5), 101).unwrap();
    delete_ticket(&mut state, 100);
    assert_eq!(state.tickets, vec![kept.clone()]);
    delete_ticket(&mut state, 7);
    assert_eq!(state.tickets, vec![kept]);
}

#[test]
fn rows_are_found_by_their_first_place() {
    let mut state = AppState::new();
    create_event_on(&mut state, &guard(7), &new_event("A", "x"), 5, Some(10)).unwrap();
    create_event_on(&mut state, &guard(7), &new_event("B", "x"), 6, Some(10)).unwrap();
    generate_ticket(&mut state, &guard(7), &new_ticket(7, 5, 5), 100).unwrap();
    state.users = vec![guard(1).user, guard(2).user, guard(1).user];
    assert_eq!(find_event(&state.events, 6), Some(1));
    assert_eq!(find_event(&state.events, 7), None);
    assert_eq!(find_ticket(&state.tickets, 100), Some(0));
    assert_eq!(find_ticket(&state.tickets, 5), None);
    assert_eq!(find_user(&state.users, 1), Some(0));
    assert_eq!(find_user(&state.users, 2), Some(1));
    assert_eq!(find_user(&state.users, 3), None);
    assert_eq!(find_user_by_email(&state.users, "u2@example.com"), Some(1));
    assert_eq!(find_user_by_email(&state.users, "U2@example.com"), None);
    assert_eq!(find_booking(&state.bookings, 1), None);
}

#[test]
fn texts_are_compared_by_their_characters() {
    assert!(same_text("", ""));
    assert!(same_text("abc", "abc"));
    assert!(!same_text("abc", "abd"));
    assert!(!same_text("abc", "ab"));
    assert!(same_text("\u{e9}", "\u{e9}"));
    assert!(!same_text("\u{e9}", "e"));
}

#[test]
fn sweep_by_the_clock_closes_what_is_past() {
    let mut state = AppState::new();
    create_event(&mut state, &guard(7), &new_event("past", "2001-01-01"), 1).unwrap();
    create_event(&mut state, &guard(7), &new_event("future", "9000-01-01"), 2).unwrap();
    check_and_update_events(&mut state);
    assert!(state.events[0].event_status);
    assert!(!state.events[1].event_status);
    assert_eq!(state.events[0].event_name, "past");
}

#[test]
fn every_event_is_listed_with_its_tickets() {
    let mut state = AppState::new();
    let a = create_event_on(&mut state, &guard(7), &new_event("A", "x"), 1, Some(10)).unwrap();
    let b = create_event_on(&mut state, &guard(7), &new_event("B", "x"), 2, Some(10)).unwrap();
    let t1 = generate_ticket(&mut state, &guard(7), &new_ticket(7, 1, 5), 100).unwrap();
    let t2 = generate_ticket(&mut state, &guard(7), &new_ticket(7, 1, 6), 101).unwrap();
    assert_eq!(
        get_events_with_tickets(&state),
        vec![
            EventWithTickets { event: a, tickets: vec![t1, t2] },
            EventWithTickets { event: b, tickets: vec![] },
        ]
    );
}

#[test]
fn event_and_ticket_errors_have_their_status() {
    assert_eq!(EventError::InvalidDate.status_code(), 400);
    assert_eq!(EventError::Storage.status_code(), 500);
    assert_eq!(TicketError::Unauthorized.status_code(), 203);
    assert_eq!(TicketError::InvalidAvailability.status_code(), 400);
    assert_eq!(TicketError::Storage.status_code(), 500);
}
