//! Ticket sales: signed bearer credentials, the request guard that resolves
//! them to a known user, and the booking rules that keep a shared ticket
//! inventory consistent.

pub mod booking_handler;
pub mod event_handlers;
pub mod inventory;
pub mod jwt_auth;
pub mod models;
pub mod store;
pub mod ticket_handlers;
pub mod token;
pub mod user_handlers;
