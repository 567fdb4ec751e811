//! The request pipeline of a chat-driven token dispenser: finding addresses in
//! message text, admitting requests under a per-user rate limit, splitting a
//! request's addresses under the per-message cap, and composing the reply.

pub mod address;
pub mod dispense;
pub mod extract;
pub mod request;
pub mod summary;
pub mod value;
pub mod responder;
pub mod limiter;
pub mod handler;
pub mod catchup;
pub mod serve;
