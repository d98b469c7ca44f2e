//! A ticket lottery: tickets are sold during a window of slots, an oracle's
//! revealed value picks the winning ticket, and its holder claims the pot.

pub mod address;
pub mod counter;
pub mod lottery;
pub mod oracle;
pub mod ticket;
