//! The client side of a duplex feed of ledger transactions.
//!
//! A caller declares named filter sets, sends them to the server in a
//! control message, and reads the matching transactions until it stops or
//! the connection ends. This crate holds what such a client decides and
//! computes; sending and receiving is left to whoever drives the call.
//!
//! - [`address`]: account addresses and their base-58 text.
//! - [`filter`]: filter sets and which transactions they match.
//! - [`registry`]: the named filter sets of a subscription, and the
//!   declarations that change them; [`mapping`] is its mathematical model
//!   and [`message`] the control message that carries it.
//! - [`stream`]: the consumer of a subscription, as a state machine.
//! - [`record`]: what is read from a transaction record.
//! - [`pumpfun`]: the subscription for newly created mints.
//! - [`base58`] and [`radix`]: what base-58 text is, and why text and bytes
//!   determine each other.

pub mod address;
pub mod base58;
pub mod filter;
pub mod mapping;
pub mod message;
pub mod pumpfun;
pub mod radix;
pub mod record;
pub mod registry;
pub mod stream;
