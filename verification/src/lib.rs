//! Transaction-management core of a DNS forwarding proxy.
//!
//! The proxy multiplexes one UDP socket across many concurrent client
//! queries with a single-threaded, readiness-driven event loop using
//! edge-triggered, one-shot notifications.  This crate holds the verified
//! core of that design: the transaction state machine, the token-indexed
//! transaction table (a slab), the response queue, and the reactor adapter
//! that dispatches readiness, timeout and control notifications.  The
//! socket work itself — receiving and sending datagrams, registering
//! interest with the OS reactor — is performed by the surrounding
//! program, which feeds the results of each call into these functions and
//! carries out the actions they return.

pub mod reactor;
pub mod table;
pub mod transaction;
