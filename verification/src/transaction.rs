//! A single client query's state while the proxy handles it.

use vstd::prelude::*;

verus! {

/// Largest datagram the proxy accepts or forwards: the DNS-over-UDP size
/// limit (RFC 1035, section 2.3.4).
pub const MAX_DATAGRAM_BYTES: usize = 512;

/// An IPv4 socket address held as plain values: the numeric address and
/// the port.  The core never interprets an address; it only copies it
/// from the inbound datagram to the outbound reply, so this pair is all
/// it needs.  The surrounding program converts to and from the OS form.
#[derive(Clone, Copy, PartialEq, Eq, Structural, Debug)]
pub struct Addr {
    pub ip: u32,
    pub port: u16,
}

/// What a completed transaction answers with.
pub enum Reply {
    /// Reply bytes handed back by the upstream resolver.
    Upstream(Vec<u8>),
    /// The deadline passed with no reply; the write path sends a
    /// synthesized failure answer in place of resolver bytes.
    TimedOut,
}

/// The transaction's position in its lifecycle.  No transition is
/// reversible.
#[derive(Clone, Copy, PartialEq, Eq, Structural, Debug)]
pub enum TransactionState {
    /// Just allocated from an inbound datagram; not yet forwarded.
    Received,
    /// Forwarded toward the upstream resolver; indexed in the table until
    /// a reply arrives or the deadline passes, whichever is first.
    AwaitingUpstreamOrTimeout,
    /// The reply is fixed; the transaction leaves the table for the
    /// response queue and is no longer addressable by token.
    Completed,
}

/// The proxy's bookkeeping record for one client query in flight.
pub struct Transaction {
    /// Table-assigned token, unique among concurrently live transactions.
    pub token: usize,
    /// The client's address: the only information needed to route the
    /// eventual reply.
    pub origin: Addr,
    /// Immutable copy of the raw inbound datagram.
    pub query_bytes: Vec<u8>,
    /// The resolver this query is forwarded to; fixed per proxy instance.
    pub upstream_target: Addr,
    /// Absolute time after which the transaction counts as failed if no
    /// reply arrived.
    pub deadline: u64,
    /// Present exactly once the transaction completes.
    pub reply: Option<Reply>,
    /// Lifecycle position; tied to `reply` by `wf`.
    pub state: TransactionState,
}

impl Transaction {
    /// Internal consistency: the query respects the datagram bound, and a
    /// reply is present exactly in the completed state.
    pub open spec fn wf(self) -> bool {
        &&& self.query_bytes@.len() <= MAX_DATAGRAM_BYTES
        &&& (self.state is Completed <==> self.reply is Some)
    }

    /// A fresh transaction for one inbound datagram.
    pub fn new(
        token: usize,
        origin: Addr,
        query_bytes: Vec<u8>,
        upstream_target: Addr,
        deadline: u64,
    ) -> (t: Transaction)
        requires
            query_bytes@.len() <= MAX_DATAGRAM_BYTES,
        ensures
            t == (Transaction {
                token,
                origin,
                query_bytes,
                upstream_target,
                deadline,
                reply: None,
                state: TransactionState::Received,
            }),
            t.wf(),
    {
        Transaction {
            token,
            origin,
            query_bytes,
            upstream_target,
            deadline,
            reply: None,
            state: TransactionState::Received,
        }
    }

    /// The query has been handed toward the upstream resolver; from here
    /// on the transaction waits for a reply or its deadline.
    pub fn mark_forwarded(&mut self)
        requires
            old(self).state is Received,
        ensures
            *final(self) == (Transaction {
                state: TransactionState::AwaitingUpstreamOrTimeout,
                ..*old(self)
            }),
    {
        self.state = TransactionState::AwaitingUpstreamOrTimeout;
    }

    /// The upstream resolver answered: fix the reply bytes and complete.
    pub fn complete_with_reply(&mut self, reply_bytes: Vec<u8>)
        requires
            !(old(self).state is Completed),
        ensures
            *final(self) == (Transaction {
                state: TransactionState::Completed,
                reply: Some(Reply::Upstream(reply_bytes)),
                ..*old(self)
            }),
    {
        self.reply = Some(Reply::Upstream(reply_bytes));
        self.state = TransactionState::Completed;
    }

    /// The deadline passed with no reply: complete with the timeout
    /// marker so the client still gets exactly one answer.
    pub fn complete_with_timeout(&mut self)
        requires
            !(old(self).state is Completed),
        ensures
            *final(self) == (Transaction {
                state: TransactionState::Completed,
                reply: Some(Reply::TimedOut),
                ..*old(self)
            }),
    {
        self.reply = Some(Reply::TimedOut);
        self.state = TransactionState::Completed;
    }

    /// Whether a reply is ready to be written back to the client.
    pub fn has_reply(&self) -> (r: bool)
        ensures
            r <==> self.reply is Some,
    {
        self.reply.is_some()
    }
}

} // verus!
