//! The reactor adapter: sole owner of the transaction table and the
//! response queue, and the one component that the event loop notifies.
//!
//! Every entry point here is a pure decision step: the surrounding
//! program performs the socket call (receive, send, re-register) and
//! hands its result in as plain values; the adapter advances the state
//! and returns the actions to carry out.  Because the OS registration is
//! edge-triggered and one-shot, every dispatch also returns the interest
//! the listening socket must be re-armed with — read always, write
//! exactly while the response queue is non-empty.

use vstd::prelude::*;
use vstd::string::StringSliceAdditionalSpecFns;

use crate::table::inserted;
use crate::table::unchanged_except;
use crate::table::TransactionTable;
use crate::table::FIRST_TOKEN;
use crate::table::MAX_TRANSACTIONS;
use crate::table::TCP_SERVER_TOKEN;
use crate::table::UDP_SERVER_TOKEN;
use crate::transaction::Addr;
use crate::transaction::Reply;
use crate::transaction::Transaction;
use crate::transaction::TransactionState;
use crate::transaction::MAX_DATAGRAM_BYTES;

verus! {

/// One inbound datagram: who sent it and what it held.
pub struct Datagram {
    pub origin: Addr,
    pub bytes: Vec<u8>,
}

/// The interest the listening socket must be re-registered with after a
/// dispatch (edge-triggered, one-shot: a missed re-arm silently stalls
/// the socket).
#[derive(Clone, Copy, PartialEq, Eq, Structural, Debug)]
pub struct Interest {
    pub read: bool,
    pub write: bool,
}

/// Directive to forward a newly accepted query toward the upstream
/// resolver: the token now tracking it, where to send it, the bytes to
/// send, and the absolute deadline to schedule its timeout at.
pub struct Forward {
    pub token: usize,
    pub upstream_target: Addr,
    pub query_bytes: Vec<u8>,
    pub deadline: u64,
}

/// What became of one readable notification on the listening socket.
pub enum AcceptOutcome {
    /// A datagram was accepted: a transaction tracks it and the carried
    /// directive says what to forward upstream.
    Forwarded(Forward),
    /// The table is at capacity: the datagram is dropped and no reply is
    /// ever produced for it; the client must retry on its own.
    TableFull,
    /// No datagram was actually available (a spurious wakeup) — not an
    /// error.
    NotReady,
}

/// What a dispatch for a transaction token (or a timeout) decided.
pub struct DispatchOutcome {
    /// The transaction completed and moved to the response queue.
    pub queued: bool,
    /// The token addressed nothing: the expected race of an event
    /// arriving after completion.  Logged by the caller, never fatal.
    pub stale: bool,
    /// Interest to re-arm the listening socket with.
    pub rearm: Interest,
}

/// What a readiness notification for the listening socket decided.
pub struct ServerOutcome {
    /// The accept path's result (readable side).
    pub accept: AcceptOutcome,
    /// One completed transaction to write back (writable side), if any
    /// was pending.
    pub response: Option<Transaction>,
    /// Interest to re-arm the listening socket with.
    pub rearm: Interest,
}

/// Which component a reactor token addresses.
#[derive(Clone, Copy, PartialEq, Eq, Structural, Debug)]
pub enum TokenClass {
    /// The UDP listening socket all queries and replies share.
    UdpServer,
    /// The TCP listening socket (stub transport).
    TcpServer,
    /// A transaction token.
    Request,
}

/// The reactor adapter: the UDP socket's bookkeeping half.  Owns the
/// transaction table and the response queue; the socket handle itself
/// lives with the surrounding event loop.
pub struct Reactor {
    /// The resolver every query is forwarded to; fixed at start.
    pub upstream_server: Addr,
    /// Per-query timeout in milliseconds; fixed at start.
    pub timeout_ms: u64,
    /// In-flight transactions, indexed by token.
    pub requests: TransactionTable,
    /// Completed transactions awaiting one outbound write each, drained
    /// most-recently-completed first.
    pub responses: Vec<Transaction>,
}

impl Reactor {
    /// Invariant: the table is well formed, nothing live is completed,
    /// and everything queued is completed with its reply fixed.
    pub open spec fn wf(self) -> bool {
        &&& self.requests.wf()
        &&& forall|t: int|
            self.requests.live(t) ==> !(#[trigger] self.requests.tx(t).state is Completed)
        &&& forall|i: int|
            0 <= i < self.responses@.len() ==> {
                &&& (#[trigger] self.responses@[i]).wf()
                &&& self.responses@[i].state is Completed
            }
    }

    /// The re-arm interest is correct for this state: read always, write
    /// exactly while responses are pending.
    pub open spec fn rearm_ok(self, rearm: Interest) -> bool {
        &&& rearm.read
        &&& rearm.write <==> self.responses@.len() > 0
    }

    /// Configuration is untouched.
    pub open spec fn same_config(pre: Reactor, post: Reactor) -> bool {
        &&& post.upstream_server == pre.upstream_server
        &&& post.timeout_ms == pre.timeout_ms
        &&& post.requests.spec_capacity() == pre.requests.spec_capacity()
    }

    /// A fresh reactor with an empty table and queue.
    pub fn new(upstream_server: Addr, timeout_ms: u64, capacity: usize) -> (r: Reactor)
        requires
            capacity <= MAX_TRANSACTIONS,
        ensures
            r.wf(),
            r.upstream_server == upstream_server,
            r.timeout_ms == timeout_ms,
            r.requests.spec_capacity() == capacity,
            forall|t: int| !r.requests.live(t),
            !r.requests.is_full() || capacity == 0,
            r.responses@.len() == 0,
    {
        Reactor {
            upstream_server,
            timeout_ms,
            requests: TransactionTable::new(capacity),
            responses: Vec::new(),
        }
    }

    /// Accept-and-allocate: one datagram was received (or the socket
    /// turned out not to be ready).  Copies it into a new transaction
    /// under the lowest free token and says what to forward upstream; at
    /// capacity the datagram is dropped explicitly and every existing
    /// entry is left untouched.
    pub fn accept(&mut self, datagram: Option<Datagram>, now: u64) -> (out: AcceptOutcome)
        requires
            old(self).wf(),
            datagram matches Some(d) ==> d.bytes@.len() <= MAX_DATAGRAM_BYTES,
            now + old(self).timeout_ms <= u64::MAX,
        ensures
            final(self).wf(),
            Self::same_config(*old(self), *final(self)),
            final(self).responses@ == old(self).responses@,
            out is NotReady <==> datagram is None,
            out is TableFull <==> (datagram is Some && old(self).requests.is_full()),
            (out is NotReady || out is TableFull) ==> *final(self) == *old(self),
            out matches AcceptOutcome::Forwarded(f) ==> (datagram matches Some(d) && accepts(
                *old(self),
                final(self).requests,
                d,
                now,
                f,
            )),
    {
        match datagram {
            None => AcceptOutcome::NotReady,
            Some(d) => {
                let deadline = now + self.timeout_ms;
                let query_copy = copy_bytes(&d.bytes);
                let mut t = Transaction::new(
                    FIRST_TOKEN,
                    d.origin,
                    d.bytes,
                    self.upstream_server,
                    deadline,
                );
                // Protocol work that needs no socket event happens
                // inline: the fresh transaction is forwarded at once
                // rather than waiting for a wakeup.
                t.mark_forwarded();
                match self.requests.insert(t) {
                    Some(token) => AcceptOutcome::Forwarded(
                        Forward {
                            token,
                            upstream_target: self.upstream_server,
                            query_bytes: query_copy,
                            deadline,
                        },
                    ),
                    None => AcceptOutcome::TableFull,
                }
            },
        }
    }

    /// Drain-one-response: the socket is writable, so hand back the
    /// most recently completed transaction for one outbound write.  An
    /// empty queue (a scheduling race) is a logged no-op.
    pub fn dequeue_response(&mut self) -> (r: Option<Transaction>)
        requires
            old(self).wf(),
        ensures
            final(self).wf(),
            Self::same_config(*old(self), *final(self)),
            final(self).requests == old(self).requests,
            old(self).responses@.len() == 0 ==> (r is None && final(self).responses@ == old(
                self).responses@),
            old(self).responses@.len() > 0 ==> {
                &&& r == Some(old(self).responses@.last())
                &&& final(self).responses@ == old(self).responses@.drop_last()
            },
            r matches Some(t) ==> (t.wf() && t.state is Completed && t.reply is Some),
    {
        self.responses.pop()
    }

    /// Readiness dispatch for the listening socket: accept one datagram
    /// if readable, drain one response if writable, and re-arm — read
    /// always, write exactly while responses remain.
    pub fn server_ready(
        &mut self,
        readable: bool,
        writable: bool,
        datagram: Option<Datagram>,
        now: u64,
    ) -> (out: ServerOutcome)
        requires
            old(self).wf(),
            datagram is Some ==> readable,
            datagram matches Some(d) ==> d.bytes@.len() <= MAX_DATAGRAM_BYTES,
            now + old(self).timeout_ms <= u64::MAX,
        ensures
            final(self).wf(),
            Self::same_config(*old(self), *final(self)),
            final(self).rearm_ok(out.rearm),
            out.accept is NotReady <==> datagram is None,
            out.accept is TableFull <==> (datagram is Some && old(self).requests.is_full()),
            (out.accept is NotReady || out.accept is TableFull) ==> final(self).requests == old(
                self).requests,
            out.accept matches AcceptOutcome::Forwarded(f) ==> (datagram matches Some(d) && accepts(
                *old(self),
                final(self).requests,
                d,
                now,
                f,
            )),
            (writable && old(self).responses@.len() > 0) ==> {
                &&& out.response == Some(old(self).responses@.last())
                &&& final(self).responses@ == old(self).responses@.drop_last()
            },
            !(writable && old(self).responses@.len() > 0) ==> (out.response is None && final(
                self).responses@ == old(self).responses@),
            out.response matches Some(t) ==> (t.wf() && t.state is Completed && t.reply is Some),
    {
        let accept = self.accept(datagram, now);
        let response = if writable {
            self.dequeue_response()
        } else {
            None
        };
        let rearm = Interest { read: true, write: !self.responses.is_empty() };
        ServerOutcome { accept, response, rearm }
    }

    /// Readiness dispatch for a transaction token: the upstream
    /// collaborator reports reply bytes or nothing yet.  A reply
    /// completes the transaction and moves it to the response queue; a
    /// token that addresses nothing is the expected completion race and
    /// changes nothing.
    pub fn request_ready(&mut self, token: usize, upstream_reply: Option<Vec<u8>>) -> (out:
        DispatchOutcome)
        requires
            old(self).wf(),
        ensures
            final(self).wf(),
            Self::same_config(*old(self), *final(self)),
            final(self).rearm_ok(out.rearm),
            out.stale <==> !old(self).requests.live(token as int),
            out.queued <==> (old(self).requests.live(token as int) && upstream_reply is Some),
            !out.queued ==> *final(self) == *old(self),
            out.queued ==> (upstream_reply matches Some(bytes) && completes_token(
                *old(self),
                *final(self),
                token as int,
                Reply::Upstream(bytes),
            )),
    {
        let stale = !self.requests.contains(token);
        let mut queued = false;
        if let Some(bytes) = upstream_reply {
            if let Some(mut tx) = self.requests.remove(token) {
                proof {
                    old(self).requests.lemma_live(token as int);
                }
                tx.complete_with_reply(bytes);
                self.responses.push(tx);
                queued = true;
            }
        }
        let rearm = Interest { read: true, write: !self.responses.is_empty() };
        DispatchOutcome { queued, stale, rearm }
    }

    /// Timeout delivery for a token.  A live transaction completes with
    /// the timeout marker and is queued exactly as a real reply would
    /// be; a token that addresses nothing (the transaction already
    /// completed) is the expected race — logged by the caller, nothing
    /// changes, never fatal.
    pub fn timeout(&mut self, token: usize) -> (out: DispatchOutcome)
        requires
            old(self).wf(),
        ensures
            final(self).wf(),
            Self::same_config(*old(self), *final(self)),
            final(self).rearm_ok(out.rearm),
            out.stale <==> !old(self).requests.live(token as int),
            out.queued <==> old(self).requests.live(token as int),
            !out.queued ==> *final(self) == *old(self),
            out.queued ==> completes_token(
                *old(self),
                *final(self),
                token as int,
                Reply::TimedOut,
            ),
    {
        let stale = !self.requests.contains(token);
        let mut queued = false;
        if let Some(mut tx) = self.requests.remove(token) {
            proof {
                old(self).requests.lemma_live(token as int);
            }
            tx.complete_with_timeout();
            self.responses.push(tx);
            queued = true;
        }
        let rearm = Interest { read: true, write: !self.responses.is_empty() };
        DispatchOutcome { queued, stale, rearm }
    }
}

/// `post_table` is `pre`'s table with one new transaction for datagram
/// `d`, and `f` is the matching forward directive: send the same bytes
/// to the configured resolver, with the deadline `now` plus the
/// configured timeout.
pub open spec fn accepts(
    pre: Reactor,
    post_table: TransactionTable,
    d: Datagram,
    now: u64,
    f: Forward,
) -> bool {
    &&& inserted(
        pre.requests,
        post_table,
        f.token as int,
        (Transaction {
            token: f.token,
            origin: d.origin,
            query_bytes: d.bytes,
            upstream_target: pre.upstream_server,
            deadline: (now + pre.timeout_ms) as u64,
            reply: None,
            state: TransactionState::AwaitingUpstreamOrTimeout,
        }),
    )
    &&& f.upstream_target == pre.upstream_server
    &&& f.query_bytes@ == d.bytes@
    &&& f.deadline == now + pre.timeout_ms
}

/// One event moved `token`'s transaction out of the table and onto the
/// end of the response queue, completed with `reply`, touching nothing
/// else.
pub open spec fn completes_token(pre: Reactor, post: Reactor, token: int, reply: Reply) -> bool {
    &&& pre.requests.live(token)
    &&& !post.requests.live(token)
    &&& unchanged_except(pre.requests, post.requests, token)
    &&& post.responses@ == pre.responses@.push(
        (Transaction {
            state: TransactionState::Completed,
            reply: Some(reply),
            ..pre.requests.tx(token)
        }),
    )
    &&& post.upstream_server == pre.upstream_server
    &&& post.timeout_ms == pre.timeout_ms
}

/// At-most-once completion: once one event (reply or timeout) has moved
/// a token's transaction to the response queue, no later event can move
/// that token to the queue again — its token is no longer live, and a
/// second completion step for it is impossible until the token is
/// reassigned to a new transaction.
pub proof fn lemma_at_most_once_completion(
    pre: Reactor,
    mid: Reactor,
    post: Reactor,
    token: int,
    first_reply: Reply,
    second_reply: Reply,
)
    requires
        completes_token(pre, mid, token, first_reply),
    ensures
        !completes_token(mid, post, token, second_reply),
{
}

/// Which component `token` addresses: the dispatch decision of the
/// reactor's readiness handler.  Tokens 0 and 1 are the listening
/// sockets; everything else addresses a transaction.
pub fn classify_token(token: usize) -> (c: TokenClass)
    ensures
        c is UdpServer <==> token == UDP_SERVER_TOKEN,
        c is TcpServer <==> token == TCP_SERVER_TOKEN,
        c is Request <==> token >= FIRST_TOKEN,
{
    if token == UDP_SERVER_TOKEN {
        TokenClass::UdpServer
    } else if token == TCP_SERVER_TOKEN {
        TokenClass::TcpServer
    } else {
        TokenClass::Request
    }
}

/// The bytes of the one recognized control message, "Stop!".
pub open spec fn spec_stop_message() -> Seq<u8> {
    seq![0x53u8, 0x74u8, 0x6fu8, 0x70u8, 0x21u8]
}

/// Out-of-band control message from another thread.  Exactly the stop
/// message halts the event loop; anything else is logged by the caller
/// and ignored, not fatal.
pub fn notify(msg: &str) -> (stop: bool)
    ensures
        stop <==> msg.spec_bytes() == spec_stop_message(),
{
    let b = msg.as_bytes();
    if b.len() != 5 {
        proof {
            assert(b@ != spec_stop_message());
        }
        return false;
    }
    let r = b[0] == 0x53 && b[1] == 0x74 && b[2] == 0x6f && b[3] == 0x70 && b[4] == 0x21;
    proof {
        if r {
            assert(b@ =~= spec_stop_message());
        } else {
            assert(b@ != spec_stop_message());
        }
    }
    r
}

/// A fresh byte-for-byte copy of `v`.
fn copy_bytes(v: &Vec<u8>) -> (r: Vec<u8>)
    ensures
        r@ == v@,
{
    let mut r: Vec<u8> = Vec::new();
    let mut i: usize = 0;
    while i < v.len()
        invariant
            i <= v@.len(),
            r@ == v@.subrange(0, i as int),
        decreases v@.len() - i,
    {
        r.push(v[i]);
        proof {
            assert(r@ =~= v@.subrange(0, i + 1));
        }
        i += 1;
    }
    proof {
        assert(r@ =~= v@);
    }
    r
}

} // verus!
