use koala_dns::reactor::classify_token;
use koala_dns::reactor::notify;
use koala_dns::reactor::AcceptOutcome;
use koala_dns::reactor::Datagram;
use koala_dns::reactor::Reactor;
use koala_dns::reactor::TokenClass;
use koala_dns::table::TransactionTable;
use koala_dns::table::FIRST_TOKEN;
use koala_dns::transaction::Addr;
use koala_dns::transaction::Reply;
use koala_dns::transaction::Transaction;
use koala_dns::transaction::TransactionState;

fn addr(ip: u32, port: u16) -> Addr {
    Addr { ip, port }
}

fn upstream() -> Addr {
    addr(0x0808_0808, 53)
}

fn tx(origin: Addr, bytes: &[u8]) -> Transaction {
    Transaction::new(0, origin, bytes.to_vec(), upstream(), 1_000)
}

fn datagram(origin: Addr, bytes: &[u8]) -> Option<Datagram> {
    Some(Datagram { origin, bytes: bytes.to_vec() })
}

fn forwarded(out: AcceptOutcome) -> koala_dns::reactor::Forward {
    match out {
        AcceptOutcome::Forwarded(f) => f,
        AcceptOutcome::TableFull => panic!("table full"),
        AcceptOutcome::NotReady => panic!("not ready"),
    }
}

#[test]
fn transaction_lifecycle() {
    let origin = addr(1, 1000);
    let mut t = tx(origin, &[1, 2, 3]);
    assert_eq!(t.state, TransactionState::Received);
    assert!(!t.has_reply());
    t.mark_forwarded();
    assert_eq!(t.state, TransactionState::AwaitingUpstreamOrTimeout);
    assert!(!t.has_reply());
    t.complete_with_reply(vec![9, 9]);
    assert_eq!(t.state, TransactionState::Completed);
    assert!(t.has_reply());
    match t.reply {
        Some(Reply::Upstream(b)) => assert_eq!(b, vec![9, 9]),
        _ => panic!("expected an upstream reply"),
    }
}

#[test]
fn transaction_timeout_reply() {
    let mut t = tx(addr(1, 1000), &[1]);
    t.mark_forwarded();
    t.complete_with_timeout();
    assert!(t.has_reply());
    assert!(matches!(t.reply, Some(Reply::TimedOut)));
    assert_eq!(t.state, TransactionState::Completed);
}

#[test]
fn table_allocates_lowest_free_token() {
    let mut table = TransactionTable::new(8);
    let t0 = table.insert(tx(addr(1, 1), &[1])).unwrap();
    let t1 = table.insert(tx(addr(2, 2), &[2])).unwrap();
    let t2 = table.insert(tx(addr(3, 3), &[3])).unwrap();
    assert_eq!(t0, FIRST_TOKEN);
    assert_eq!(t1, FIRST_TOKEN + 1);
    assert_eq!(t2, FIRST_TOKEN + 2);
    // free the middle token: it is the lowest free one and is reused
    assert!(table.remove(t1).is_some());
    assert!(!table.contains(t1));
    let t1_again = table.insert(tx(addr(4, 4), &[4])).unwrap();
    assert_eq!(t1_again, t1);
}

#[test]
fn table_tokens_unique_and_stable() {
    let mut table = TransactionTable::new(8);
    let a = table.insert(tx(addr(1, 1), &[1])).unwrap();
    let b = table.insert(tx(addr(2, 2), &[2])).unwrap();
    assert_ne!(a, b);
    let got_a = table.remove(a).unwrap();
    let got_b = table.remove(b).unwrap();
    assert_eq!(got_a.token, a);
    assert_eq!(got_b.token, b);
    assert_eq!(got_a.origin, addr(1, 1));
    assert_eq!(got_b.origin, addr(2, 2));
}

#[test]
fn table_remove_of_absent_token_is_noop() {
    let mut table = TransactionTable::new(4);
    assert!(table.remove(0).is_none());
    assert!(table.remove(FIRST_TOKEN).is_none());
    assert!(table.remove(usize::MAX).is_none());
    let a = table.insert(tx(addr(1, 1), &[1])).unwrap();
    assert!(table.remove(a + 1).is_none());
    assert!(table.contains(a));
    assert_eq!(table.count(), 1);
}

#[test]
fn table_capacity_boundary() {
    // Capacity boundary: inserting into a full table fails explicitly
    // and leaves every existing entry untouched.
    let mut table = TransactionTable::new(3);
    let mut tokens = Vec::new();
    for i in 0..3u32 {
        tokens.push(table.insert(tx(addr(i, 1), &[i as u8])).unwrap());
    }
    assert_eq!(table.count(), 3);
    assert!(table.insert(tx(addr(9, 9), &[9])).is_none());
    assert_eq!(table.count(), 3);
    for (i, tok) in tokens.iter().enumerate() {
        assert!(table.contains(*tok));
        let got = table.remove(*tok).unwrap();
        assert_eq!(got.origin, addr(i as u32, 1));
        assert_eq!(got.query_bytes, vec![i as u8]);
    }
}

#[test]
fn zero_capacity_table_rejects_everything() {
    let mut table = TransactionTable::new(0);
    assert!(table.insert(tx(addr(1, 1), &[1])).is_none());
    assert_eq!(table.count(), 0);
}

#[test]
fn count_tracks_inserts_and_removals() {
    let mut table = TransactionTable::new(5);
    assert_eq!(table.count(), 0);
    let a = table.insert(tx(addr(1, 1), &[1])).unwrap();
    let b = table.insert(tx(addr(2, 2), &[2])).unwrap();
    assert_eq!(table.count(), 2);
    table.remove(a).unwrap();
    assert_eq!(table.count(), 1);
    table.remove(b).unwrap();
    assert_eq!(table.count(), 0);
    // removing what is already gone does not change the count
    assert!(table.remove(a).is_none());
    assert_eq!(table.count(), 0);
}

#[test]
fn notify_compares_whole_bytes_not_prefixes() {
    // multi-byte text of the right character count is still not the
    // stop message
    assert!(!notify("Stöp!"));
    assert!(!notify("!potS"));
}

#[test]
fn classify_token_matches_reserved_tokens() {
    assert_eq!(classify_token(0), TokenClass::TcpServer);
    assert_eq!(classify_token(1), TokenClass::UdpServer);
    assert_eq!(classify_token(2), TokenClass::Request);
    assert_eq!(classify_token(65_535), TokenClass::Request);
}

#[test]
fn notify_recognizes_only_the_stop_message() {
    assert!(notify("Stop!"));
    assert!(!notify("stop!"));
    assert!(!notify("Stop"));
    assert!(!notify("Stop!!"));
    assert!(!notify(""));
    assert!(!notify("Pause"));
}

#[test]
fn scenario_single_query_immediate_reply() {
    // One client, upstream replies immediately: exactly one reply goes
    // back to the same origin, byte-identical to the upstream bytes.
    let origin = addr(0x7f00_0001, 40_000);
    let mut r = Reactor::new(upstream(), 500, 16);
    let out = r.server_ready(true, false, datagram(origin, &[0xAB, 0xCD]), 10);
    let f = forwarded(out.accept);
    assert_eq!(f.upstream_target, upstream());
    assert_eq!(f.query_bytes, vec![0xAB, 0xCD]);
    assert_eq!(f.deadline, 510);
    assert!(out.response.is_none());
    assert!(out.rearm.read && !out.rearm.write);

    let d = r.request_ready(f.token, Some(vec![0xAB, 0xCD, 0x01]));
    assert!(d.queued && !d.stale);
    assert!(d.rearm.read && d.rearm.write);

    let out2 = r.server_ready(false, true, None, 20);
    assert!(matches!(out2.accept, AcceptOutcome::NotReady));
    let reply = out2.response.expect("one reply must be pending");
    assert_eq!(reply.origin, origin);
    match reply.reply {
        Some(Reply::Upstream(b)) => assert_eq!(b, vec![0xAB, 0xCD, 0x01]),
        _ => panic!("expected the upstream bytes"),
    }
    // queue drained: write interest is dropped again
    assert!(out2.rearm.read && !out2.rearm.write);
    // and nothing else is pending
    let out3 = r.server_ready(false, true, None, 30);
    assert!(out3.response.is_none());
}

#[test]
fn scenario_timeout_synthesizes_one_reply_and_frees_token() {
    let origin = addr(5, 5000);
    let mut r = Reactor::new(upstream(), 100, 16);
    let f = forwarded(r.accept(datagram(origin, &[1, 2]), 0));
    // upstream never replies; the timeout fires
    let d = r.timeout(f.token);
    assert!(d.queued && !d.stale);
    assert!(d.rearm.read && d.rearm.write);
    let reply = r.dequeue_response().expect("timeout reply must be queued");
    assert_eq!(reply.origin, origin);
    assert!(matches!(reply.reply, Some(Reply::TimedOut)));
    // the token is free again and is reused by the next query
    let f2 = forwarded(r.accept(datagram(addr(6, 6000), &[3]), 50));
    assert_eq!(f2.token, f.token);
}

#[test]
fn scenario_two_clients_get_their_own_replies() {
    let origin_a = addr(10, 1111);
    let origin_b = addr(20, 2222);
    let mut r = Reactor::new(upstream(), 100, 16);
    let fa = forwarded(r.accept(datagram(origin_a, &[0xA]), 0));
    let fb = forwarded(r.accept(datagram(origin_b, &[0xB]), 0));
    assert_ne!(fa.token, fb.token);

    assert!(r.request_ready(fa.token, Some(vec![0xA, 0xA])).queued);
    assert!(r.request_ready(fb.token, Some(vec![0xB, 0xB])).queued);

    // drain both; each reply is addressed to its own origin, never swapped
    let mut seen = Vec::new();
    while let Some(t) = r.dequeue_response() {
        let bytes = match t.reply {
            Some(Reply::Upstream(b)) => b,
            _ => panic!("expected upstream bytes"),
        };
        seen.push((t.origin, bytes));
    }
    assert_eq!(seen.len(), 2);
    // drained most-recently-completed first
    assert_eq!(seen[0], (origin_b, vec![0xB, 0xB]));
    assert_eq!(seen[1], (origin_a, vec![0xA, 0xA]));
}

#[test]
fn scenario_full_table_drops_new_query_and_keeps_existing() {
    let mut r = Reactor::new(upstream(), 100, 2);
    let f1 = forwarded(r.accept(datagram(addr(1, 1), &[1]), 0));
    let f2 = forwarded(r.accept(datagram(addr(2, 2), &[2]), 0));
    let out = r.server_ready(true, false, datagram(addr(3, 3), &[3]), 0);
    assert!(matches!(out.accept, AcceptOutcome::TableFull));
    // no reply is produced for the dropped datagram
    assert!(out.response.is_none());
    assert!(out.rearm.read && !out.rearm.write);
    // previously tracked transactions are unaffected
    let d1 = r.request_ready(f1.token, Some(vec![11]));
    let d2 = r.request_ready(f2.token, Some(vec![22]));
    assert!(d1.queued && d2.queued);
    assert_eq!(r.dequeue_response().unwrap().origin, addr(2, 2));
    assert_eq!(r.dequeue_response().unwrap().origin, addr(1, 1));
}

#[test]
fn scenario_stale_timeout_after_completion_is_harmless() {
    let mut r = Reactor::new(upstream(), 100, 16);
    let f = forwarded(r.accept(datagram(addr(1, 1), &[1]), 0));
    assert!(r.request_ready(f.token, Some(vec![2])).queued);
    // the timeout for the already-completed transaction races in late
    let d = r.timeout(f.token);
    assert!(d.stale && !d.queued);
    // exactly one reply was queued for that token
    assert!(r.dequeue_response().is_some());
    assert!(r.dequeue_response().is_none());
}

#[test]
fn spurious_wakeups_change_nothing() {
    let mut r = Reactor::new(upstream(), 100, 16);
    // readable, but no datagram was actually there
    let out = r.server_ready(true, false, None, 0);
    assert!(matches!(out.accept, AcceptOutcome::NotReady));
    assert!(out.response.is_none());
    assert!(out.rearm.read && !out.rearm.write);
    // readiness for a token that was never allocated is stale, not fatal
    let d = r.request_ready(99, Some(vec![1]));
    assert!(d.stale && !d.queued);
    // a reply-less wakeup for a live token leaves it in flight
    let f = forwarded(r.accept(datagram(addr(1, 1), &[1]), 0));
    let d2 = r.request_ready(f.token, None);
    assert!(!d2.queued && !d2.stale);
    assert!(r.request_ready(f.token, Some(vec![2])).queued);
}

#[test]
fn rearm_requests_write_interest_while_queue_is_nonempty() {
    // Re-arm correctness: read interest always; write interest exactly
    // while the response queue is non-empty.
    let mut r = Reactor::new(upstream(), 100, 16);
    let f1 = forwarded(r.accept(datagram(addr(1, 1), &[1]), 0));
    let f2 = forwarded(r.accept(datagram(addr(2, 2), &[2]), 0));
    assert!(r.request_ready(f1.token, Some(vec![1])).rearm.write);
    assert!(r.timeout(f2.token).rearm.write);
    // draining one of two still leaves write interest on
    let out = r.server_ready(false, true, None, 0);
    assert!(out.response.is_some());
    assert!(out.rearm.read && out.rearm.write);
    // draining the last drops write interest
    let out2 = r.server_ready(false, true, None, 0);
    assert!(out2.response.is_some());
    assert!(out2.rearm.read && !out2.rearm.write);
}
