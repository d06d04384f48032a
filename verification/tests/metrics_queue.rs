use quant_mini::event::TradeEvent;
use quant_mini::metrics::Metrics;
use quant_mini::queue::EventQueue;
use quant_mini::queue::Received;
use quant_mini::queue::SendOutcome;
use tokio::sync::mpsc::error::TryRecvError;
use tokio::sync::mpsc::error::TrySendError;

fn event(id: u64) -> TradeEvent {
    TradeEvent::new(String::from("ethusdt"), id, 100 + id as i64, 2, 1_000 + id, id % 2 == 0)
}

fn received_id(received: Received) -> Option<u64> {
    match received {
        Received::Event(e) => Some(e.trade_id()),
        Received::Empty => None,
        Received::Closed => None,
    }
}

#[test]
fn fresh_metrics_are_zero() {
    let metrics = Metrics::new();
    let snapshot = metrics.snapshot();
    assert_eq!(snapshot.trades_total, 0);
    assert_eq!(snapshot.decisions_total, 0);
    assert_eq!(snapshot.fills_total, 0);
    assert_eq!(snapshot.pnl, 0);
    assert_eq!(snapshot.last_price, 0);
    assert_eq!(snapshot.latency_p50, 0);
    assert_eq!(snapshot.latency_p90, 0);
    assert_eq!(snapshot.latency_p99, 0);
    assert_eq!(metrics.latency_count(), 0);
    assert!(metrics.has_room());
}

#[test]
fn counters_and_gauges_follow_writes() {
    let mut metrics = Metrics::new();
    metrics.incr_trades();
    metrics.incr_trades();
    metrics.incr_trades();
    metrics.incr_decisions();
    metrics.incr_decisions();
    metrics.incr_fills();
    metrics.set_last_price(42);
    metrics.set_last_price(-17);
    metrics.set_pnl(5);
    metrics.set_pnl(-900);
    let snapshot = metrics.snapshot();
    assert_eq!(snapshot.trades_total, 3);
    assert_eq!(snapshot.decisions_total, 2);
    assert_eq!(snapshot.fills_total, 1);
    assert_eq!(snapshot.last_price, -17);
    assert_eq!(snapshot.pnl, -900);
    assert_eq!(metrics.latency_count(), 0);
}

#[test]
fn latency_samples_are_counted() {
    let mut metrics = Metrics::new();
    for ms in [5u64, 5, 7, 1_000_000, 0, u64::MAX] {
        metrics.record_latency(ms);
    }
    assert_eq!(metrics.latency_count(), 6);
    assert_eq!(metrics.snapshot().trades_total, 0);
}

#[test]
fn percentiles_of_ten_to_thousand() {
    let mut metrics = Metrics::new();
    for i in 1..=100u64 {
        metrics.record_latency(10 * i);
    }
    let snapshot = metrics.snapshot();
    assert_eq!(snapshot.latency_p50, 500);
    assert_eq!(snapshot.latency_p90, 900);
    assert_eq!(snapshot.latency_p99, 990);
}

#[test]
fn default_metrics_are_fresh() {
    let metrics = Metrics::default();
    assert_eq!(metrics.snapshot(), Metrics::new().snapshot());
    assert_eq!(metrics.latency_count(), 0);
}

#[test]
fn percentiles_keep_three_significant_digits() {
    let mut metrics = Metrics::new();
    metrics.record_latency(1_000_000);
    let snapshot = metrics.snapshot();
    for value in [snapshot.latency_p50, snapshot.latency_p90, snapshot.latency_p99] {
        assert!(value >= 1_000_000);
        assert!(value - 1_000_000 <= 1_000);
    }
}

#[test]
fn extreme_latencies_are_taken() {
    let mut metrics = Metrics::new();
    metrics.record_latency(u64::MAX);
    metrics.record_latency(0);
    metrics.record_latency(1 << 63);
    assert_eq!(metrics.latency_count(), 3);
    let snapshot = metrics.snapshot();
    assert_eq!(snapshot.latency_p50, (1u64 << 63) + ((1u64 << 53) - 1));
    assert!(snapshot.latency_p99 >= u64::MAX - (1 << 53));
}

#[test]
fn percentiles_are_in_order() {
    let mut metrics = Metrics::new();
    let mut state: u64 = 12_345;
    for _ in 0..500 {
        state = state.wrapping_mul(6_364_136_223_846_793_005).wrapping_add(1_442_695_040_888_963_407);
        metrics.record_latency(state >> 40);
        let snapshot = metrics.snapshot();
        assert!(snapshot.latency_p50 <= snapshot.latency_p90);
        assert!(snapshot.latency_p90 <= snapshot.latency_p99);
    }
    assert_eq!(metrics.latency_count(), 500);
}

#[test]
fn neighbours_share_a_slot() {
    // from 2048 on three digits no longer tell every value apart
    let mut metrics = Metrics::new();
    metrics.record_latency(2_048);
    metrics.record_latency(2_049);
    assert_eq!(metrics.latency_count(), 2);
    let snapshot = metrics.snapshot();
    assert_eq!(snapshot.latency_p50, 2_049);
    assert_eq!(snapshot.latency_p99, 2_049);
    metrics.record_latency(2_047);
    assert_eq!(metrics.snapshot().latency_p50, 2_049);
    metrics.record_latency(2_046);
    assert_eq!(metrics.snapshot().latency_p50, 2_047);
}

#[test]
fn slot_of_a_latency() {
    let metrics = Metrics::new();
    for ms in [0u64, 1, 7, 11, 640, 2_046, 2_047, 2_048] {
        assert_eq!(metrics.latency_slot(ms), ms);
    }
    assert_eq!(metrics.latency_slot(2_049), 2_048);
    assert_eq!(metrics.latency_slot(2_050), 2_050);
    assert_eq!(metrics.latency_slot(4_095), 4_094);
    assert_eq!(metrics.latency_slot(4_099), 4_096);
    assert_eq!(metrics.latency_slot(1_000_000), 999_936);
    assert_eq!(metrics.latency_slot(u64::MAX), 2_047u64 << 53);
}

#[test]
fn percentile_stays_in_the_slot_of_its_sample() {
    for ms in [3u64, 2_049, 77_777, 1_000_000, 1 << 40, u64::MAX - 1, u64::MAX] {
        let mut metrics = Metrics::new();
        metrics.record_latency(ms);
        let snapshot = metrics.snapshot();
        assert!(metrics.latency_slot(ms) <= snapshot.latency_p50);
        assert_eq!(metrics.latency_slot(snapshot.latency_p50), metrics.latency_slot(ms));
        // three digits: the slot is narrower than a thousandth of the value
        assert!(snapshot.latency_p50 - metrics.latency_slot(ms) <= ms / 1_000);
        assert_eq!(snapshot.latency_p50, snapshot.latency_p99);
    }
    // the estimate is the top of the slot, but for the topmost slot, whose
    // top the histogram gives as one less
    let mut metrics = Metrics::new();
    metrics.record_latency(2_048);
    assert_eq!(metrics.snapshot().latency_p50, 2_049);
    let mut metrics = Metrics::new();
    metrics.record_latency(u64::MAX);
    assert_eq!(metrics.snapshot().latency_p50, u64::MAX - 1);
}

#[test]
fn snapshot_is_a_copy() {
    let mut metrics = Metrics::new();
    metrics.incr_trades();
    let before = metrics.snapshot();
    metrics.incr_trades();
    metrics.record_latency(9);
    assert_eq!(before.trades_total, 1);
    assert_eq!(before.latency_p50, 0);
    assert_eq!(metrics.snapshot().trades_total, 2);
    assert_eq!(metrics.snapshot().latency_p50, 9);
}

#[test]
fn queue_is_first_in_first_out() {
    let mut queue = EventQueue::new(4);
    assert!(queue.is_empty());
    assert_eq!(queue.capacity(), 4);
    for id in 0..3 {
        assert_eq!(queue.try_send(event(id)), SendOutcome::Sent);
    }
    assert_eq!(queue.len(), 3);
    for id in 0..3 {
        assert_eq!(received_id(queue.recv()), Some(id));
    }
    assert!(matches!(queue.recv(), Received::Empty));
}

#[test]
fn full_queue_drops_the_new_event() {
    let capacity = 8usize;
    let mut queue = EventQueue::new(capacity);
    let mut dropped = 0;
    for id in 0..(capacity as u64 + 1) {
        match queue.try_send(event(id)) {
            SendOutcome::Sent => {}
            SendOutcome::Full => dropped += 1,
            SendOutcome::Closed => panic!("queue is open"),
        }
    }
    assert_eq!(dropped, 1);
    assert_eq!(queue.len(), capacity);
    for id in 0..capacity as u64 {
        assert_eq!(received_id(queue.recv()), Some(id));
    }
    assert!(matches!(queue.recv(), Received::Empty));
}

#[test]
fn receiving_makes_room() {
    let mut queue = EventQueue::new(1);
    assert_eq!(queue.try_send(event(1)), SendOutcome::Sent);
    assert_eq!(queue.try_send(event(2)), SendOutcome::Full);
    assert_eq!(received_id(queue.recv()), Some(1));
    assert_eq!(queue.try_send(event(3)), SendOutcome::Sent);
    assert_eq!(received_id(queue.recv()), Some(3));
}

#[test]
fn closed_queue_drains_then_ends() {
    let mut queue = EventQueue::new(2);
    assert_eq!(queue.try_send(event(1)), SendOutcome::Sent);
    assert!(!queue.is_closed());
    queue.close();
    assert!(queue.is_closed());
    assert_eq!(queue.try_send(event(2)), SendOutcome::Closed);
    assert_eq!(queue.len(), 1);
    assert_eq!(received_id(queue.recv()), Some(1));
    assert!(matches!(queue.recv(), Received::Closed));
    assert!(matches!(queue.recv(), Received::Closed));
}

#[test]
fn cloned_event_has_the_same_fields() {
    let e = event(9);
    let copy = e.clone();
    assert_eq!(copy.symbol(), e.symbol());
    assert_eq!(copy.trade_id(), 9);
    assert_eq!(copy.price(), e.price());
    assert_eq!(copy.quantity(), e.quantity());
    assert_eq!(copy.exchange_time_ms(), e.exchange_time_ms());
    assert_eq!(copy.is_buyer_maker(), e.is_buyer_maker());
}

#[test]
fn event_keeps_its_fields() {
    let e = TradeEvent::new(String::from("btcusdt"), 77, 6_543_210_000_000, 150_000, 1_700_000_000_123, true);
    assert_eq!(e.symbol(), "btcusdt");
    assert_eq!(e.trade_id(), 77);
    assert_eq!(e.price(), 6_543_210_000_000);
    assert_eq!(e.quantity(), 150_000);
    assert_eq!(e.exchange_time_ms(), 1_700_000_000_123);
    assert!(e.is_buyer_maker());
}

#[test]
fn queue_agrees_with_a_bounded_channel() {
    let capacity = 3usize;
    let mut queue = EventQueue::new(capacity);
    let (tx, mut rx) = tokio::sync::mpsc::channel::<u64>(capacity);
    // a fixed, irregular mix of sends and receives
    let mut state: u64 = 0x9E37_79B9_7F4A_7C15;
    for id in 0..2_000u64 {
        state = state.wrapping_mul(6_364_136_223_846_793_005).wrapping_add(1_442_695_040_888_963_407);
        if (state >> 33) % 3 != 0 {
            let ours = queue.try_send(event(id));
            match tx.try_send(id) {
                Ok(()) => assert_eq!(ours, SendOutcome::Sent),
                Err(TrySendError::Full(_)) => assert_eq!(ours, SendOutcome::Full),
                Err(TrySendError::Closed(_)) => panic!("the channel is open"),
            }
        } else {
            let ours = queue.recv();
            match rx.try_recv() {
                Ok(theirs) => assert_eq!(received_id(ours), Some(theirs)),
                Err(TryRecvError::Empty) => assert!(matches!(ours, Received::Empty)),
                Err(TryRecvError::Disconnected) => panic!("the channel is open"),
            }
        }
    }
    // the feed ends: what is queued still arrives, then the end is reported
    queue.close();
    drop(tx);
    loop {
        let ours = queue.recv();
        match rx.try_recv() {
            Ok(theirs) => assert_eq!(received_id(ours), Some(theirs)),
            Err(TryRecvError::Disconnected) => {
                assert!(matches!(ours, Received::Closed));
                break;
            }
            Err(TryRecvError::Empty) => panic!("the channel is closed"),
        }
    }
}
