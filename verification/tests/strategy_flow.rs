use quant_mini::event::TradeEvent;
use quant_mini::metrics::Metrics;
use quant_mini::signal::PositionState;
use quant_mini::signal::Signal;
use quant_mini::strategy::evaluate;
use quant_mini::strategy::latency_of;
use quant_mini::strategy::Engine;
use quant_mini::window::PriceWindow;

fn event_at(id: u64, price: i64, time_ms: u64) -> TradeEvent {
    TradeEvent::new(String::from("btcusdt"), id, price, 1, time_ms, false)
}

#[test]
fn crossover_buys_then_sells() {
    let mut engine = Engine::new(50, 10);
    let mut metrics = Metrics::new();
    for i in 0..50u64 {
        let signal = engine.on_event(&mut metrics, &event_at(i, 100, 1_000), 1_005);
        assert_eq!(signal, Signal::Hold);
    }
    assert_eq!(engine.position(), PositionState::Flat);
    assert!(engine.window().is_full());
    assert_eq!(engine.window().mean(), 100);

    let signal = engine.on_event(&mut metrics, &event_at(50, 101, 2_000), 2_007);
    assert_eq!(signal, Signal::Buy);
    assert_eq!(engine.position(), PositionState::Long);
    assert_eq!(engine.ledger().quantity(), 1);
    assert_eq!(engine.ledger().cash(), -101);
    assert_eq!(engine.ledger().equity(101), 0);

    let signal = engine.on_event(&mut metrics, &event_at(51, 98, 3_000), 3_011);
    assert_eq!(signal, Signal::Sell);
    assert_eq!(engine.position(), PositionState::Flat);
    assert_eq!(engine.ledger().quantity(), 0);
    assert_eq!(engine.ledger().cash(), -3);
    assert_eq!(engine.ledger().equity(98), -3);

    let snapshot = metrics.snapshot();
    assert_eq!(snapshot.trades_total, 52);
    assert_eq!(snapshot.decisions_total, 2);
    assert_eq!(snapshot.fills_total, 2);
    assert_eq!(snapshot.pnl, -3);
    assert_eq!(snapshot.last_price, 98);
    assert_eq!(metrics.latency_count(), 2);
    // the two decisions took 7 and 11 milliseconds
    assert_eq!(snapshot.latency_p50, 7);
    assert_eq!(snapshot.latency_p90, 11);
    assert_eq!(snapshot.latency_p99, 11);
}

#[test]
fn decision_latency_reaches_the_histogram() {
    let mut engine = Engine::new(2, 0);
    let mut metrics = Metrics::new();
    assert_eq!(engine.on_event(&mut metrics, &event_at(0, 10, 5_000), 5_300), Signal::Hold);
    assert_eq!(metrics.snapshot().latency_p99, 0);
    // a buy, decided 640 milliseconds after the trade
    assert_eq!(engine.on_event(&mut metrics, &event_at(1, 20, 6_000), 6_640), Signal::Buy);
    let snapshot = metrics.snapshot();
    assert_eq!(snapshot.latency_p50, 640);
    assert_eq!(snapshot.latency_p99, 640);
    // a sell whose stamp lies ahead of the clock counts as no latency
    assert_eq!(engine.on_event(&mut metrics, &event_at(2, 5, 9_000), 8_000), Signal::Sell);
    let snapshot = metrics.snapshot();
    assert_eq!(snapshot.latency_p50, 0);
    assert_eq!(snapshot.latency_p90, 640);
    assert_eq!(metrics.latency_count(), 2);
}

#[test]
fn first_events_never_decide() {
    let mut engine = Engine::new(5, 0);
    let mut metrics = Metrics::new();
    let prices = [10, 1_000, 1, 50_000];
    for (i, price) in prices.iter().enumerate() {
        let signal = engine.on_event(&mut metrics, &event_at(i as u64, *price, 0), 0);
        assert_eq!(signal, Signal::Hold);
    }
    assert_eq!(metrics.snapshot().decisions_total, 0);
    assert_eq!(metrics.snapshot().trades_total, 4);
    // the fifth event fills the window and may decide
    let signal = engine.on_event(&mut metrics, &event_at(4, 60_000, 0), 0);
    assert_eq!(signal, Signal::Buy);
}

#[test]
fn constant_price_never_trades() {
    let mut engine = Engine::new(3, 10);
    let mut metrics = Metrics::new();
    for i in 0..20u64 {
        let signal = engine.on_event(&mut metrics, &event_at(i, 25_000, i), i + 1);
        assert_eq!(signal, Signal::Hold);
    }
    assert_eq!(engine.position(), PositionState::Flat);
    assert_eq!(engine.ledger().cash(), 0);
    assert_eq!(metrics.snapshot().decisions_total, 0);
    assert_eq!(metrics.latency_count(), 0);
}

#[test]
fn constant_price_with_zero_threshold_never_trades() {
    let mut engine = Engine::new(2, 0);
    let mut metrics = Metrics::new();
    for i in 0..6u64 {
        let signal = engine.on_event(&mut metrics, &event_at(i, -7, 0), 0);
        assert_eq!(signal, Signal::Hold);
    }
}

#[test]
fn price_on_band_edge_holds() {
    // four prices of 1000 and one of 1005 give a sum of 5005; with a band of
    // 100 basis points the upper edge is 1001 * 1.01 = 1011.01
    let mut window = PriceWindow::new(5);
    for price in [1000, 1000, 1000, 1000, 1005] {
        window.push(price);
    }
    assert_eq!(evaluate(PositionState::Flat, &window, 1005, 100), Signal::Hold);
    assert_eq!(evaluate(PositionState::Flat, &window, 1011, 100), Signal::Hold);
    assert_eq!(evaluate(PositionState::Flat, &window, 1012, 100), Signal::Buy);
    // lower edge is 1001 * 0.99 = 990.99
    assert_eq!(evaluate(PositionState::Long, &window, 991, 100), Signal::Hold);
    assert_eq!(evaluate(PositionState::Long, &window, 990, 100), Signal::Sell);
    // the position decides which edge counts
    assert_eq!(evaluate(PositionState::Long, &window, 1012, 100), Signal::Hold);
    assert_eq!(evaluate(PositionState::Flat, &window, 990, 100), Signal::Hold);
}

#[test]
fn exact_edge_does_not_trigger() {
    // mean 10000 and 100 basis points: the edges are exactly 10100 and 9900
    let mut window = PriceWindow::new(2);
    window.push(10_000);
    window.push(10_000);
    assert_eq!(evaluate(PositionState::Flat, &window, 10_100, 100), Signal::Hold);
    assert_eq!(evaluate(PositionState::Flat, &window, 10_101, 100), Signal::Buy);
    assert_eq!(evaluate(PositionState::Long, &window, 9_900, 100), Signal::Hold);
    assert_eq!(evaluate(PositionState::Long, &window, 9_899, 100), Signal::Sell);
}

#[test]
fn band_wider_than_the_mean() {
    // 20000 basis points put the lower edge at minus the mean
    let mut window = PriceWindow::new(2);
    window.push(100);
    window.push(100);
    assert_eq!(evaluate(PositionState::Long, &window, 1, 20_000), Signal::Hold);
    assert_eq!(evaluate(PositionState::Long, &window, -100, 20_000), Signal::Hold);
    assert_eq!(evaluate(PositionState::Long, &window, -101, 20_000), Signal::Sell);
    assert_eq!(evaluate(PositionState::Flat, &window, 300, 20_000), Signal::Hold);
    assert_eq!(evaluate(PositionState::Flat, &window, 301, 20_000), Signal::Buy);
}

#[test]
fn window_not_full_holds() {
    let mut window = PriceWindow::new(3);
    window.push(1);
    window.push(1);
    assert_eq!(evaluate(PositionState::Flat, &window, 1_000_000, 0), Signal::Hold);
}

#[test]
fn extreme_prices_do_not_overflow() {
    let mut engine = Engine::new(2, u32::MAX);
    let mut metrics = Metrics::new();
    assert_eq!(engine.on_event(&mut metrics, &event_at(0, i64::MIN, 0), 0), Signal::Hold);
    // mean is i64::MIN; a band of u32::MAX basis points puts the upper edge far below
    assert_eq!(engine.on_event(&mut metrics, &event_at(1, i64::MIN, 0), 0), Signal::Buy);
    assert_eq!(engine.ledger().cash(), -(i64::MIN as i128));
    assert_eq!(engine.on_event(&mut metrics, &event_at(2, i64::MAX, 0), 0), Signal::Hold);
    assert_eq!(engine.ledger().equity(i64::MAX), -(i64::MIN as i128) + i64::MAX as i128);
}

#[test]
fn negative_constant_price_leaves_the_band() {
    // below zero the upper edge lies under the mean, so a constant price buys
    let mut engine = Engine::new(1, 10);
    let mut metrics = Metrics::new();
    assert_eq!(engine.on_event(&mut metrics, &event_at(0, -1, 0), 0), Signal::Buy);
    assert_eq!(engine.on_event(&mut metrics, &event_at(1, -1, 0), 0), Signal::Sell);
}

#[test]
fn latency_is_clamped_at_zero() {
    assert_eq!(latency_of(1_000, 400), 600);
    assert_eq!(latency_of(400, 400), 0);
    assert_eq!(latency_of(400, 1_000), 0);
    assert_eq!(latency_of(u64::MAX, 0), u64::MAX);
}

#[test]
fn decisions_match_latency_samples() {
    let mut engine = Engine::new(2, 0);
    let mut metrics = Metrics::new();
    let prices = [10, 10, 20, 5, 30, 1, 1, 1, 40];
    let mut decided = 0u64;
    for (i, price) in prices.iter().enumerate() {
        let signal = engine.on_event(&mut metrics, &event_at(i as u64, *price, 100), 100 + i as u64);
        if signal != Signal::Hold {
            decided += 1;
        }
    }
    assert_eq!(decided, 5);
    let snapshot = metrics.snapshot();
    assert_eq!(snapshot.trades_total, prices.len() as u64);
    assert_eq!(snapshot.decisions_total, decided);
    assert_eq!(snapshot.fills_total, decided);
    assert_eq!(metrics.latency_count(), decided);
}

#[test]
fn engine_reports_its_configuration() {
    let engine = Engine::new(7, 25);
    assert_eq!(engine.threshold_bps(), 25);
    assert_eq!(engine.window().capacity(), 7);
    assert_eq!(engine.window().len(), 0);
    assert!(engine.has_room());
    assert_eq!(engine.position(), PositionState::Flat);
}
