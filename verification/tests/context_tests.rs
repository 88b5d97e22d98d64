use stock_metrics::errors::MetricsError;
use stock_metrics::smoother::{row_smoother_inputs, SmootherRun};
use stock_metrics::stock_data::{Bar, RowValues, StockContext};
use stock_metrics::window::{row_inputs, RowInputs};
use ta::indicators::{ExponentialMovingAverage, SimpleMovingAverage, StandardDeviation};
use ta::Next;

fn sample_bars() -> Vec<Bar> {
    let closes: [f64; 5] = [10.0, 11.0, 12.0, 0.5, 1.0];
    let mut bars: Vec<Bar> = Vec::new();
    for (i, c) in closes.iter().enumerate() {
        bars.push(Bar {
            timestamp: 1_700_000_000 + 86_400 * i as u64,
            open: (c - 0.25).to_bits(),
            high: (c + 0.5).to_bits(),
            low: (c - 0.5).to_bits(),
            close: c.to_bits(),
            adjclose: c.to_bits(),
            volume: 1_000 + i as u64,
        });
    }
    bars
}

fn sma_last(period: usize, window: &[u64]) -> f64 {
    let mut acc = SimpleMovingAverage::new(period).unwrap();
    let mut r: f64 = 0.0;
    for b in window {
        r = acc.next(f64::from_bits(*b));
    }
    r
}

fn ema_last(period: usize, window: &[u64]) -> f64 {
    let mut acc = ExponentialMovingAverage::new(period).unwrap();
    let mut r: f64 = 0.0;
    for b in window {
        r = acc.next(f64::from_bits(*b));
    }
    r
}

fn sd_last(period: usize, window: &[u64]) -> f64 {
    let mut acc = StandardDeviation::new(period).unwrap();
    let mut r: f64 = 0.0;
    for b in window {
        r = acc.next(f64::from_bits(*b));
    }
    r
}

/// The whole-series smoother's numeric fold over the library's input split;
/// the first row's degenerate empty seed divides by zero and propagates as a
/// non-finite value.
fn fold_smoother(run: &SmootherRun) -> f64 {
    let alpha: f64 = 2.0 / (run.window as f64 + 1.0);
    let seed_sum: f64 = run.seed.iter().map(|b| f64::from_bits(*b)).sum();
    let mut values: Vec<f64> = vec![seed_sum / run.window as f64];
    for b in &run.tail {
        let previous: f64 = values[values.len() - 1];
        values.push(f64::from_bits(*b) * alpha + previous * (1.0 - alpha));
    }
    let mut sum: f64 = 0.0;
    for v in &values {
        sum += *v;
    }
    sum / values.len() as f64
}

/// The indicator values of one position, as the engine's numeric glue
/// computes them over the library's windows.
fn row_values(bar: &Bar, closes: &Vec<u64>, pos: usize) -> RowValues {
    let close: f64 = f64::from_bits(bar.close);
    let inputs: RowInputs = row_inputs(closes, pos);
    let ema26: f64 = ema_last(26, &inputs.ema26);
    let ema12: f64 = ema_last(12, &inputs.ema12);
    let sd20: f64 = sd_last(20, &inputs.sd20);
    let momentum: f64 = close - 1.0;
    RowValues {
        ma7: sma_last(7, &inputs.ma7).to_bits(),
        ma21: sma_last(21, &inputs.ma21).to_bits(),
        ema26: ema26.to_bits(),
        ema12: ema12.to_bits(),
        mcad: (ema12 - ema26).to_bits(),
        sd20: sd20.to_bits(),
        upper_band: (close + sd20 * 2.0).to_bits(),
        lower_band: (close - sd20 * 2.0).to_bits(),
        ema: fold_smoother(&row_smoother_inputs(closes, pos)).to_bits(),
        momentum: momentum.to_bits(),
        log_momentum: momentum.log10().to_bits(),
    }
}

/// The numeric glue the engine runs around the library: one record per bar.
fn analyze(bars: &Vec<Bar>) -> StockContext {
    let closes: Vec<u64> = StockContext::closes_of(bars);
    let values: Vec<RowValues> = bars
        .iter()
        .enumerate()
        .map(|(pos, bar)| row_values(bar, &closes, pos))
        .collect();
    StockContext::new(bars, &values).unwrap()
}

#[test]
fn one_record_per_input_bar() {
    let bars = sample_bars();
    let ctx = analyze(&bars);
    assert_eq!(ctx.step_information.len(), bars.len());
}

#[test]
fn records_carry_their_bar_fields() {
    let bars = sample_bars();
    let ctx = analyze(&bars);
    // 1,700,000,000 epoch seconds is 2023-11-14T15:13:20 in MST; each later
    // bar is one day further on.
    let dates: [&str; 5] =
        ["2023-11-14", "2023-11-15", "2023-11-16", "2023-11-17", "2023-11-18"];
    for (i, step) in ctx.step_information.iter().enumerate() {
        assert_eq!(step.open, bars[i].open);
        assert_eq!(step.high, bars[i].high);
        assert_eq!(step.low, bars[i].low);
        assert_eq!(step.close, bars[i].close);
        assert_eq!(step.adjclose, bars[i].adjclose);
        assert_eq!(step.volume, bars[i].volume);
        assert_eq!(step.date, dates[i]);
    }
}

#[test]
fn a_miscounted_value_supply_is_rejected() {
    let bars = sample_bars();
    let closes: Vec<u64> = StockContext::closes_of(&bars);
    let values: Vec<RowValues> = vec![row_values(&bars[0], &closes, 0)];
    assert_eq!(
        StockContext::new(&bars, &values).unwrap_err(),
        MetricsError::InsufficientData { requested: 5, available: 1 }
    );
}

#[test]
fn closes_of_reads_the_close_of_every_bar() {
    let bars = sample_bars();
    let closes: Vec<u64> = StockContext::closes_of(&bars);
    assert_eq!(closes.len(), bars.len());
    for (i, c) in closes.iter().enumerate() {
        assert_eq!(*c, bars[i].close);
    }
    assert_eq!(f64::from_bits(closes[3]), 0.5);
}

#[test]
fn band_spread_is_four_standard_deviations() {
    let ctx = analyze(&sample_bars());
    for step in &ctx.step_information {
        let upper: f64 = f64::from_bits(step.upper_band);
        let lower: f64 = f64::from_bits(step.lower_band);
        let sd20: f64 = f64::from_bits(step.sd20);
        assert!((upper - lower - 4.0 * sd20).abs() <= 1e-9);
    }
}

#[test]
fn mcad_is_exactly_the_ema_spread() {
    let ctx = analyze(&sample_bars());
    for step in &ctx.step_information {
        let ema12: f64 = f64::from_bits(step.ema12);
        let ema26: f64 = f64::from_bits(step.ema26);
        let mcad: f64 = f64::from_bits(step.mcad);
        assert_eq!(mcad, ema12 - ema26);
    }
}

#[test]
fn momentum_is_the_literal_offset_and_log_momentum_degrades() {
    let ctx = analyze(&sample_bars());
    for step in &ctx.step_information {
        let close: f64 = f64::from_bits(step.close);
        let momentum: f64 = f64::from_bits(step.momentum);
        let log_momentum: f64 = f64::from_bits(step.log_momentum);
        assert_eq!(momentum, close - 1.0);
        if close <= 1.0 {
            assert!(!log_momentum.is_finite());
        } else {
            assert!(log_momentum.is_finite());
        }
    }
    // close 0.5 gives momentum -0.5, whose base-10 logarithm is undefined.
    let third = &ctx.step_information[3];
    assert_eq!(f64::from_bits(third.momentum), -0.5);
    assert!(f64::from_bits(third.log_momentum).is_nan());
    // close 1.0 gives momentum 0.0, whose base-10 logarithm is negative infinity.
    let fourth = &ctx.step_information[4];
    assert!(f64::from_bits(fourth.log_momentum).is_infinite());
}

#[test]
fn head_returns_the_first_records_in_order() {
    let ctx = analyze(&sample_bars());
    let first = ctx.head(2).unwrap();
    assert_eq!(first.len(), 2);
    assert_eq!(f64::from_bits(first[0].close), 10.0);
    assert_eq!(f64::from_bits(first[1].close), 11.0);
    assert_eq!(first[0].volume, 1000);
}

#[test]
fn tail_returns_the_last_records_in_original_order() {
    let ctx = analyze(&sample_bars());
    let last = ctx.tail(2).unwrap();
    assert_eq!(last.len(), 2);
    assert_eq!(f64::from_bits(last[0].close), 0.5);
    assert_eq!(f64::from_bits(last[1].close), 1.0);
}

#[test]
fn head_and_tail_reject_overlong_requests() {
    let ctx = analyze(&sample_bars());
    let err = ctx.head(6).unwrap_err();
    assert_eq!(err, MetricsError::OutOfRange { requested: 6, available: 5 });
    assert_eq!(err.description(), "requested more rows than available");
    assert_eq!(
        ctx.tail(6).unwrap_err(),
        MetricsError::OutOfRange { requested: 6, available: 5 }
    );
}

#[test]
fn whole_series_field_matches_the_row_indexed_smoother() {
    let bars = sample_bars();
    let closes: Vec<u64> = StockContext::closes_of(&bars);
    let ctx = analyze(&bars);
    // Row zero's degenerate seed propagates as a non-finite value.
    assert!(f64::from_bits(ctx.step_information[0].ema).is_nan());
    for pos in 1..bars.len() {
        let expected: f64 = fold_smoother(&row_smoother_inputs(&closes, pos));
        assert_eq!(f64::from_bits(ctx.step_information[pos].ema), expected);
    }
}
