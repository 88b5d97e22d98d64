use vstd::prelude::*;
use crate::dates::convert_timestamp_to_mst;
use crate::dates::mst_date_of;
use crate::dates::MAX_TIMESTAMP;
use crate::errors::MetricsError;

verus! {

/// One input price bar. Price-valued fields hold the raw bits of the
/// machine's binary64 value; `timestamp` is a UTC epoch second and `volume` a
/// plain count. The caller-supplied order of a bar series is trusted as
/// chronologically ascending and never validated.
#[derive(Clone, Copy, Debug, PartialEq, Eq, Structural)]
pub struct Bar {
    pub timestamp: u64,
    pub open: u64,
    pub high: u64,
    pub low: u64,
    pub close: u64,
    pub adjclose: u64,
    pub volume: u64,
}

/// The indicator values computed for one position by the numeric kernels
/// outside this crate, as raw binary64 bits, in the order the engine derives
/// them.
#[derive(Clone, Copy, Debug, PartialEq, Eq, Structural)]
pub struct RowValues {
    pub ma7: u64,
    pub ma21: u64,
    pub ema26: u64,
    pub ema12: u64,
    pub mcad: u64,
    pub sd20: u64,
    pub upper_band: u64,
    pub lower_band: u64,
    pub ema: u64,
    pub momentum: u64,
    pub log_momentum: u64,
}

/// One derived record per price bar: the bar's own fields plus every
/// indicator the engine computes for that position. Each price-valued field
/// holds the raw bits of the machine's binary64 value; `volume` is a plain
/// count and `date` the bar's formatted calendar date.
#[derive(Debug)]
pub struct StockStepContext {
    pub date: String,
    pub open: u64,
    pub high: u64,
    pub low: u64,
    pub volume: u64,
    pub close: u64,
    pub adjclose: u64,
    /// Simple moving average over the clamped forward window of period 7.
    pub ma7: u64,
    /// Simple moving average over the clamped forward window of period 21.
    pub ma21: u64,
    /// Exponential moving average over the clamped forward window of period 26.
    pub ema26: u64,
    /// Exponential moving average over the clamped forward window of period 12.
    pub ema12: u64,
    /// The spread `ema12 - ema26`, taken from those two fields.
    pub mcad: u64,
    /// Rolling standard deviation over the clamped forward window of period 20.
    pub sd20: u64,
    /// `close + 2 * sd20`.
    pub upper_band: u64,
    /// `close - 2 * sd20`.
    pub lower_band: u64,
    /// The whole-series smoother's value at this position.
    pub ema: u64,
    /// `close - 1`, a literal offset.
    pub momentum: u64,
    /// The base-10 logarithm of `momentum`; non-finite when `momentum` is not
    /// a positive number.
    pub log_momentum: u64,
}

/// The record at one position carries its bar's fields unchanged, the date the
/// fixed-timezone formatter gives that bar's timestamp, and the indicator
/// values computed for that position, each under its own field.
pub open spec fn step_matches(step: StockStepContext, bar: Bar, values: RowValues) -> bool {
    &&& step.date@ == mst_date_of(bar.timestamp)
    &&& step.open == bar.open
    &&& step.high == bar.high
    &&& step.low == bar.low
    &&& step.volume == bar.volume
    &&& step.close == bar.close
    &&& step.adjclose == bar.adjclose
    &&& step.ma7 == values.ma7
    &&& step.ma21 == values.ma21
    &&& step.ema26 == values.ema26
    &&& step.ema12 == values.ema12
    &&& step.mcad == values.mcad
    &&& step.sd20 == values.sd20
    &&& step.upper_band == values.upper_band
    &&& step.lower_band == values.lower_band
    &&& step.ema == values.ema
    &&& step.momentum == values.momentum
    &&& step.log_momentum == values.log_momentum
}

impl Clone for StockStepContext {
    /// A clone is equal to the record it was taken from.
    fn clone(&self) -> (r: Self)
        ensures
            r == *self,
    {
        StockStepContext {
            date: self.date.clone(),
            open: self.open,
            high: self.high,
            low: self.low,
            volume: self.volume,
            close: self.close,
            adjclose: self.adjclose,
            ma7: self.ma7,
            ma21: self.ma21,
            ema26: self.ema26,
            ema12: self.ema12,
            mcad: self.mcad,
            sd20: self.sd20,
            upper_band: self.upper_band,
            lower_band: self.lower_band,
            ema: self.ema,
            momentum: self.momentum,
            log_momentum: self.log_momentum,
        }
    }
}

/// The assembled result set: one record per input bar, in input order,
/// read-only for the lifetime of the analysis.
#[derive(Clone, Debug)]
pub struct StockContext {
    pub step_information: Vec<StockStepContext>,
}

impl StockContext {
    /// Assembles the result set from the input bars and the indicator values
    /// the numeric kernels computed for each position. Succeeds exactly when
    /// one set of values was supplied per bar, and then yields one record per
    /// bar, index-aligned with the input; a miscounted supply is reported with
    /// both lengths.
    pub fn new(bars: &Vec<Bar>, values: &Vec<RowValues>) -> (r: Result<Self, MetricsError>)
        requires
            forall|i: int| 0 <= i < bars@.len() ==> bars@[i].timestamp < MAX_TIMESTAMP,
        ensures
            (r matches Ok(_)) <==> values@.len() == bars@.len(),
            r matches Ok(c) ==> {
                &&& c.step_information@.len() == bars@.len()
                &&& forall|i: int|
                    0 <= i < bars@.len() ==> step_matches(
                        #[trigger] c.step_information@[i],
                        bars@[i],
                        values@[i],
                    )
            },
            r matches Err(e) ==> e == (MetricsError::InsufficientData {
                requested: bars@.len() as usize,
                available: values@.len() as usize,
            }),
    {
        if values.len() != bars.len() {
            return Err(
                MetricsError::InsufficientData {
                    requested: bars.len(),
                    available: values.len(),
                },
            );
        }
        let mut steps: Vec<StockStepContext> = Vec::new();
        let mut pos: usize = 0;
        while pos < bars.len()
            invariant
                pos <= bars@.len() == values@.len(),
                forall|i: int| 0 <= i < bars@.len() ==> bars@[i].timestamp < MAX_TIMESTAMP,
                steps@.len() == pos,
                forall|i: int|
                    0 <= i < pos ==> step_matches(#[trigger] steps@[i], bars@[i], values@[i]),
            decreases bars@.len() - pos,
        {
            let bar = bars[pos];
            let row = values[pos];
            steps.push(
                StockStepContext {
                    date: convert_timestamp_to_mst(&bar.timestamp),
                    open: bar.open,
                    high: bar.high,
                    low: bar.low,
                    volume: bar.volume,
                    close: bar.close,
                    adjclose: bar.adjclose,
                    ma7: row.ma7,
                    ma21: row.ma21,
                    ema26: row.ema26,
                    ema12: row.ema12,
                    mcad: row.mcad,
                    sd20: row.sd20,
                    upper_band: row.upper_band,
                    lower_band: row.lower_band,
                    ema: row.ema,
                    momentum: row.momentum,
                    log_momentum: row.log_momentum,
                },
            );
            pos += 1;
        }
        Ok(StockContext { step_information: steps })
    }

    /// The close of every bar, in series order: the sequence the windowed
    /// reducers and the whole-series smoother both read.
    pub fn closes_of(bars: &Vec<Bar>) -> (r: Vec<u64>)
        ensures
            r@.len() == bars@.len(),
            forall|i: int| 0 <= i < bars@.len() ==> r@[i] == bars@[i].close,
    {
        let mut closes: Vec<u64> = Vec::new();
        let mut pos: usize = 0;
        while pos < bars.len()
            invariant
                pos <= bars@.len(),
                closes@.len() == pos,
                forall|i: int| 0 <= i < pos ==> closes@[i] == bars@[i].close,
            decreases bars@.len() - pos,
        {
            closes.push(bars[pos].close);
            pos += 1;
        }
        closes
    }

    /// The first `count` records, in series order. Rejected with both sizes
    /// when more records are requested than the series holds; never an
    /// unchecked indexing fault.
    pub fn head(&self, count: usize) -> (r: Result<Vec<StockStepContext>, MetricsError>)
        ensures
            (r matches Ok(_)) <==> count <= self.step_information@.len(),
            r matches Ok(v) ==> v@ == self.step_information@.subrange(0, count as int),
            r matches Err(e) ==> e == (MetricsError::OutOfRange {
                requested: count,
                available: self.step_information@.len() as usize,
            }),
    {
        if count > self.step_information.len() {
            return Err(
                MetricsError::OutOfRange {
                    requested: count,
                    available: self.step_information.len(),
                },
            );
        }
        let mut out: Vec<StockStepContext> = Vec::new();
        let mut i: usize = 0;
        while i < count
            invariant
                i <= count <= self.step_information@.len(),
                out@ == self.step_information@.subrange(0, i as int),
            decreases count - i,
        {
            out.push(self.step_information[i].clone());
            assert(out@ =~= self.step_information@.subrange(0, i + 1 as int));
            i += 1;
        }
        Ok(out)
    }

    /// The last `count` records, in series order. Rejected with both sizes
    /// when more records are requested than the series holds; never an
    /// unchecked indexing fault.
    pub fn tail(&self, count: usize) -> (r: Result<Vec<StockStepContext>, MetricsError>)
        ensures
            (r matches Ok(_)) <==> count <= self.step_information@.len(),
            r matches Ok(v) ==> v@ == self.step_information@.subrange(
                self.step_information@.len() - count,
                self.step_information@.len() as int,
            ),
            r matches Err(e) ==> e == (MetricsError::OutOfRange {
                requested: count,
                available: self.step_information@.len() as usize,
            }),
    {
        let len = self.step_information.len();
        if count > len {
            return Err(MetricsError::OutOfRange { requested: count, available: len });
        }
        let mut out: Vec<StockStepContext> = Vec::new();
        let mut i: usize = len - count;
        while i < len
            invariant
                len == self.step_information@.len(),
                count <= len,
                len - count <= i <= len,
                out@ == self.step_information@.subrange((len - count) as int, i as int),
            decreases len - i,
        {
            out.push(self.step_information[i].clone());
            assert(out@ =~= self.step_information@.subrange((len - count) as int, i + 1 as int));
            i += 1;
        }
        Ok(out)
    }
}

} // verus!
