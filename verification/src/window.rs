use vstd::prelude::*;
use crate::errors::MetricsError;

verus! {

/// Half-open bounds `[start, end)` into the close-price series: exactly the
/// positions whose closes feed one reducer evaluation, in order.
#[derive(Clone, Copy, Debug, PartialEq, Eq, Structural)]
pub struct WindowBounds {
    pub start: usize,
    pub end: usize,
}

/// Where the clamped forward window anchored at `pos` ends: one element past
/// the nominal period when the whole window fits before the series end, and
/// the series end itself when the window would run past it.
pub open spec fn window_end(period: int, pos: int, len: int) -> int {
    if pos + period > len - 1 {
        len
    } else {
        pos + period + 1
    }
}

/// The bounds of the clamped forward window that one reducer evaluation reads,
/// anchored at `pos` in a series of `len` closes. A period of zero is rejected
/// before any window is formed; every accepted window is non-empty, starts at
/// the anchor, spans `period + 1` positions when it fits whole, and is cut at
/// the series end otherwise.
pub fn reducer_window(period: usize, pos: usize, len: usize) -> (r: Result<
    WindowBounds,
    MetricsError,
>)
    requires
        pos < len,
    ensures
        (r matches Ok(_)) <==> period >= 1,
        r matches Err(e) ==> e == (MetricsError::InvalidPeriod { period: 0 }) && period == 0,
        r matches Ok(w) ==> {
            &&& w.start == pos
            &&& w.end == window_end(period as int, pos as int, len as int)
            &&& pos < w.end <= len
            &&& (pos + period + 1 <= len ==> w.end - w.start == period + 1)
            &&& (pos + period + 1 > len ==> w.end == len)
        },
{
    if period == 0 {
        return Err(MetricsError::InvalidPeriod { period: 0 });
    }
    if period >= len - pos {
        Ok(WindowBounds { start: pos, end: len })
    } else {
        Ok(WindowBounds { start: pos, end: pos + period + 1 })
    }
}

/// The closes one reducer evaluation is fed: the contents of the clamped
/// forward window, copied out in series order.
pub fn reducer_input(closes: &Vec<u64>, period: usize, pos: usize) -> (r: Result<
    Vec<u64>,
    MetricsError,
>)
    requires
        pos < closes@.len(),
    ensures
        (r matches Ok(_)) <==> period >= 1,
        r matches Err(e) ==> e == (MetricsError::InvalidPeriod { period: 0 }) && period == 0,
        r matches Ok(v) ==> v@ == closes@.subrange(
            pos as int,
            window_end(period as int, pos as int, closes@.len() as int),
        ),
{
    let bounds = match reducer_window(period, pos, closes.len()) {
        Ok(b) => b,
        Err(e) => {
            return Err(e);
        },
    };
    let mut out: Vec<u64> = Vec::new();
    let mut i: usize = bounds.start;
    while i < bounds.end
        invariant
            bounds.start <= i <= bounds.end,
            bounds.end <= closes@.len(),
            out@ == closes@.subrange(bounds.start as int, i as int),
        decreases bounds.end - i,
    {
        out.push(closes[i]);
        assert(out@ =~= closes@.subrange(bounds.start as int, i + 1 as int));
        i += 1;
    }
    Ok(out)
}

/// The closes of one reducer evaluation whose period the engine fixed itself,
/// so that a zero period cannot arise.
fn fixed_period_input(closes: &Vec<u64>, period: usize, pos: usize) -> (r: Vec<u64>)
    requires
        1 <= period,
        pos < closes@.len(),
    ensures
        r@ == closes@.subrange(
            pos as int,
            window_end(period as int, pos as int, closes@.len() as int),
        ),
{
    match reducer_input(closes, period, pos) {
        Ok(v) => v,
        Err(_) => {
            proof {
                assert(false);
            }
            Vec::new()
        },
    }
}

/// The five clamped forward windows the engine evaluates at one position: the
/// closes feeding the simple moving averages of periods 7 and 21, the
/// exponential moving averages of periods 26 and 12, and the rolling standard
/// deviation of period 20.
pub struct RowInputs {
    pub ma7: Vec<u64>,
    pub ma21: Vec<u64>,
    pub ema26: Vec<u64>,
    pub ema12: Vec<u64>,
    pub sd20: Vec<u64>,
}

/// The inputs of every windowed reducer the engine instantiates at `pos`: each
/// field is the clamped forward window of its indicator's fixed period, read
/// from the same close-price series.
pub fn row_inputs(closes: &Vec<u64>, pos: usize) -> (r: RowInputs)
    requires
        pos < closes@.len(),
    ensures
        r.ma7@ == closes@.subrange(pos as int, window_end(7, pos as int, closes@.len() as int)),
        r.ma21@ == closes@.subrange(pos as int, window_end(21, pos as int, closes@.len() as int)),
        r.ema26@ == closes@.subrange(pos as int, window_end(26, pos as int, closes@.len() as int)),
        r.ema12@ == closes@.subrange(pos as int, window_end(12, pos as int, closes@.len() as int)),
        r.sd20@ == closes@.subrange(pos as int, window_end(20, pos as int, closes@.len() as int)),
{
    RowInputs {
        ma7: fixed_period_input(closes, 7, pos),
        ma21: fixed_period_input(closes, 21, pos),
        ema26: fixed_period_input(closes, 26, pos),
        ema12: fixed_period_input(closes, 12, pos),
        sd20: fixed_period_input(closes, 20, pos),
    }
}

} // verus!
