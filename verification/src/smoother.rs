use vstd::prelude::*;
use crate::errors::MetricsError;

verus! {

/// One whole-series smoothing request, split into the exact inputs of its two
/// phases: the closes whose plain mean seeds the recurrence, and the closes
/// the recurrence then folds in, in series order. The smoothing factor of the
/// recurrence is `2 / (window + 1)`, and the final result is the mean of the
/// `tail.len() + 1` values the two phases emit.
#[derive(Clone, Debug)]
pub struct SmootherRun {
    pub window: usize,
    pub seed: Vec<u64>,
    pub tail: Vec<u64>,
}

/// Splits a whole-series smoothing request over `closes` with the given
/// window into the inputs of its two phases. A window larger than the series
/// is rejected as insufficient data; a window that equals the series length is
/// owed success (its tail is then empty). A window of zero is rejected as
/// degenerate, since its seed would be a mean over no elements.
pub fn whole_series_smoother_inputs(closes: &Vec<u64>, window: usize) -> (r: Result<
    SmootherRun,
    MetricsError,
>)
    ensures
        (r matches Ok(_)) <==> (1 <= window <= closes@.len()),
        window > closes@.len() ==> r == Err::<SmootherRun, MetricsError>(
            MetricsError::InsufficientData { requested: window, available: closes@.len() as usize },
        ),
        window == 0 && window <= closes@.len() ==> r == Err::<SmootherRun, MetricsError>(
            MetricsError::DegenerateWindow,
        ),
        r matches Ok(run) ==> {
            &&& run.window == window
            &&& run.seed@ == closes@.subrange(0, window as int)
            &&& run.tail@ == closes@.subrange(window as int, closes@.len() as int)
            &&& run.seed@.len() == window
            &&& run.seed@ + run.tail@ == closes@
        },
{
    if window > closes.len() {
        return Err(MetricsError::InsufficientData { requested: window, available: closes.len() });
    }
    if window == 0 {
        return Err(MetricsError::DegenerateWindow);
    }
    let mut seed: Vec<u64> = Vec::new();
    let mut i: usize = 0;
    while i < window
        invariant
            i <= window <= closes@.len(),
            seed@ == closes@.subrange(0, i as int),
        decreases window - i,
    {
        seed.push(closes[i]);
        assert(seed@ =~= closes@.subrange(0, i + 1 as int));
        i += 1;
    }
    let mut tail: Vec<u64> = Vec::new();
    let mut j: usize = window;
    while j < closes.len()
        invariant
            window <= j <= closes@.len(),
            tail@ == closes@.subrange(window as int, j as int),
        decreases closes@.len() - j,
    {
        tail.push(closes[j]);
        assert(tail@ =~= closes@.subrange(window as int, j + 1 as int));
        j += 1;
    }
    assert(closes@.subrange(0, window as int) + closes@.subrange(
        window as int,
        closes@.len() as int,
    ) =~= closes@);
    Ok(SmootherRun { window, seed, tail })
}

/// The whole-series smoother's inputs as the engine evaluates them at row
/// `pos`, where the row's own position serves as the window. At every position
/// past the first this is the ordinary split; at position zero the engine
/// keeps the degenerate empty seed, whose mean is no number, and folds every
/// close after it, so the first row's smoothed value propagates as a
/// non-finite value rather than failing the batch.
pub fn row_smoother_inputs(closes: &Vec<u64>, pos: usize) -> (r: SmootherRun)
    requires
        pos < closes@.len(),
    ensures
        r.window == pos,
        r.seed@ == closes@.subrange(0, pos as int),
        r.tail@ == closes@.subrange(pos as int, closes@.len() as int),
{
    if pos == 0 {
        let mut tail: Vec<u64> = Vec::new();
        let mut j: usize = 0;
        while j < closes.len()
            invariant
                j <= closes@.len(),
                tail@ == closes@.subrange(0, j as int),
            decreases closes@.len() - j,
        {
            tail.push(closes[j]);
            assert(tail@ =~= closes@.subrange(0, j + 1 as int));
            j += 1;
        }
        assert(Seq::<u64>::empty() =~= closes@.subrange(0, 0));
        SmootherRun { window: 0, seed: Vec::new(), tail }
    } else {
        match whole_series_smoother_inputs(closes, pos) {
            Ok(run) => run,
            Err(_) => {
                proof {
                    assert(false);
                }
                SmootherRun { window: 0, seed: Vec::new(), tail: Vec::new() }
            },
        }
    }
}

} // verus!
