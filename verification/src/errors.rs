use vstd::prelude::*;

verus! {

/// A failure surfaced by the indicator engine. Each variant carries the sizes
/// the caller needs to react: what was requested and what was available.
#[derive(Clone, Copy, Debug, PartialEq, Eq, Structural)]
pub enum MetricsError {
    /// A windowed reducer was asked for with a period of zero.
    InvalidPeriod { period: usize },
    /// The whole-series smoother was asked for a window larger than the series.
    InsufficientData { requested: usize, available: usize },
    /// The whole-series smoother was asked for a window of zero, whose seed
    /// would be a mean over no elements.
    DegenerateWindow,
    /// An inspector call asked for more rows than the series holds.
    OutOfRange { requested: usize, available: usize },
}

impl MetricsError {
    /// A short fixed description of the failure, for callers that report it.
    pub fn description(&self) -> (r: &'static str)
        ensures
            self matches MetricsError::InvalidPeriod { .. } ==> r@ == "invalid reducer period"@,
            self matches MetricsError::InsufficientData { .. } ==> r@ == "insufficient data"@,
            self matches MetricsError::DegenerateWindow ==> r@ == "degenerate window"@,
            self matches MetricsError::OutOfRange { .. } ==> r@ == "requested more rows than available"@,
    {
        match self {
            MetricsError::InvalidPeriod { .. } => "invalid reducer period",
            MetricsError::InsufficientData { .. } => "insufficient data",
            MetricsError::DegenerateWindow => "degenerate window",
            MetricsError::OutOfRange { .. } => "requested more rows than available",
        }
    }
}

} // verus!
