//! Per-bar technical-indicator derivation over an ordered series of daily
//! price bars: clamped forward-window reducers, a whole-series exponential
//! smoother, derived arithmetic fields, and read-only head/tail inspection.
//!
//! Price values are carried as opaque 64-bit words (the raw bits of the
//! machine's binary64 prices); the numeric kernels that combine them live
//! outside this crate. What is verified here is everything the engine decides:
//! which closes feed which accumulator, when a request is rejected and with
//! which error, and how records and series are formed and inspected.

pub mod dates;
pub mod errors;
pub mod smoother;
pub mod stock_data;
pub mod window;

pub use dates::convert_timestamp_to_mst;
pub use errors::MetricsError;
pub use stock_data::Bar;
pub use stock_data::RowValues;
pub use stock_data::StockContext;
pub use stock_data::StockStepContext;
