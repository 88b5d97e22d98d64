use vstd::prelude::*;

verus! {

/// Epoch seconds at or above this bound would leave the calendar range the
/// date formatter's timezone tables cover.
pub const MAX_TIMESTAMP: u64 = 8_000_000_000_000;

/// The calendar date, rendered as "YYYY-MM-DD", of the given UTC epoch second
/// in the fixed Mountain Standard timezone. The rendering is a pure function
/// of the timestamp alone.
pub uninterp spec fn mst_date_of(stamp: u64) -> Seq<char>;

/// Relies on chrono's conversion from a system time and chrono-tz's fixed MST
/// table: formats the given UTC epoch second as a "YYYY-MM-DD" calendar date
/// in Mountain Standard Time. The bound on the timestamp keeps the conversion
/// inside chrono's representable date range, within which it cannot fail.
#[verifier::external_body]
pub fn convert_timestamp_to_mst(stamp: &u64) -> (r: String)
    requires
        *stamp < MAX_TIMESTAMP,
    ensures
        r@ == mst_date_of(*stamp),
{
    let datetime = chrono::DateTime::<chrono::Utc>::from(
        std::time::UNIX_EPOCH + std::time::Duration::from_secs(*stamp),
    );
    let mst = datetime.with_timezone(&chrono_tz::MST);
    mst.format("%Y-%m-%d").to_string()
}

} // verus!
