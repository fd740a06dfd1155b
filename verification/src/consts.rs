//! Constants of the fundraising rules.
use vstd::prelude::*;

verus! {

/// The largest share of the target that one contribution may be, in percent.
pub const MAX_CONTRIBUTION_PERCENTAGE: u64 = 10;

/// The scale of percentages.
pub const PERCENTAGE_SCALER: u64 = 100;

/// The number of seconds in a day.
pub const SECONDS_TO_DAYS: i64 = 86400;

} // verus!
