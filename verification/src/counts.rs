//! The counter pair that persists across events, the transient approximation
//! fetched per decision, and the validation that turns the raw optional counts
//! of a fetch into an approximation or a typed error.

use vstd::prelude::*;

verus! {

/// The single persistent value of the tracker: the best estimate of how many
/// members are online and how many exist in total.
#[derive(Clone, Copy, Debug, PartialEq, Eq, Structural)]
pub struct CounterState {
    pub online: u64,
    pub total: u64,
}

/// A fresh `(online, total)` approximation, fetched once per decision and
/// never cached.
#[derive(Clone, Copy, Debug, PartialEq, Eq, Structural)]
pub struct Approximation {
    pub online: u64,
    pub total: u64,
}

/// What the bulk community-summary query reports: either count may be absent,
/// and an absent count is treated as a failed fetch.
#[derive(Clone, Copy, Debug, PartialEq, Eq, Structural)]
pub struct BulkCounts {
    pub online: Option<u64>,
    pub total: Option<u64>,
}

/// Why an approximation could not be produced. The transition that asked for
/// it is aborted and the counters are left untouched.
#[derive(Clone, Copy, Debug, PartialEq, Eq, Structural)]
pub enum FetchError {
    /// The bulk community-summary query itself failed.
    BulkUnavailable,
    /// The bulk query answered but carried no online count.
    OnlineCountMissing,
    /// The bulk query answered but carried no total count.
    TotalCountMissing,
    /// The alternate widget query for the online count failed.
    WidgetUnavailable,
}

/// The approximation that a fetch yields, as a function of which source
/// supplies the online count and which raw counts came back.
pub open spec fn spec_counts(
    use_widget: bool,
    bulk: Option<BulkCounts>,
    widget_online: Option<u64>,
) -> Result<Approximation, FetchError> {
    match bulk {
        None => Err(FetchError::BulkUnavailable),
        Some(b) => {
            let online = if use_widget {
                match widget_online {
                    None => Err(FetchError::WidgetUnavailable),
                    Some(w) => Ok(w),
                }
            } else {
                match b.online {
                    None => Err(FetchError::OnlineCountMissing),
                    Some(o) => Ok(o),
                }
            };
            match online {
                Err(e) => Err(e),
                Ok(o) => match b.total {
                    None => Err(FetchError::TotalCountMissing),
                    Some(t) => Ok(Approximation { online: o, total: t }),
                },
            }
        },
    }
}

} // verus!
