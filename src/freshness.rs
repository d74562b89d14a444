//! The freshness policy: what a request may do with what the cache holds.
use vstd::prelude::*;
use crate::data::Data;

verus! {

/// How long, in seconds, a record is served without asking the remote.
pub const TRUST_WINDOW_SECS: u64 = 60 * 5;

/// What the policy allows for one request.
#[derive(Debug, Clone, Copy, PartialEq, Eq, Structural)]
pub enum Freshness {
    /// The record was verified recently: serve it without any remote call.
    ServeCached,
    /// Fetch the remote HEAD hash; serve the record if it matches, else recompute.
    VerifyThenServeOrRecompute,
    /// Nothing is cached: analyse the repository.
    Recompute,
}

/// The record was verified less than `window` seconds before `now`.
pub open spec fn within_window(record: Data, now: u64, window: u64) -> bool {
    now - record.verified_time < window
}

/// The policy, for the record that the cache holds (if any) at time `now`.
pub open spec fn decide(record: Option<Data>, now: u64, window: u64) -> Freshness {
    match record {
        None => Freshness::Recompute,
        Some(d) => if within_window(d, now, window) {
            Freshness::ServeCached
        } else {
            Freshness::VerifyThenServeOrRecompute
        },
    }
}

/// Applies the policy to `record` at time `now` with the given trust window.
pub fn freshness(record: Option<&Data>, now: u64, trust_window: u64) -> (r: Freshness)
    ensures
        r == decide(
            match record {
                Some(d) => Some(*d),
                None => None,
            },
            now,
            trust_window,
        ),
{
    match record {
        None => Freshness::Recompute,
        Some(d) => {
            if now < d.verified_time || now - d.verified_time < trust_window {
                Freshness::ServeCached
            } else {
                Freshness::VerifyThenServeOrRecompute
            }
        },
    }
}

} // verus!
