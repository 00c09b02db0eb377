use vstd::prelude::*;

verus! {

/// Every way an auction-engine operation can be rejected. Each precondition
/// violation aborts the whole invocation with one of these distinguishable
/// reasons and no partial mutation.
#[derive(Clone, Copy, Debug, PartialEq, Eq, Structural)]
pub enum Error {
    /// The one-time global configuration was already created.
    AlreadyInitialized,
    /// The global configuration does not exist yet.
    NotInitialized,
    /// The caller is not the administrator.
    Unauthorized,
    /// No auction record exists under the given id.
    NotFound,
    /// The bidding window has closed (current time is past the end time).
    Expired,
    /// The auction was already finalized.
    AlreadyFinalized,
    /// The bid normalizes below the normalized starting price.
    BelowStartingPrice,
    /// The bid does not meet the 5% minimum increment over the highest bid.
    BidTooLow,
    /// The auction cannot be finalized while bidding is still open.
    NotYetEnded,
    /// No bid has been recorded for the auction.
    NoBids,
    /// A fixed-point conversion overflowed the amount type.
    NumericOverflow,
}

} // verus!
