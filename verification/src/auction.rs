use vstd::pervasive::VecAdditionalExecFns;
use vstd::prelude::*;

use crate::errors::Error;
use crate::price::{
    increment_fits, normalize_fits, spec_min_next_bid, spec_normalize, BPS_DENOM,
    MIN_INCREMENT_BPS, RATE_SCALE,
};
use crate::types::{AuctionInfo, BidInfo, Currency, GlobalConfig, Payment, Principal, Settlement};

verus! {

/// Length of every bidding window, in seconds (seven days).
pub const AUCTION_DURATION: u64 = 604_800;

impl AuctionInfo {
    /// Structural validity of a stored auction record: the window has the
    /// fixed duration, and prices and rate are non-negative amounts.
    pub open spec fn wf(&self) -> bool {
        &&& self.end_time == self.start_time + AUCTION_DURATION
        &&& self.starting_price_xlm >= 0
        &&& self.starting_price_usdc >= 0
        &&& self.xlm_usdc_rate >= 0
    }

    /// The starting price that applies to a bid in `currency`.
    pub open spec fn spec_starting_price(&self, currency: Currency) -> int {
        match currency {
            Currency::Xlm => self.starting_price_xlm as int,
            Currency::Usdc => self.starting_price_usdc as int,
        }
    }
}

/// The auction engine: the one-time global configuration, the id-keyed
/// auction store and the id-keyed highest-bid store. Auction ids are assigned
/// densely from zero, so id `i` owns slot `i` of both stores.
pub struct ShimejiAuction {
    /// Created exactly once by `initialize`; never torn down.
    pub config: Option<GlobalConfig>,
    /// One record per auction, indexed by auction id.
    pub auctions: Vec<AuctionInfo>,
    /// The current highest bid per auction, indexed by auction id.
    pub bids: Vec<Option<BidInfo>>,
}

impl ShimejiAuction {
    /// Invariant of the engine: the two stores cover exactly the assigned
    /// ids, auctions exist only once configured, every record has the fixed
    /// duration and non-negative prices, and every recorded bid amount is
    /// non-negative.
    pub open spec fn wf(&self) -> bool {
        &&& self.bids@.len() == self.auctions@.len()
        &&& self.config is None ==> self.auctions@.len() == 0
        &&& forall|i: int|
            0 <= i < self.auctions@.len() ==> (#[trigger] self.auctions@[i]).wf()
        &&& forall|i: int|
            0 <= i < self.bids@.len() ==> ((#[trigger] self.bids@[i]) matches Some(b)
                ==> b.amount >= 0)
    }

    /// A fresh, uninitialized engine with no auctions.
    pub fn new() -> (engine: ShimejiAuction)
        ensures
            engine.wf(),
            engine.config is None,
            engine.auctions@.len() == 0,
            engine.bids@.len() == 0,
    {
        ShimejiAuction { config: None, auctions: Vec::new(), bids: Vec::new() }
    }

    /// Creates the global configuration exactly once; a second call is
    /// rejected and changes nothing.
    pub fn initialize(
        &mut self,
        admin: Principal,
        nft_contract: Principal,
        usdc_token: Principal,
        xlm_token: Principal,
    ) -> (r: Result<(), Error>)
        requires
            old(self).wf(),
        ensures
            final(self).wf(),
            old(self).config is Some ==> r == Err::<(), Error>(Error::AlreadyInitialized)
                && *final(self) == *old(self),
            old(self).config is None ==> r == Ok::<(), Error>(())
                && final(self).config == Some(
                    GlobalConfig { admin, nft_contract, usdc_token, xlm_token },
                )
                && final(self).auctions@ == old(self).auctions@
                && final(self).bids@ == old(self).bids@,
    {
        if self.config.is_some() {
            return Err(Error::AlreadyInitialized);
        }
        self.config = Some(GlobalConfig { admin, nft_contract, usdc_token, xlm_token });
        Ok(())
    }

    /// Converts an amount in `currency` to the common comparison unit under
    /// the given exchange rate: stable amounts pass through, native amounts
    /// are scaled by `rate / 10_000_000` with truncation. Fails with
    /// `NumericOverflow` exactly when the intermediate product leaves `i128`.
    pub fn normalize_to_usdc(amount: i128, currency: &Currency, xlm_usdc_rate: i128) -> (r:
        Result<i128, Error>)
        requires
            amount >= 0,
            xlm_usdc_rate >= 0,
        ensures
            normalize_fits(amount as int, *currency, xlm_usdc_rate as int) ==> r == Ok::<
                i128,
                Error,
            >(spec_normalize(amount as int, *currency, xlm_usdc_rate as int) as i128),
            !normalize_fits(amount as int, *currency, xlm_usdc_rate as int) ==> r == Err::<
                i128,
                Error,
            >(Error::NumericOverflow),
            normalize_fits(amount as int, *currency, xlm_usdc_rate as int) ==> 0 <= spec_normalize(
                amount as int,
                *currency,
                xlm_usdc_rate as int,
            ) <= i128::MAX,
    {
        match currency {
            Currency::Usdc => Ok(amount),
            Currency::Xlm => match amount.checked_mul(xlm_usdc_rate) {
                Some(product) => Ok(product / RATE_SCALE),
                None => Err(Error::NumericOverflow),
            },
        }
    }

    /// The number of auctions created so far; equivalently, the id the next
    /// successful `create_auction` will assign.
    pub fn total_auctions(&self) -> (r: u64)
        ensures
            r == self.auctions@.len(),
    {
        self.auctions.len() as u64
    }

    /// Registers a new auction under the next dense id. Admin-only; the
    /// record freezes the starting prices and the exchange-rate snapshot and
    /// fixes the bidding window to `AUCTION_DURATION` seconds from `now`.
    pub fn create_auction(
        &mut self,
        caller: Principal,
        now: u64,
        token_uri: String,
        starting_price_xlm: i128,
        starting_price_usdc: i128,
        xlm_usdc_rate: i128,
    ) -> (r: Result<u64, Error>)
        requires
            old(self).wf(),
            starting_price_xlm >= 0,
            starting_price_usdc >= 0,
            xlm_usdc_rate >= 0,
            now + AUCTION_DURATION <= u64::MAX,
        ensures
            final(self).wf(),
            old(self).config is None ==> r == Err::<u64, Error>(Error::NotInitialized)
                && *final(self) == *old(self),
            (old(self).config matches Some(c) && caller != c.admin) ==> r == Err::<u64, Error>(
                Error::Unauthorized,
            ) && *final(self) == *old(self),
            (old(self).config matches Some(c) && caller == c.admin) ==> {
                &&& r == Ok::<u64, Error>(old(self).auctions@.len() as u64)
                &&& final(self).auctions@ == old(self).auctions@.push(
                    AuctionInfo {
                        token_uri,
                        start_time: now,
                        end_time: (now + AUCTION_DURATION) as u64,
                        starting_price_xlm,
                        starting_price_usdc,
                        xlm_usdc_rate,
                        finalized: false,
                    },
                )
                &&& final(self).bids@ == old(self).bids@.push(None::<BidInfo>)
                &&& final(self).config == old(self).config
            },
    {
        let admin = match &self.config {
            Some(c) => c.admin,
            None => {
                return Err(Error::NotInitialized);
            },
        };
        if caller != admin {
            return Err(Error::Unauthorized);
        }
        let auction_id = self.auctions.len() as u64;
        let auction = AuctionInfo {
            token_uri,
            start_time: now,
            end_time: now + AUCTION_DURATION,
            starting_price_xlm,
            starting_price_usdc,
            xlm_usdc_rate,
            finalized: false,
        };
        self.auctions.push(auction);
        self.bids.push(None);
        Ok(auction_id)
    }

    /// The record stored under `auction_id`, or `NotFound` for an id no
    /// auction was created under.
    pub fn get_auction(&self, auction_id: u64) -> (r: Result<&AuctionInfo, Error>)
        ensures
            auction_id < self.auctions@.len() ==> (r matches Ok(a) && *a
                == self.auctions@[auction_id as int]),
            auction_id >= self.auctions@.len() ==> r == Err::<&AuctionInfo, Error>(Error::NotFound),
    {
        if auction_id < self.auctions.len() as u64 {
            Ok(&self.auctions[auction_id as usize])
        } else {
            Err(Error::NotFound)
        }
    }

    /// The current highest bid of `auction_id`, or `NoBids` when the auction
    /// has no recorded bid or no auction exists under the id.
    pub fn get_highest_bid(&self, auction_id: u64) -> (r: Result<BidInfo, Error>)
        ensures
            auction_id < self.bids@.len() ==> (self.bids@[auction_id as int] matches Some(b)
                ==> r == Ok::<BidInfo, Error>(b)),
            (auction_id >= self.bids@.len() || self.bids@[auction_id as int] is None) ==> r
                == Err::<BidInfo, Error>(Error::NoBids),
    {
        if auction_id < self.bids.len() as u64 {
            match &self.bids[auction_id as usize] {
                Some(b) => Ok(*b),
                None => Err(Error::NoBids),
            }
        } else {
            Err(Error::NoBids)
        }
    }

    /// The bid validator's verdict on state `self`, checked in order:
    /// existence, timing, finalization, minimum starting price, then the 5%
    /// minimum increment over the current highest bid. Every comparison is
    /// made in the common unit; a conversion that leaves `i128` yields
    /// `NumericOverflow` at the point it is attempted.
    pub open spec fn bid_verdict(
        &self,
        auction_id: int,
        amount: int,
        currency: Currency,
        now: int,
    ) -> Result<(), Error> {
        if !(0 <= auction_id < self.auctions@.len()) {
            Err(Error::NotFound)
        } else {
            let a = self.auctions@[auction_id];
            let rate = a.xlm_usdc_rate as int;
            if now > a.end_time {
                Err(Error::Expired)
            } else if a.finalized {
                Err(Error::AlreadyFinalized)
            } else if !normalize_fits(amount, currency, rate) {
                Err(Error::NumericOverflow)
            } else if !normalize_fits(a.spec_starting_price(currency), currency, rate) {
                Err(Error::NumericOverflow)
            } else if spec_normalize(amount, currency, rate) < spec_normalize(
                a.spec_starting_price(currency),
                currency,
                rate,
            ) {
                Err(Error::BelowStartingPrice)
            } else {
                match self.bids@[auction_id] {
                    None => Ok(()),
                    Some(prev) => {
                        let prev_normalized = spec_normalize(prev.amount as int, prev.currency, rate);
                        if !normalize_fits(prev.amount as int, prev.currency, rate) {
                            Err(Error::NumericOverflow)
                        } else if !increment_fits(prev_normalized) {
                            Err(Error::NumericOverflow)
                        } else if spec_normalize(amount, currency, rate) < spec_min_next_bid(
                            prev_normalized,
                        ) {
                            Err(Error::BidTooLow)
                        } else {
                            Ok(())
                        }
                    },
                }
            }
        }
    }
}

/// Full behaviour of a bid entry point between states `pre` and `post`: a
/// rejected bid returns the validator's error and leaves the engine
/// untouched; an accepted bid replaces the highest bid and instructs the
/// settlement that refunds the displaced bid exactly and escrows the new one.
pub open spec fn bid_transition(
    pre: ShimejiAuction,
    post: ShimejiAuction,
    r: Result<Settlement, Error>,
    auction_id: int,
    bidder: Principal,
    amount: int,
    currency: Currency,
    now: int,
) -> bool {
    &&& (pre.bid_verdict(auction_id, amount, currency, now) matches Err(e) ==> r == Err::<
        Settlement,
        Error,
    >(e) && post == pre)
    &&& (pre.bid_verdict(auction_id, amount, currency, now) is Ok ==> {
        let accepted = BidInfo { bidder, amount: amount as i128, currency };
        &&& r == Ok::<Settlement, Error>(
            (Settlement { refund: pre.bids@[auction_id], escrow: accepted }),
        )
        &&& post.bids@ == pre.bids@.update(auction_id, Some(accepted))
        &&& post.auctions@ == pre.auctions@
        &&& post.config == pre.config
    })
}

impl ShimejiAuction {
    /// Validates a bid and, when it is accepted, records it as the new
    /// highest bid and returns the settlement to execute: refund the
    /// displaced bid in full in its original currency, then escrow the new
    /// bid. Any rejection leaves the engine unchanged.
    pub fn place_bid(
        &mut self,
        auction_id: u64,
        bidder: Principal,
        amount: i128,
        currency: Currency,
        now: u64,
    ) -> (r: Result<Settlement, Error>)
        requires
            old(self).wf(),
            amount >= 0,
        ensures
            final(self).wf(),
            bid_transition(
                *old(self),
                *final(self),
                r,
                auction_id as int,
                bidder,
                amount as int,
                currency,
                now as int,
            ),
    {
        if !(auction_id < self.auctions.len() as u64) {
            return Err(Error::NotFound);
        }
        let idx = auction_id as usize;
        if now > self.auctions[idx].end_time {
            return Err(Error::Expired);
        }
        if self.auctions[idx].finalized {
            return Err(Error::AlreadyFinalized);
        }
        let rate = self.auctions[idx].xlm_usdc_rate;

        let normalized_bid = match Self::normalize_to_usdc(amount, &currency, rate) {
            Ok(v) => v,
            Err(e) => {
                return Err(e);
            },
        };

        let min_starting = match currency {
            Currency::Xlm => self.auctions[idx].starting_price_xlm,
            Currency::Usdc => self.auctions[idx].starting_price_usdc,
        };
        let normalized_min = match Self::normalize_to_usdc(min_starting, &currency, rate) {
            Ok(v) => v,
            Err(e) => {
                return Err(e);
            },
        };
        if normalized_bid < normalized_min {
            return Err(Error::BelowStartingPrice);
        }

        let prior: Option<BidInfo> = self.bids[idx];
        if let Some(prev) = prior {
            let prev_normalized = match Self::normalize_to_usdc(prev.amount, &prev.currency, rate) {
                Ok(v) => v,
                Err(e) => {
                    return Err(e);
                },
            };
            let raised = match prev_normalized.checked_mul(MIN_INCREMENT_BPS) {
                Some(p) => p,
                None => {
                    return Err(Error::NumericOverflow);
                },
            };
            let min_required = match prev_normalized.checked_add(raised / BPS_DENOM) {
                Some(m) => m,
                None => {
                    return Err(Error::NumericOverflow);
                },
            };
            if normalized_bid < min_required {
                return Err(Error::BidTooLow);
            }
        }

        let accepted = BidInfo { bidder, amount, currency };
        self.bids.set(idx, Some(accepted));
        Ok(Settlement { refund: prior, escrow: accepted })
    }

    /// Places a bid denominated in the native currency.
    pub fn bid_xlm(&mut self, auction_id: u64, bidder: Principal, amount: i128, now: u64) -> (r:
        Result<Settlement, Error>)
        requires
            old(self).wf(),
            amount >= 0,
        ensures
            final(self).wf(),
            bid_transition(
                *old(self),
                *final(self),
                r,
                auction_id as int,
                bidder,
                amount as int,
                Currency::Xlm,
                now as int,
            ),
    {
        self.place_bid(auction_id, bidder, amount, Currency::Xlm, now)
    }

    /// Places a bid denominated in the stable currency.
    pub fn bid_usdc(&mut self, auction_id: u64, bidder: Principal, amount: i128, now: u64) -> (r:
        Result<Settlement, Error>)
        requires
            old(self).wf(),
            amount >= 0,
        ensures
            final(self).wf(),
            bid_transition(
                *old(self),
                *final(self),
                r,
                auction_id as int,
                bidder,
                amount as int,
                Currency::Usdc,
                now as int,
            ),
    {
        self.place_bid(auction_id, bidder, amount, Currency::Usdc, now)
    }
}

/// The winner an auction settles to: the bidder of its highest bid, if one
/// was ever recorded.
pub open spec fn spec_winner(bid: Option<BidInfo>) -> Option<Principal> {
    match bid {
        None => None,
        Some(b) => Some(b.bidder),
    }
}

impl ShimejiAuction {
    /// The verdict of the finalization gate: the auction must exist, its
    /// bidding window must have closed, and it must not have been finalized
    /// before.
    pub open spec fn finalize_verdict(&self, auction_id: int, now: int) -> Result<(), Error> {
        if !(0 <= auction_id < self.auctions@.len()) {
            Err(Error::NotFound)
        } else {
            let a = self.auctions@[auction_id];
            if now <= a.end_time {
                Err(Error::NotYetEnded)
            } else if a.finalized {
                Err(Error::AlreadyFinalized)
            } else {
                Ok(())
            }
        }
    }

    /// Marks an ended auction as finalized, exactly once, and reports the
    /// winner (if any bid was recorded) so the shell can issue the reward.
    /// Any rejection leaves the engine unchanged.
    pub fn finalize(&mut self, auction_id: u64, now: u64) -> (r: Result<Option<Principal>, Error>)
        requires
            old(self).wf(),
        ensures
            final(self).wf(),
            old(self).finalize_verdict(auction_id as int, now as int) matches Err(e) ==> r
                == Err::<Option<Principal>, Error>(e) && *final(self) == *old(self),
            old(self).finalize_verdict(auction_id as int, now as int) is Ok ==> {
                &&& r == Ok::<Option<Principal>, Error>(
                    spec_winner(old(self).bids@[auction_id as int]),
                )
                &&& final(self).auctions@ == old(self).auctions@.update(
                    auction_id as int,
                    (AuctionInfo {
                        finalized: true,
                        ..old(self).auctions@[auction_id as int]
                    }),
                )
                &&& final(self).bids@ == old(self).bids@
                &&& final(self).config == old(self).config
            },
    {
        if !(auction_id < self.auctions.len() as u64) {
            return Err(Error::NotFound);
        }
        let idx = auction_id as usize;
        if now <= self.auctions[idx].end_time {
            return Err(Error::NotYetEnded);
        }
        if self.auctions[idx].finalized {
            return Err(Error::AlreadyFinalized);
        }
        let mut record = self.auctions.remove(idx);
        record.finalized = true;
        self.auctions.insert(idx, record);
        match &self.bids[idx] {
            Some(b) => Ok(Some(b.bidder)),
            None => Ok(None),
        }
    }

    /// Instructs a transfer of `amount` native units from contract custody
    /// to the administrator. Admin-only; no bookkeeping distinguishes free
    /// from escrowed funds, so the administrator is trusted not to withdraw
    /// amounts earmarked for an active highest bid.
    pub fn withdraw_xlm(&self, caller: Principal, amount: i128) -> (r: Result<Payment, Error>)
        ensures
            self.config is None ==> r == Err::<Payment, Error>(Error::NotInitialized),
            self.config matches Some(c) ==> (if caller == c.admin {
                r == Ok::<Payment, Error>(
                    (Payment { to: c.admin, amount, currency: Currency::Xlm }),
                )
            } else {
                r == Err::<Payment, Error>(Error::Unauthorized)
            }),
    {
        let admin = match &self.config {
            Some(c) => c.admin,
            None => {
                return Err(Error::NotInitialized);
            },
        };
        if caller != admin {
            return Err(Error::Unauthorized);
        }
        Ok(Payment { to: admin, amount, currency: Currency::Xlm })
    }

    /// Instructs a transfer of `amount` stable units from contract custody
    /// to the administrator. Admin-only, like `withdraw_xlm`.
    pub fn withdraw_usdc(&self, caller: Principal, amount: i128) -> (r: Result<Payment, Error>)
        ensures
            self.config is None ==> r == Err::<Payment, Error>(Error::NotInitialized),
            self.config matches Some(c) ==> (if caller == c.admin {
                r == Ok::<Payment, Error>(
                    (Payment { to: c.admin, amount, currency: Currency::Usdc }),
                )
            } else {
                r == Err::<Payment, Error>(Error::Unauthorized)
            }),
    {
        let admin = match &self.config {
            Some(c) => c.admin,
            None => {
                return Err(Error::NotInitialized);
            },
        };
        if caller != admin {
            return Err(Error::Unauthorized);
        }
        Ok(Payment { to: admin, amount, currency: Currency::Usdc })
    }
}

/// Finalization law: once an auction has passed the finalization gate and
/// its record carries the finalized flag, no later `finalize` on the same
/// auction can succeed again, whatever the clock then reads.
pub proof fn lemma_finalize_at_most_once(
    pre: ShimejiAuction,
    post: ShimejiAuction,
    auction_id: int,
    now: int,
    later: int,
)
    requires
        pre.finalize_verdict(auction_id, now) is Ok,
        post.auctions@ == pre.auctions@.update(
            auction_id,
            (AuctionInfo { finalized: true, ..pre.auctions@[auction_id] }),
        ),
    ensures
        post.finalize_verdict(auction_id, later) !is Ok,
{
}

} // verus!
