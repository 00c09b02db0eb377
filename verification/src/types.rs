use vstd::prelude::*;

verus! {

/// An authenticated identity on the hosting platform (a bidder, the
/// administrator, or a collaborator contract). The engine only ever compares
/// principals for equality; the shell maps them to real platform addresses.
#[derive(Clone, Copy, Debug, PartialEq, Eq, Structural)]
pub struct Principal {
    pub id: u64,
}

/// One of the two mutually exclusive settlement currencies.
#[derive(Clone, Copy, Debug, PartialEq, Eq, Structural)]
pub enum Currency {
    /// The native token (lumens), converted through the exchange rate.
    Xlm,
    /// The stable token, which is already the common comparison unit.
    Usdc,
}

/// One auction record, owned by the engine's id-keyed auction store.
#[derive(Debug, PartialEq)]
pub struct AuctionInfo {
    /// Opaque reference to the digitized item being sold.
    pub token_uri: String,
    /// Clock reading at creation.
    pub start_time: u64,
    /// Close of the bidding window; always `start_time + AUCTION_DURATION`.
    pub end_time: u64,
    /// Minimum opening bid when paying in the native currency.
    pub starting_price_xlm: i128,
    /// Minimum opening bid when paying in the stable currency.
    pub starting_price_usdc: i128,
    /// Native price in stable units at fixed-point scale 10_000_000,
    /// frozen at creation.
    pub xlm_usdc_rate: i128,
    /// Set exactly once, by the first successful `finalize`.
    pub finalized: bool,
}

/// The current highest bid of one auction: at most one exists per auction,
/// and superseding it always refunds the displaced bidder in full.
#[derive(Clone, Copy, Debug, PartialEq, Eq, Structural)]
pub struct BidInfo {
    pub bidder: Principal,
    pub amount: i128,
    pub currency: Currency,
}

/// The fund movements an accepted bid requires, in order: first pay the
/// displaced bid (if any) back to its bidder in its original currency, then
/// pull the new bid from the bidder into contract custody. The shell executes
/// both inside the same atomic invocation as the ledger update.
#[derive(Clone, Copy, Debug, PartialEq, Eq)]
pub struct Settlement {
    /// The displaced bid, to be returned exactly as it was escrowed.
    pub refund: Option<BidInfo>,
    /// The accepted bid, to be taken into custody.
    pub escrow: BidInfo,
}

/// A single transfer out of contract custody, as instructed by a withdrawal.
#[derive(Clone, Copy, Debug, PartialEq, Eq, Structural)]
pub struct Payment {
    pub to: Principal,
    pub amount: i128,
    pub currency: Currency,
}

/// The one-time global configuration: the administrator and the collaborator
/// contracts funds and rewards move through.
#[derive(Clone, Copy, Debug, PartialEq, Eq, Structural)]
pub struct GlobalConfig {
    pub admin: Principal,
    pub nft_contract: Principal,
    pub usdc_token: Principal,
    pub xlm_token: Principal,
}

} // verus!
