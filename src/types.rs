//! Plain-value data model shared by every part of the market.
use vstd::prelude::*;

verus! {

/// A 256-bit account or program address, as two 128-bit halves.
/// The all-zero address stands for "nobody".
#[derive(Clone, Copy, Debug, PartialEq, Eq, Structural)]
pub struct ActorId {
    pub hi: u128,
    pub lo: u128,
}

impl ActorId {
    pub open spec fn is_zero_spec(self) -> bool {
        self.hi == 0 && self.lo == 0
    }

    pub fn zero() -> (r: ActorId)
        ensures
            r.is_zero_spec(),
    {
        ActorId { hi: 0, lo: 0 }
    }

    pub fn is_zero(&self) -> (r: bool)
        ensures
            r == self.is_zero_spec(),
    {
        self.hi == 0 && self.lo == 0
    }
}

/// Address of an NFT or fungible-token contract.
pub type ContractId = ActorId;

/// A 256-bit token identifier, as two 128-bit halves.
#[derive(Clone, Copy, Debug, PartialEq, Eq, Structural)]
pub struct TokenId {
    pub hi: u128,
    pub lo: u128,
}

pub type Price = u128;

pub type TransactionId = u64;

/// Parameters the market is created with.
#[derive(Clone, Copy, Debug, PartialEq, Eq, Structural)]
pub struct InitMarket {
    pub admin_id: ActorId,
    pub treasury_id: ActorId,
    /// Treasury fee in percent of the sale price.
    pub treasury_fee: u8,
}

/// A price commitment identified by its content hash.
#[derive(Clone, Copy, Debug)]
pub struct Offer {
    pub hash: [u8; 32],
    pub id: ActorId,
    pub ft_contract_id: Option<ActorId>,
    pub price: u128,
}

/// Why an action was rejected.
#[derive(Clone, Copy, Debug, PartialEq, Eq, Structural)]
pub enum MarketError {
    Unauthorized,
    NotApproved,
    AuctionActive,
    AuctionStillOpen,
    AuctionExpired,
    NoAuction,
    NoItem,
    NotForSale,
    PriceTooLow,
    ZeroPrice,
    DuplicateOffer,
    OfferNotFound,
    InsufficientPayment,
    TransactionPending,
    NothingPending,
    SettlementFailed,
}

/// A payment of `amount` to `to`, in the currency of the sale.
#[derive(Clone, Copy, Debug, PartialEq, Eq, Structural)]
pub struct Payee {
    pub to: ActorId,
    pub amount: u128,
}

} // verus!
