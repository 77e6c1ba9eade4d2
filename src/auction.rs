//! One auction cycle embedded in an item.
use vstd::prelude::*;
use crate::types::{ActorId, MarketError, Price, TransactionId};

verus! {

/// `a + b`, or `u64::MAX` where the sum does not fit.
pub open spec fn sat_add(a: u64, b: u64) -> u64 {
    if a + b > u64::MAX {
        u64::MAX
    } else {
        (a + b) as u64
    }
}

/// State of one auction cycle. Times are clock ticks.
#[derive(Clone, Copy, Debug, PartialEq, Eq, Structural)]
pub struct Auction {
    /// Time that must remain before expiry after a new bid.
    pub bid_period: u64,
    pub started_at: u64,
    pub ended_at: u64,
    /// The highest bid so far; the minimum price before any bid.
    pub current_price: Price,
    /// Holder of `current_price`; the zero address while nobody has bid.
    pub current_winner: ActorId,
    /// Recorded once settlement has been attempted.
    pub transaction: Option<AuctionTransaction>,
}

/// The winner, price and transaction id of an attempted auction settlement.
#[derive(Clone, Copy, Debug, PartialEq, Eq, Structural)]
pub struct AuctionTransaction {
    pub winner: ActorId,
    pub price: Price,
    pub tx_id: TransactionId,
}

impl Auction {
    /// The deadline after a bid accepted at `now`: a bid that leaves less than
    /// `bid_period` moves the deadline to `now + bid_period`.
    pub open spec fn extended_end(self, now: u64) -> u64 {
        if self.ended_at - now < self.bid_period {
            sat_add(now, self.bid_period)
        } else {
            self.ended_at
        }
    }

    /// The auction after `bidder` offers `price` at `now`, or why the bid is refused.
    pub open spec fn bid_spec(self, bidder: ActorId, price: Price, now: u64) -> Result<Auction, MarketError> {
        if now >= self.ended_at {
            Err(MarketError::AuctionExpired)
        } else if price <= self.current_price {
            Err(MarketError::PriceTooLow)
        } else {
            Ok(Auction {
                current_price: price,
                current_winner: bidder,
                ended_at: self.extended_end(now),
                ..self
            })
        }
    }

    /// A fresh auction opened at `now` that runs for `duration`
    /// (its end capped at `u64::MAX`).
    pub open spec fn new_spec(min_price: Price, bid_period: u64, duration: u64, now: u64) -> Auction {
        Auction {
            bid_period,
            started_at: now,
            ended_at: sat_add(now, duration),
            current_price: min_price,
            current_winner: ActorId { hi: 0, lo: 0 },
            transaction: None,
        }
    }

    pub fn new(min_price: Price, bid_period: u64, duration: u64, now: u64) -> (r: Auction)
        ensures
            r == Auction::new_spec(min_price, bid_period, duration, now),
    {
        Auction {
            bid_period,
            started_at: now,
            ended_at: now.saturating_add(duration),
            current_price: min_price,
            current_winner: ActorId::zero(),
            transaction: None,
        }
    }

    /// Places a bid; on refusal the auction is unchanged.
    pub fn bid(&mut self, bidder: ActorId, price: Price, now: u64) -> (r: Result<(), MarketError>)
        ensures
            old(self).bid_spec(bidder, price, now) matches Ok(a) ==> r is Ok && *final(self) == a,
            old(self).bid_spec(bidder, price, now) matches Err(e) ==> r == Err::<(), MarketError>(e)
                && *final(self) == *old(self),
    {
        if now >= self.ended_at {
            return Err(MarketError::AuctionExpired);
        }
        if price <= self.current_price {
            return Err(MarketError::PriceTooLow);
        }
        self.current_price = price;
        self.current_winner = bidder;
        if self.ended_at - now < self.bid_period {
            self.ended_at = now.saturating_add(self.bid_period);
        }
        Ok(())
    }
}

} // verus!
