//! Properties that hold across the market's operations.
use vstd::prelude::*;
use crate::auction::{Auction, sat_add};
use crate::book::{ascending, lemma_set_ascending};
use crate::item::{AuctionClose, ItemView, add_offer_spec, bid_spec, complete_spec, settle_spec};
use crate::market::Market;
use crate::store::{entry_has, store_index};
use crate::types::{ActorId, ContractId, MarketError, Price, TokenId, TransactionId};

verus! {

/// No item of a well-formed market is both for direct sale and at auction.
pub proof fn lemma_sale_modes_exclusive(m: Market, k: (ContractId, TokenId))
    requires
        m.wf(),
        m@.contains_key(k),
    ensures
        !(m@[k].price is Some && m@[k].auction is Some),
{
    let s = m.items@;
    let i = store_index(s, k);
    assert(0 <= i < s.len() && entry_has(s[i], k.0, k.1));
    assert(s[i].item.wf());
}

/// A bid goes through only above the current price, and then it is the
/// current price and the bidder the current winner.
pub proof fn lemma_bid_raises_price(v: ItemView, bidder: ActorId, price: Price, value: u128, now: u64)
    requires
        bid_spec(v, bidder, price, value, now) is Ok,
    ensures
        v.auction is Some,
        price > v.auction->Some_0.current_price,
        bid_spec(v, bidder, price, value, now)->Ok_0.auction is Some,
        bid_spec(v, bidder, price, value, now)->Ok_0.auction->Some_0.current_price == price,
        bid_spec(v, bidder, price, value, now)->Ok_0.auction->Some_0.current_winner == bidder,
{
}

/// A bid that leaves less than `bid_period` before the deadline moves the
/// deadline later, to `now + bid_period`; an earlier bid leaves it alone.
pub proof fn lemma_anti_snipe(a: Auction, bidder: ActorId, price: Price, now: u64)
    requires
        a.bid_spec(bidder, price, now) is Ok,
    ensures
        a.ended_at - now < a.bid_period && now + a.bid_period <= u64::MAX ==> a.bid_spec(
            bidder,
            price,
            now,
        )->Ok_0.ended_at == now + a.bid_period && a.bid_spec(bidder, price, now)->Ok_0.ended_at > a.ended_at,
        a.ended_at - now >= a.bid_period ==> a.bid_spec(bidder, price, now)->Ok_0.ended_at == a.ended_at,
{
    assert(a.extended_end(now) == if a.ended_at - now < a.bid_period {
        sat_add(now, a.bid_period)
    } else {
        a.ended_at
    });
}

/// Settling an expired auction nobody bid on closes it and starts no
/// settlement, so nothing is paid.
pub proof fn lemma_no_bid_cancels(v: ItemView, now: u64, tx_id: TransactionId)
    requires
        v.auction is Some,
        v.auction->Some_0.transaction is None,
        v.pending is None,
        now >= v.auction->Some_0.ended_at,
        v.auction->Some_0.current_winner.is_zero_spec(),
    ensures
        settle_spec(v, now, tx_id) == Ok::<(ItemView, AuctionClose), MarketError>(
            (ItemView { auction: None, ..v }, AuctionClose::Cancelled),
        ),
{
}

/// Once a settlement has been started, settling again (after any failure)
/// re-drives the same sale under the same transaction id and changes nothing;
/// once that sale is recorded, the auction is gone and no further settlement
/// can start, and no sale is left pending to complete a second time.
pub proof fn lemma_settlement_retry_idempotent(
    v: ItemView,
    now: u64,
    tx_id: TransactionId,
    later: u64,
    other_id: TransactionId,
)
    requires
        v.wf(),
        settle_spec(v, now, tx_id) matches Ok((_, AuctionClose::Settle(_))),
    ensures
        ({
            let (v1, close) = settle_spec(v, now, tx_id)->Ok_0;
            &&& close matches AuctionClose::Settle(s) && s.tx_id == tx_id
            &&& settle_spec(v1, later, other_id) == Ok::<(ItemView, AuctionClose), MarketError>(
                (v1, AuctionClose::Rerun(close->Settle_0)),
            )
            &&& settle_spec(complete_spec(v1), later, other_id) == Err::<(ItemView, AuctionClose), MarketError>(
                MarketError::NoAuction,
            )
            &&& complete_spec(v1).pending is None
        }),
{
}

/// An accepted offer occupies its (token, price) key: a second offer under
/// the same key is refused, and the keys stay unique and ascending.
pub proof fn lemma_offer_keys_unique(
    v: ItemView,
    offerer: ActorId,
    other: ActorId,
    ft: Option<ContractId>,
    price: Price,
    value: u128,
    other_value: u128,
)
    requires
        v.wf(),
        add_offer_spec(v, offerer, ft, price, value) is Ok,
    ensures
        ascending(add_offer_spec(v, offerer, ft, price, value)->Ok_0.offers),
        add_offer_spec(add_offer_spec(v, offerer, ft, price, value)->Ok_0, other, ft, price, other_value) == Err::<
            ItemView,
            MarketError,
        >(MarketError::DuplicateOffer),
{
    lemma_set_ascending(v.offers, ft, price, offerer);
}

} // verus!
