//! One NFT's market state and the transitions that actions make on it.
use vstd::prelude::*;
use crate::auction::{Auction, AuctionTransaction};
use crate::book::{BookEntry, OfferBook, ascending, entry_of, key_in, remove_spec, set_spec};
use crate::types::{ActorId, ContractId, MarketError, Payee, Price, TransactionId};

verus! {

/// What kind of sale a settlement completes.
#[derive(Clone, Copy, Debug, PartialEq, Eq, Structural)]
pub enum SaleKind {
    Purchase,
    AuctionWin,
    AcceptedOffer,
}

/// An in-flight sale; while an item holds one it accepts no new action.
#[derive(Clone, Copy, Debug, PartialEq, Eq, Structural)]
pub struct PendingSale {
    pub tx_id: TransactionId,
    pub buyer: ActorId,
    pub price: Price,
    pub ft_contract_id: Option<ContractId>,
    pub kind: SaleKind,
}

/// How a settle action on an auction goes on.
#[derive(Clone, Copy, Debug, PartialEq, Eq, Structural)]
pub enum AuctionClose {
    /// Nobody bid: the auction is gone and no funds move.
    Cancelled,
    /// A first settlement attempt under a new transaction id.
    Settle(PendingSale),
    /// A repeated attempt under the id recorded by the first.
    Rerun(PendingSale),
}

/// The market state of one NFT.
#[derive(Debug)]
pub struct Item {
    pub owner: ActorId,
    pub ft_contract_id: Option<ContractId>,
    /// Asking price; `None` means not for direct sale.
    pub price: Option<Price>,
    pub auction: Option<Auction>,
    pub offers: OfferBook,
    pub bids: OfferBook,
    pub pending_transaction: Option<PendingSale>,
}

/// Mathematical model of an [`Item`].
pub struct ItemView {
    pub owner: ActorId,
    pub ft_contract_id: Option<ContractId>,
    pub price: Option<Price>,
    pub auction: Option<Auction>,
    pub offers: Seq<BookEntry>,
    pub bids: Seq<BookEntry>,
    pub pending: Option<PendingSale>,
}

impl ItemView {
    /// A direct-sale price and an auction never stand together, the books
    /// keep their keys ascending, and an attempted auction settlement locks the item.
    pub open spec fn wf(self) -> bool {
        &&& !(self.price is Some && self.auction is Some)
        &&& ascending(self.offers)
        &&& ascending(self.bids)
        &&& (self.auction matches Some(a) && a.transaction is Some ==> self.pending is Some)
    }
}

impl View for Item {
    type V = ItemView;

    open spec fn view(&self) -> ItemView {
        ItemView {
            owner: self.owner,
            ft_contract_id: self.ft_contract_id,
            price: self.price,
            auction: self.auction,
            offers: self.offers@,
            bids: self.bids@,
            pending: self.pending_transaction,
        }
    }
}

/// An item the store has not seen before: unowned and unlisted.
pub open spec fn fresh_view() -> ItemView {
    ItemView {
        owner: ActorId { hi: 0, lo: 0 },
        ft_contract_id: None,
        price: None,
        auction: None,
        offers: Seq::empty(),
        bids: Seq::empty(),
        pending: None,
    }
}

pub open spec fn is_native_mismatch(ft: Option<ContractId>, value: u128, price: Price) -> bool {
    ft is None && value != price
}

/// Listing or relisting by `caller`, whom the NFT contract reports as `nft_owner`.
pub open spec fn list_spec(
    v: ItemView,
    caller: ActorId,
    nft_owner: ActorId,
    ft: Option<ContractId>,
    price: Option<Price>,
) -> Result<ItemView, MarketError> {
    if v.pending is Some {
        Err(MarketError::TransactionPending)
    } else if caller != nft_owner {
        Err(MarketError::Unauthorized)
    } else if v.auction is Some {
        Err(MarketError::AuctionActive)
    } else {
        Ok(ItemView { owner: caller, ft_contract_id: ft, price, ..v })
    }
}

/// Opening an auction; it takes the item off direct sale.
pub open spec fn create_auction_spec(
    v: ItemView,
    caller: ActorId,
    nft_owner: ActorId,
    ft: Option<ContractId>,
    min_price: Price,
    bid_period: u64,
    duration: u64,
    now: u64,
) -> Result<ItemView, MarketError> {
    if v.pending is Some {
        Err(MarketError::TransactionPending)
    } else if caller != nft_owner {
        Err(MarketError::Unauthorized)
    } else if v.auction is Some {
        Err(MarketError::AuctionActive)
    } else {
        Ok(
            ItemView {
                owner: caller,
                ft_contract_id: ft,
                price: None,
                auction: Some(Auction::new_spec(min_price, bid_period, duration, now)),
                ..v
            },
        )
    }
}

/// A purchase at the asking price, `value` being the native value attached.
pub open spec fn buy_spec(v: ItemView, buyer: ActorId, value: u128, tx_id: TransactionId) -> Result<
    ItemView,
    MarketError,
> {
    if v.pending is Some {
        Err(MarketError::TransactionPending)
    } else if v.auction is Some {
        Err(MarketError::AuctionActive)
    } else if v.price is None {
        Err(MarketError::NotForSale)
    } else if is_native_mismatch(v.ft_contract_id, value, v.price->Some_0) {
        Err(MarketError::InsufficientPayment)
    } else {
        Ok(
            ItemView {
                pending: Some(
                    PendingSale {
                        tx_id,
                        buyer,
                        price: v.price->Some_0,
                        ft_contract_id: v.ft_contract_id,
                        kind: SaleKind::Purchase,
                    },
                ),
                ..v
            },
        )
    }
}

/// A bid on the open auction.
pub open spec fn bid_spec(v: ItemView, bidder: ActorId, price: Price, value: u128, now: u64) -> Result<
    ItemView,
    MarketError,
> {
    if v.pending is Some {
        Err(MarketError::TransactionPending)
    } else if v.auction is None {
        Err(MarketError::NoAuction)
    } else {
        match v.auction->Some_0.bid_spec(bidder, price, now) {
            Err(e) => Err(e),
            Ok(a) => if is_native_mismatch(v.ft_contract_id, value, price) {
                Err(MarketError::InsufficientPayment)
            } else {
                Ok(
                    ItemView {
                        auction: Some(a),
                        bids: set_spec(v.bids, v.ft_contract_id, price, bidder),
                        ..v
                    },
                )
            },
        }
    }
}

/// What the outbid leader gets back when a new bid is accepted.
pub open spec fn outbid_refund(a: Auction) -> Option<Payee> {
    if a.current_winner.is_zero_spec() {
        None
    } else {
        Some(Payee { to: a.current_winner, amount: a.current_price })
    }
}

/// The sale that settles auction `a` of an item paid in `ft`.
pub open spec fn auction_sale(a: Auction, ft: Option<ContractId>, tx_id: TransactionId) -> PendingSale {
    PendingSale {
        tx_id,
        buyer: a.current_winner,
        price: a.current_price,
        ft_contract_id: ft,
        kind: SaleKind::AuctionWin,
    }
}

/// A settle action at `now`; `tx_id` is the id a first attempt takes.
pub open spec fn settle_spec(v: ItemView, now: u64, tx_id: TransactionId) -> Result<
    (ItemView, AuctionClose),
    MarketError,
> {
    if v.auction is None {
        Err(MarketError::NoAuction)
    } else {
        let a = v.auction->Some_0;
        if a.transaction is Some {
            let t = a.transaction->Some_0;
            Ok((v, AuctionClose::Rerun(auction_sale(a, v.ft_contract_id, t.tx_id))))
        } else if v.pending is Some {
            Err(MarketError::TransactionPending)
        } else if now < a.ended_at {
            Err(MarketError::AuctionStillOpen)
        } else if a.current_winner.is_zero_spec() {
            Ok((ItemView { auction: None, ..v }, AuctionClose::Cancelled))
        } else {
            let s = auction_sale(a, v.ft_contract_id, tx_id);
            let t = AuctionTransaction { winner: a.current_winner, price: a.current_price, tx_id };
            Ok(
                (
                    ItemView {
                        auction: Some(Auction { transaction: Some(t), ..a }),
                        pending: Some(s),
                        ..v
                    },
                    AuctionClose::Settle(s),
                ),
            )
        }
    }
}

/// A price offer by `offerer`.
pub open spec fn add_offer_spec(
    v: ItemView,
    offerer: ActorId,
    ft: Option<ContractId>,
    price: Price,
    value: u128,
) -> Result<ItemView, MarketError> {
    if v.pending is Some {
        Err(MarketError::TransactionPending)
    } else if v.auction is Some {
        Err(MarketError::AuctionActive)
    } else if price == 0 {
        Err(MarketError::ZeroPrice)
    } else if key_in(v.offers, ft, price) {
        Err(MarketError::DuplicateOffer)
    } else if is_native_mismatch(ft, value, price) {
        Err(MarketError::InsufficientPayment)
    } else {
        Ok(
            ItemView {
                offers: set_spec(v.offers, ft, price, offerer),
                ..v
            },
        )
    }
}

/// Withdrawal of an offer by `caller`.
pub open spec fn withdraw_spec(v: ItemView, caller: ActorId, ft: Option<ContractId>, price: Price) -> Result<
    ItemView,
    MarketError,
> {
    if v.pending is Some {
        Err(MarketError::TransactionPending)
    } else if !key_in(v.offers, ft, price) {
        Err(MarketError::OfferNotFound)
    } else if entry_of(v.offers, ft, price).account != caller {
        Err(MarketError::Unauthorized)
    } else {
        Ok(ItemView { offers: remove_spec(v.offers, ft, price), ..v })
    }
}

/// Acceptance of an offer by the owner; the offerer becomes the buyer.
pub open spec fn accept_spec(
    v: ItemView,
    caller: ActorId,
    ft: Option<ContractId>,
    price: Price,
    tx_id: TransactionId,
) -> Result<ItemView, MarketError> {
    if v.pending is Some {
        Err(MarketError::TransactionPending)
    } else if caller != v.owner {
        Err(MarketError::Unauthorized)
    } else if v.auction is Some {
        Err(MarketError::AuctionActive)
    } else if !key_in(v.offers, ft, price) {
        Err(MarketError::OfferNotFound)
    } else {
        Ok(
            ItemView {
                offers: remove_spec(v.offers, ft, price),
                pending: Some(
                    PendingSale {
                        tx_id,
                        buyer: entry_of(v.offers, ft, price).account,
                        price,
                        ft_contract_id: ft,
                        kind: SaleKind::AcceptedOffer,
                    },
                ),
                ..v
            },
        )
    }
}

/// The item once its pending sale went through: the buyer owns it, unlisted.
pub open spec fn complete_spec(v: ItemView) -> ItemView {
    ItemView {
        owner: v.pending->Some_0.buyer,
        price: None,
        auction: None,
        pending: None,
        ..v
    }
}

impl Item {
    pub open spec fn wf(&self) -> bool {
        self@.wf()
    }

    /// An unowned, unlisted item.
    pub fn new() -> (r: Item)
        ensures
            r.wf(),
            r@ == fresh_view(),
    {
        Item {
            owner: ActorId::zero(),
            ft_contract_id: None,
            price: None,
            auction: None,
            offers: OfferBook::new(),
            bids: OfferBook::new(),
            pending_transaction: None,
        }
    }

    pub fn list(&mut self, caller: ActorId, nft_owner: ActorId, ft: Option<ContractId>, price: Option<Price>) -> (r:
        Result<(), MarketError>)
        requires
            old(self).wf(),
        ensures
            final(self).wf(),
            list_spec(old(self)@, caller, nft_owner, ft, price) matches Ok(nv) ==> r is Ok && final(self)@ == nv,
            list_spec(old(self)@, caller, nft_owner, ft, price) matches Err(e) ==> r == Err::<(), MarketError>(e)
                && final(self)@ == old(self)@,
    {
        if self.pending_transaction.is_some() {
            return Err(MarketError::TransactionPending);
        }
        if caller != nft_owner {
            return Err(MarketError::Unauthorized);
        }
        if self.auction.is_some() {
            return Err(MarketError::AuctionActive);
        }
        self.owner = caller;
        self.ft_contract_id = ft;
        self.price = price;
        Ok(())
    }

    pub fn create_auction(
        &mut self,
        caller: ActorId,
        nft_owner: ActorId,
        ft: Option<ContractId>,
        min_price: Price,
        bid_period: u64,
        duration: u64,
        now: u64,
    ) -> (r: Result<(), MarketError>)
        requires
            old(self).wf(),
        ensures
            final(self).wf(),
            create_auction_spec(old(self)@, caller, nft_owner, ft, min_price, bid_period, duration, now) matches Ok(nv)
                ==> r is Ok && final(self)@ == nv,
            create_auction_spec(old(self)@, caller, nft_owner, ft, min_price, bid_period, duration, now) matches Err(
                e,
            ) ==> r == Err::<(), MarketError>(e) && final(self)@ == old(self)@,
    {
        if self.pending_transaction.is_some() {
            return Err(MarketError::TransactionPending);
        }
        if caller != nft_owner {
            return Err(MarketError::Unauthorized);
        }
        if self.auction.is_some() {
            return Err(MarketError::AuctionActive);
        }
        self.owner = caller;
        self.ft_contract_id = ft;
        self.price = None;
        self.auction = Some(Auction::new(min_price, bid_period, duration, now));
        Ok(())
    }

    /// Starts a purchase under `tx_id`; the item stays locked until it resolves.
    pub fn buy(&mut self, buyer: ActorId, value: u128, tx_id: TransactionId) -> (r: Result<PendingSale, MarketError>)
        requires
            old(self).wf(),
        ensures
            final(self).wf(),
            buy_spec(old(self)@, buyer, value, tx_id) matches Ok(nv) ==> r is Ok && final(self)@ == nv
                && nv.pending == Some(r->Ok_0),
            buy_spec(old(self)@, buyer, value, tx_id) matches Err(e) ==> r == Err::<PendingSale, MarketError>(e)
                && final(self)@ == old(self)@,
    {
        if self.pending_transaction.is_some() {
            return Err(MarketError::TransactionPending);
        }
        if self.auction.is_some() {
            return Err(MarketError::AuctionActive);
        }
        let price = match self.price {
            None => {
                return Err(MarketError::NotForSale);
            },
            Some(p) => p,
        };
        if self.ft_contract_id.is_none() && value != price {
            return Err(MarketError::InsufficientPayment);
        }
        let sale = PendingSale {
            tx_id,
            buyer,
            price,
            ft_contract_id: self.ft_contract_id,
            kind: SaleKind::Purchase,
        };
        self.pending_transaction = Some(sale);
        Ok(sale)
    }

    /// Places a bid; on success returns what the outbid leader is owed.
    pub fn bid(&mut self, bidder: ActorId, price: Price, value: u128, now: u64) -> (r: Result<
        Option<Payee>,
        MarketError,
    >)
        requires
            old(self).wf(),
        ensures
            final(self).wf(),
            bid_spec(old(self)@, bidder, price, value, now) matches Ok(nv) ==> r == Ok::<
                Option<Payee>,
                MarketError,
            >(outbid_refund(old(self)@.auction->Some_0)) && final(self)@ == nv,
            bid_spec(old(self)@, bidder, price, value, now) matches Err(e) ==> r == Err::<
                Option<Payee>,
                MarketError,
            >(e) && final(self)@ == old(self)@,
    {
        if self.pending_transaction.is_some() {
            return Err(MarketError::TransactionPending);
        }
        let mut a = match self.auction {
            None => {
                return Err(MarketError::NoAuction);
            },
            Some(a) => a,
        };
        let refund = if a.current_winner.is_zero() {
            None
        } else {
            Some(Payee { to: a.current_winner, amount: a.current_price })
        };
        match a.bid(bidder, price, now) {
            Err(e) => {
                return Err(e);
            },
            Ok(()) => {},
        }
        if self.ft_contract_id.is_none() && value != price {
            return Err(MarketError::InsufficientPayment);
        }
        self.auction = Some(a);
        self.bids.set(self.ft_contract_id, price, bidder);
        Ok(refund)
    }

    /// A settle action on the auction at `now`.
    pub fn settle_auction(&mut self, now: u64, tx_id: TransactionId) -> (r: Result<AuctionClose, MarketError>)
        requires
            old(self).wf(),
        ensures
            final(self).wf(),
            settle_spec(old(self)@, now, tx_id) matches Ok(p) ==> r == Ok::<AuctionClose, MarketError>(p.1)
                && final(self)@ == p.0,
            settle_spec(old(self)@, now, tx_id) matches Err(e) ==> r == Err::<AuctionClose, MarketError>(e)
                && final(self)@ == old(self)@,
    {
        let a = match self.auction {
            None => {
                return Err(MarketError::NoAuction);
            },
            Some(a) => a,
        };
        match a.transaction {
            Some(t) => {
                return Ok(
                    AuctionClose::Rerun(
                        PendingSale {
                            tx_id: t.tx_id,
                            buyer: a.current_winner,
                            price: a.current_price,
                            ft_contract_id: self.ft_contract_id,
                            kind: SaleKind::AuctionWin,
                        },
                    ),
                );
            },
            None => {},
        }
        if self.pending_transaction.is_some() {
            return Err(MarketError::TransactionPending);
        }
        if now < a.ended_at {
            return Err(MarketError::AuctionStillOpen);
        }
        if a.current_winner.is_zero() {
            self.auction = None;
            return Ok(AuctionClose::Cancelled);
        }
        let sale = PendingSale {
            tx_id,
            buyer: a.current_winner,
            price: a.current_price,
            ft_contract_id: self.ft_contract_id,
            kind: SaleKind::AuctionWin,
        };
        let t = AuctionTransaction { winner: a.current_winner, price: a.current_price, tx_id };
        self.auction = Some(Auction { transaction: Some(t), ..a });
        self.pending_transaction = Some(sale);
        Ok(AuctionClose::Settle(sale))
    }

    pub fn add_offer(&mut self, offerer: ActorId, ft: Option<ContractId>, price: Price, value: u128) -> (r: Result<
        (),
        MarketError,
    >)
        requires
            old(self).wf(),
        ensures
            final(self).wf(),
            add_offer_spec(old(self)@, offerer, ft, price, value) matches Ok(nv) ==> r is Ok && final(self)@ == nv,
            add_offer_spec(old(self)@, offerer, ft, price, value) matches Err(e) ==> r == Err::<(), MarketError>(e)
                && final(self)@ == old(self)@,
    {
        if self.pending_transaction.is_some() {
            return Err(MarketError::TransactionPending);
        }
        if self.auction.is_some() {
            return Err(MarketError::AuctionActive);
        }
        if price == 0 {
            return Err(MarketError::ZeroPrice);
        }
        if self.offers.find(ft, price).is_some() {
            return Err(MarketError::DuplicateOffer);
        }
        if ft.is_none() && value != price {
            return Err(MarketError::InsufficientPayment);
        }
        self.offers.set(ft, price, offerer);
        Ok(())
    }

    /// Withdraws an offer; on success returns what its offerer gets back.
    pub fn withdraw_offer(&mut self, caller: ActorId, ft: Option<ContractId>, price: Price) -> (r: Result<
        Payee,
        MarketError,
    >)
        requires
            old(self).wf(),
        ensures
            final(self).wf(),
            withdraw_spec(old(self)@, caller, ft, price) matches Ok(nv) ==> r == Ok::<Payee, MarketError>(
                Payee { to: caller, amount: price },
            ) && final(self)@ == nv,
            withdraw_spec(old(self)@, caller, ft, price) matches Err(e) ==> r == Err::<Payee, MarketError>(e)
                && final(self)@ == old(self)@,
    {
        if self.pending_transaction.is_some() {
            return Err(MarketError::TransactionPending);
        }
        match self.offers.get(ft, price) {
            None => {
                return Err(MarketError::OfferNotFound);
            },
            Some(a) => {
                if a != caller {
                    return Err(MarketError::Unauthorized);
                }
            },
        }
        let _ = self.offers.remove(ft, price);
        Ok(Payee { to: caller, amount: price })
    }

    /// Accepts an offer under `tx_id`; the entry leaves the book.
    pub fn accept_offer(&mut self, caller: ActorId, ft: Option<ContractId>, price: Price, tx_id: TransactionId) -> (r:
        Result<PendingSale, MarketError>)
        requires
            old(self).wf(),
        ensures
            final(self).wf(),
            accept_spec(old(self)@, caller, ft, price, tx_id) matches Ok(nv) ==> r is Ok && final(self)@ == nv
                && nv.pending == Some(r->Ok_0),
            accept_spec(old(self)@, caller, ft, price, tx_id) matches Err(e) ==> r == Err::<PendingSale, MarketError>(
                e,
            ) && final(self)@ == old(self)@,
    {
        if self.pending_transaction.is_some() {
            return Err(MarketError::TransactionPending);
        }
        if caller != self.owner {
            return Err(MarketError::Unauthorized);
        }
        if self.auction.is_some() {
            return Err(MarketError::AuctionActive);
        }
        let e = match self.offers.remove(ft, price) {
            None => {
                return Err(MarketError::OfferNotFound);
            },
            Some(e) => e,
        };
        let sale = PendingSale {
            tx_id,
            buyer: e.account,
            price,
            ft_contract_id: ft,
            kind: SaleKind::AcceptedOffer,
        };
        self.pending_transaction = Some(sale);
        Ok(sale)
    }

    /// The sale in flight, for a repeated attempt under its own id.
    pub fn pending_sale(&self) -> (r: Result<PendingSale, MarketError>)
        ensures
            self@.pending matches Some(s) ==> r == Ok::<PendingSale, MarketError>(s),
            self@.pending is None ==> r == Err::<PendingSale, MarketError>(MarketError::NothingPending),
    {
        match self.pending_transaction {
            Some(s) => Ok(s),
            None => Err(MarketError::NothingPending),
        }
    }

    /// Records that the pending sale went through.
    pub fn complete_sale(&mut self)
        requires
            old(self).wf(),
            old(self)@.pending is Some,
        ensures
            final(self).wf(),
            final(self)@ == complete_spec(old(self)@),
    {
        match self.pending_transaction {
            Some(s) => {
                self.owner = s.buyer;
            },
            None => {},
        }
        self.price = None;
        self.auction = None;
        self.pending_transaction = None;
    }
}

} // verus!
