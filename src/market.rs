//! The market actor's state and the handler of each inbound action.
use vstd::prelude::*;
use crate::item::{
    AuctionClose, Item, ItemView, SaleKind, complete_spec, accept_spec, add_offer_spec, bid_spec, buy_spec,
    create_auction_spec, fresh_view, list_spec, outbid_refund, settle_spec, withdraw_spec,
};
use crate::settlement::{Phase, Settlement, settlement_spec};
use crate::store::{ItemEntry, entries_wf, lemma_store_push, lemma_store_update, locate, store_view};
use crate::types::{ActorId, ContractId, InitMarket, MarketError, Payee, Price, TokenId, TransactionId};

verus! {

/// The reply to an action that went through.
#[derive(Clone, Copy, Debug, PartialEq, Eq, Structural)]
pub enum MarketEvent {
    NftContractAdded(ContractId),
    FtContractAdded(ContractId),
    MarketDataAdded { nft_contract_id: ContractId, owner: ActorId, token_id: TokenId, price: Option<u128> },
    ItemSold { owner: ActorId, nft_contract_id: ContractId, token_id: TokenId },
    BidAdded { nft_contract_id: ContractId, token_id: TokenId, price: u128 },
    AuctionCreated { nft_contract_id: ContractId, token_id: TokenId, price: u128 },
    AuctionSettled { nft_contract_id: ContractId, token_id: TokenId, price: u128 },
    AuctionCancelled { nft_contract_id: ContractId, token_id: TokenId },
    NFTListed { nft_contract_id: ContractId, owner: ActorId, token_id: TokenId, price: Option<u128> },
    OfferAdded { nft_contract_id: ContractId, ft_contract_id: Option<ActorId>, token_id: TokenId, price: u128 },
    OfferAccepted { nft_contract_id: ContractId, token_id: TokenId, new_owner: ActorId, price: u128 },
    Withdraw { nft_contract_id: ActorId, token_id: TokenId, price: u128 },
    TransactionFailed,
    RerunTransaction,
    TransferValue,
}

/// An inbound action. Who sends it, the native value attached and the time
/// come with the message, not in it.
#[derive(Clone, Copy, Debug, PartialEq, Eq, Structural)]
pub enum MarketAction {
    AddNftContract(ContractId),
    AddFTContract(ContractId),
    AddMarketData { nft_contract_id: ContractId, ft_contract_id: Option<ContractId>, token_id: TokenId, price: Option<u128> },
    BuyItem { nft_contract_id: ContractId, token_id: TokenId },
    CreateAuction {
        nft_contract_id: ContractId,
        ft_contract_id: Option<ContractId>,
        token_id: TokenId,
        min_price: u128,
        bid_period: u64,
        duration: u64,
    },
    AddBid { nft_contract_id: ContractId, token_id: TokenId, price: u128 },
    SettleAuction { nft_contract_id: ContractId, token_id: TokenId },
    AddOffer { nft_contract_id: ContractId, ft_contract_id: Option<ContractId>, token_id: TokenId, price: u128 },
    Withdraw { nft_contract_id: ContractId, token_id: TokenId, ft_contract_id: Option<ContractId>, price: Price },
    AcceptOffer { nft_contract_id: ContractId, token_id: TokenId, ft_contract_id: Option<ContractId>, price: Price },
    RerunTransaction { nft_contract_id: ContractId, token_id: TokenId },
}

/// How a settle action on an auction goes on.
#[derive(Clone, Copy, Debug, PartialEq, Eq, Structural)]
pub enum SettleReply {
    /// Nobody bid; the auction is closed and no funds move.
    Cancelled(MarketEvent),
    /// Drive this settlement.
    Settle(Settlement),
}

/// `n + 1`, held at `u64::MAX`.
pub open spec fn bump(n: TransactionId) -> TransactionId {
    if n < u64::MAX {
        (n + 1) as u64
    } else {
        n
    }
}

/// The reply once settlement `s` has completed.
pub open spec fn sold_event(s: Settlement) -> MarketEvent {
    match s.sale.kind {
        SaleKind::Purchase => MarketEvent::ItemSold {
            owner: s.sale.buyer,
            nft_contract_id: s.nft_contract_id,
            token_id: s.token_id,
        },
        SaleKind::AuctionWin => MarketEvent::AuctionSettled {
            nft_contract_id: s.nft_contract_id,
            token_id: s.token_id,
            price: s.sale.price,
        },
        SaleKind::AcceptedOffer => MarketEvent::OfferAccepted {
            nft_contract_id: s.nft_contract_id,
            token_id: s.token_id,
            new_owner: s.sale.buyer,
            price: s.sale.price,
        },
    }
}

/// The whole state of the market actor.
#[derive(Debug)]
pub struct Market {
    pub admin_id: ActorId,
    pub treasury_id: ActorId,
    /// Percent of each sale that goes to the treasury.
    pub treasury_fee: u8,
    pub approved_nft_contracts: Vec<ContractId>,
    pub approved_ft_contracts: Vec<ContractId>,
    pub items: Vec<ItemEntry>,
    /// The id the next settlement attempt takes.
    pub next_tx_id: TransactionId,
}

impl View for Market {
    type V = Map<(ContractId, TokenId), ItemView>;

    open spec fn view(&self) -> Map<(ContractId, TokenId), ItemView> {
        store_view(self.items@)
    }
}

fn contains_id(v: &Vec<ContractId>, c: ContractId) -> (r: bool)
    ensures
        r == v@.contains(c),
{
    let mut i: usize = 0;
    while i < v.len()
        invariant
            i <= v@.len(),
            forall|k: int| 0 <= k < i ==> v@[k] != c,
        decreases v@.len() - i,
    {
        if v[i] == c {
            return true;
        }
        i = i + 1;
    }
    false
}

impl Market {
    pub open spec fn wf(&self) -> bool {
        &&& self.treasury_fee <= 100
        &&& entries_wf(self.items@)
    }

    pub open spec fn approved_nft(&self) -> Set<ContractId> {
        self.approved_nft_contracts@.to_set()
    }

    pub open spec fn approved_ft(&self) -> Set<ContractId> {
        self.approved_ft_contracts@.to_set()
    }

    /// Everything but the items and the transaction counter is as in `o`.
    pub open spec fn same_config(&self, o: &Market) -> bool {
        &&& self.admin_id == o.admin_id
        &&& self.treasury_id == o.treasury_id
        &&& self.treasury_fee == o.treasury_fee
        &&& self.approved_nft() == o.approved_nft()
        &&& self.approved_ft() == o.approved_ft()
    }

    /// The item under `k`, or a fresh one where the store has none.
    pub open spec fn item_or_fresh(&self, k: (ContractId, TokenId)) -> ItemView {
        if self@.contains_key(k) {
            self@[k]
        } else {
            fresh_view()
        }
    }

    /// Whether `payment` is acceptable: native value, or an approved token.
    pub open spec fn payment_ok(&self, ft: Option<ContractId>) -> bool {
        ft matches Some(f) ==> self.approved_ft().contains(f)
    }

    pub fn new(init: InitMarket) -> (r: Market)
        requires
            init.treasury_fee <= 100,
        ensures
            r.wf(),
            r.admin_id == init.admin_id,
            r.treasury_id == init.treasury_id,
            r.treasury_fee == init.treasury_fee,
            r.approved_nft() == Set::<ContractId>::empty(),
            r.approved_ft() == Set::<ContractId>::empty(),
            r@ == Map::<(ContractId, TokenId), ItemView>::empty(),
            r.next_tx_id == 0,
    {
        let r = Market {
            admin_id: init.admin_id,
            treasury_id: init.treasury_id,
            treasury_fee: init.treasury_fee,
            approved_nft_contracts: Vec::new(),
            approved_ft_contracts: Vec::new(),
            items: Vec::new(),
            next_tx_id: 0,
        };
        assert(r.approved_nft() =~= Set::<ContractId>::empty());
        assert(r.approved_ft() =~= Set::<ContractId>::empty());
        assert(r@ =~= Map::<(ContractId, TokenId), ItemView>::empty());
        r
    }

    pub fn is_approved_nft(&self, c: ContractId) -> (r: bool)
        ensures
            r == self.approved_nft().contains(c),
    {
        contains_id(&self.approved_nft_contracts, c)
    }

    pub fn is_approved_ft(&self, c: ContractId) -> (r: bool)
        ensures
            r == self.approved_ft().contains(c),
    {
        contains_id(&self.approved_ft_contracts, c)
    }

    /// Admits an NFT contract; only the admin may.
    pub fn add_nft_contract(&mut self, caller: ActorId, c: ContractId) -> (r: Result<MarketEvent, MarketError>)
        requires
            old(self).wf(),
        ensures
            final(self).wf(),
            final(self)@ == old(self)@,
            final(self).next_tx_id == old(self).next_tx_id,
            final(self).admin_id == old(self).admin_id,
            final(self).treasury_id == old(self).treasury_id,
            final(self).treasury_fee == old(self).treasury_fee,
            final(self).approved_ft() == old(self).approved_ft(),
            caller != old(self).admin_id ==> r == Err::<MarketEvent, MarketError>(MarketError::Unauthorized)
                && final(self).approved_nft() == old(self).approved_nft(),
            caller == old(self).admin_id ==> r == Ok::<MarketEvent, MarketError>(MarketEvent::NftContractAdded(c))
                && final(self).approved_nft() == old(self).approved_nft().insert(c),
    {
        if caller != self.admin_id {
            return Err(MarketError::Unauthorized);
        }
        self.approved_nft_contracts.push(c);
        assert(self.approved_nft() =~= old(self).approved_nft().insert(c)) by {
            assert(self.approved_nft_contracts@ == old(self).approved_nft_contracts@.push(c));
            assert forall|x: ContractId| self.approved_nft().contains(x) <==> old(self).approved_nft().insert(
                c,
            ).contains(x) by {
                if old(self).approved_nft().contains(x) {
                    let k = choose|k: int| 0 <= k < old(self).approved_nft_contracts@.len()
                        && old(self).approved_nft_contracts@[k] == x;
                    assert(self.approved_nft_contracts@[k] == x);
                }
                if self.approved_nft().contains(x) && x != c {
                    let k = choose|k: int| 0 <= k < self.approved_nft_contracts@.len()
                        && self.approved_nft_contracts@[k] == x;
                    assert(old(self).approved_nft_contracts@[k] == x);
                }
                if x == c {
                    assert(self.approved_nft_contracts@[old(self).approved_nft_contracts@.len() as int] == c);
                }
            }
        }
        Ok(MarketEvent::NftContractAdded(c))
    }

    /// Admits a fungible-token contract; only the admin may.
    pub fn add_ft_contract(&mut self, caller: ActorId, c: ContractId) -> (r: Result<MarketEvent, MarketError>)
        requires
            old(self).wf(),
        ensures
            final(self).wf(),
            final(self)@ == old(self)@,
            final(self).next_tx_id == old(self).next_tx_id,
            final(self).admin_id == old(self).admin_id,
            final(self).treasury_id == old(self).treasury_id,
            final(self).treasury_fee == old(self).treasury_fee,
            final(self).approved_nft() == old(self).approved_nft(),
            caller != old(self).admin_id ==> r == Err::<MarketEvent, MarketError>(MarketError::Unauthorized)
                && final(self).approved_ft() == old(self).approved_ft(),
            caller == old(self).admin_id ==> r == Ok::<MarketEvent, MarketError>(MarketEvent::FtContractAdded(c))
                && final(self).approved_ft() == old(self).approved_ft().insert(c),
    {
        if caller != self.admin_id {
            return Err(MarketError::Unauthorized);
        }
        self.approved_ft_contracts.push(c);
        assert(self.approved_ft() =~= old(self).approved_ft().insert(c)) by {
            assert(self.approved_ft_contracts@ == old(self).approved_ft_contracts@.push(c));
            assert forall|x: ContractId| self.approved_ft().contains(x) <==> old(self).approved_ft().insert(
                c,
            ).contains(x) by {
                if old(self).approved_ft().contains(x) {
                    let k = choose|k: int| 0 <= k < old(self).approved_ft_contracts@.len()
                        && old(self).approved_ft_contracts@[k] == x;
                    assert(self.approved_ft_contracts@[k] == x);
                }
                if self.approved_ft().contains(x) && x != c {
                    let k = choose|k: int| 0 <= k < self.approved_ft_contracts@.len()
                        && self.approved_ft_contracts@[k] == x;
                    assert(old(self).approved_ft_contracts@[k] == x);
                }
                if x == c {
                    assert(self.approved_ft_contracts@[old(self).approved_ft_contracts@.len() as int] == c);
                }
            }
        }
        Ok(MarketEvent::FtContractAdded(c))
    }
    /// Places a bid of `price` (with `value` native value attached) at `now`;
    /// on success also returns what the outbid leader gets back.
    pub fn add_bid(&mut self, caller: ActorId, c: ContractId, t: TokenId, price: Price, value: u128, now: u64) -> (r:
        Result<(MarketEvent, Option<Payee>), MarketError>)
        requires
            old(self).wf(),
        ensures
            final(self).wf(),
            final(self).same_config(old(self)),
            final(self).next_tx_id == old(self).next_tx_id,
            !old(self)@.contains_key((c, t)) ==> r == Err::<(MarketEvent, Option<Payee>), MarketError>(
                MarketError::NoItem,
            ) && final(self)@ == old(self)@,
            old(self)@.contains_key((c, t)) ==> match bid_spec(old(self)@[(c, t)], caller, price, value, now) {
                Ok(nv) => r == Ok::<(MarketEvent, Option<Payee>), MarketError>(
                    (
                        MarketEvent::BidAdded { nft_contract_id: c, token_id: t, price },
                        outbid_refund(old(self)@[(c, t)].auction->Some_0),
                    ),
                ) && final(self)@ == old(self)@.insert((c, t), nv),
                Err(e) => r == Err::<(MarketEvent, Option<Payee>), MarketError>(e) && final(self)@ == old(self)@,
            },
    {
        let i = match locate(&self.items, c, t) {
            None => {
                return Err(MarketError::NoItem);
            },
            Some(i) => i,
        };
        let mut e = self.items.remove(i);
        let res = e.item.bid(caller, price, value, now);
        let ghost ge = e;
        self.items.insert(i, e);
        proof {
            lemma_store_update(old(self).items@, i as int, ge);
            assert(old(self)@.insert((c, t), old(self)@[(c, t)]) =~= old(self)@);
        }
        match res {
            Ok(refund) => Ok((MarketEvent::BidAdded { nft_contract_id: c, token_id: t, price }, refund)),
            Err(err) => Err(err),
        }
    }
    fn mint(&mut self)
        ensures
            final(self).next_tx_id == bump(old(self).next_tx_id),
            final(self).items@ == old(self).items@,
            final(self).admin_id == old(self).admin_id,
            final(self).treasury_id == old(self).treasury_id,
            final(self).treasury_fee == old(self).treasury_fee,
            final(self).approved_nft_contracts@ == old(self).approved_nft_contracts@,
            final(self).approved_ft_contracts@ == old(self).approved_ft_contracts@,
    {
        if self.next_tx_id < u64::MAX {
            self.next_tx_id = self.next_tx_id + 1;
        }
    }

    /// Lists an item or changes its terms. `nft_owner` is the owner of the
    /// token as its NFT contract reports it.
    pub fn add_market_data(
        &mut self,
        caller: ActorId,
        nft_owner: ActorId,
        c: ContractId,
        ft: Option<ContractId>,
        t: TokenId,
        price: Option<Price>,
    ) -> (r: Result<MarketEvent, MarketError>)
        requires
            old(self).wf(),
        ensures
            final(self).wf(),
            final(self).same_config(old(self)),
            final(self).next_tx_id == old(self).next_tx_id,
            !(old(self).approved_nft().contains(c) && old(self).payment_ok(ft)) ==> r == Err::<
                MarketEvent,
                MarketError,
            >(MarketError::NotApproved) && final(self)@ == old(self)@,
            old(self).approved_nft().contains(c) && old(self).payment_ok(ft) ==> match list_spec(
                old(self).item_or_fresh((c, t)),
                caller,
                nft_owner,
                ft,
                price,
            ) {
                Ok(nv) => r == Ok::<MarketEvent, MarketError>(
                    MarketEvent::MarketDataAdded { nft_contract_id: c, owner: caller, token_id: t, price },
                ) && final(self)@ == old(self)@.insert((c, t), nv),
                Err(e) => r == Err::<MarketEvent, MarketError>(e) && final(self)@ == old(self)@,
            },
    {
        if !self.is_approved_nft(c) {
            return Err(MarketError::NotApproved);
        }
        match ft {
            Some(f) => {
                if !self.is_approved_ft(f) {
                    return Err(MarketError::NotApproved);
                }
            },
            None => {},
        }
        let res = match locate(&self.items, c, t) {
            Some(i) => {
                let mut e = self.items.remove(i);
                let res = e.item.list(caller, nft_owner, ft, price);
                let ghost ge = e;
                self.items.insert(i, e);
                proof {
                    lemma_store_update(old(self).items@, i as int, ge);
                    assert(old(self)@.insert((c, t), old(self)@[(c, t)]) =~= old(self)@);
                }
                res
            },
            None => {
                let mut item = Item::new();
                let res = item.list(caller, nft_owner, ft, price);
                if res.is_ok() {
                    let e = ItemEntry { nft_contract_id: c, token_id: t, item };
                    proof {
                        lemma_store_push(self.items@, e);
                    }
                    self.items.push(e);
                }
                res
            },
        };
        match res {
            Ok(()) => Ok(MarketEvent::MarketDataAdded { nft_contract_id: c, owner: caller, token_id: t, price }),
            Err(err) => Err(err),
        }
    }

    /// Opens an auction at `now`; the item leaves direct sale.
    pub fn create_auction(
        &mut self,
        caller: ActorId,
        nft_owner: ActorId,
        c: ContractId,
        ft: Option<ContractId>,
        t: TokenId,
        min_price: Price,
        bid_period: u64,
        duration: u64,
        now: u64,
    ) -> (r: Result<MarketEvent, MarketError>)
        requires
            old(self).wf(),
        ensures
            final(self).wf(),
            final(self).same_config(old(self)),
            final(self).next_tx_id == old(self).next_tx_id,
            !(old(self).approved_nft().contains(c) && old(self).payment_ok(ft)) ==> r == Err::<
                MarketEvent,
                MarketError,
            >(MarketError::NotApproved) && final(self)@ == old(self)@,
            old(self).approved_nft().contains(c) && old(self).payment_ok(ft) ==> match create_auction_spec(
                old(self).item_or_fresh((c, t)),
                caller,
                nft_owner,
                ft,
                min_price,
                bid_period,
                duration,
                now,
            ) {
                Ok(nv) => r == Ok::<MarketEvent, MarketError>(
                    MarketEvent::AuctionCreated { nft_contract_id: c, token_id: t, price: min_price },
                ) && final(self)@ == old(self)@.insert((c, t), nv),
                Err(e) => r == Err::<MarketEvent, MarketError>(e) && final(self)@ == old(self)@,
            },
    {
        if !self.is_approved_nft(c) {
            return Err(MarketError::NotApproved);
        }
        match ft {
            Some(f) => {
                if !self.is_approved_ft(f) {
                    return Err(MarketError::NotApproved);
                }
            },
            None => {},
        }
        let res = match locate(&self.items, c, t) {
            Some(i) => {
                let mut e = self.items.remove(i);
                let res = e.item.create_auction(caller, nft_owner, ft, min_price, bid_period, duration, now);
                let ghost ge = e;
                self.items.insert(i, e);
                proof {
                    lemma_store_update(old(self).items@, i as int, ge);
                    assert(old(self)@.insert((c, t), old(self)@[(c, t)]) =~= old(self)@);
                }
                res
            },
            None => {
                let mut item = Item::new();
                let res = item.create_auction(caller, nft_owner, ft, min_price, bid_period, duration, now);
                if res.is_ok() {
                    let e = ItemEntry { nft_contract_id: c, token_id: t, item };
                    proof {
                        lemma_store_push(self.items@, e);
                    }
                    self.items.push(e);
                }
                res
            },
        };
        match res {
            Ok(()) => Ok(MarketEvent::AuctionCreated { nft_contract_id: c, token_id: t, price: min_price }),
            Err(err) => Err(err),
        }
    }

    /// Starts a purchase at the asking price under a new transaction id.
    pub fn buy_item(&mut self, caller: ActorId, c: ContractId, t: TokenId, value: u128) -> (r: Result<
        Settlement,
        MarketError,
    >)
        requires
            old(self).wf(),
        ensures
            final(self).wf(),
            final(self).same_config(old(self)),
            !old(self)@.contains_key((c, t)) ==> r == Err::<Settlement, MarketError>(MarketError::NoItem)
                && final(self)@ == old(self)@ && final(self).next_tx_id == old(self).next_tx_id,
            old(self)@.contains_key((c, t)) ==> match buy_spec(old(self)@[(c, t)], caller, value, old(self).next_tx_id) {
                Ok(nv) => r == Ok::<Settlement, MarketError>(
                    settlement_spec(
                        c,
                        t,
                        old(self)@[(c, t)].owner,
                        nv.pending->Some_0,
                        old(self).treasury_id,
                        old(self).treasury_fee,
                    ),
                ) && final(self)@ == old(self)@.insert((c, t), nv) && final(self).next_tx_id == bump(
                    old(self).next_tx_id,
                ),
                Err(e) => r == Err::<Settlement, MarketError>(e) && final(self)@ == old(self)@
                    && final(self).next_tx_id == old(self).next_tx_id,
            },
    {
        let i = match locate(&self.items, c, t) {
            None => {
                return Err(MarketError::NoItem);
            },
            Some(i) => i,
        };
        let mut e = self.items.remove(i);
        let seller = e.item.owner;
        let res = e.item.buy(caller, value, self.next_tx_id);
        let ghost ge = e;
        self.items.insert(i, e);
        proof {
            lemma_store_update(old(self).items@, i as int, ge);
            assert(old(self)@.insert((c, t), old(self)@[(c, t)]) =~= old(self)@);
        }
        match res {
            Ok(sale) => {
                self.mint();
                Ok(Settlement::new(c, t, seller, sale, self.treasury_id, self.treasury_fee))
            },
            Err(err) => Err(err),
        }
    }

    /// A settle action at `now`: cancels an auction nobody bid on, starts the
    /// winner's settlement under a new id, or re-drives an attempted one under
    /// the id it already has.
    pub fn settle_auction(&mut self, c: ContractId, t: TokenId, now: u64) -> (r: Result<SettleReply, MarketError>)
        requires
            old(self).wf(),
        ensures
            final(self).wf(),
            final(self).same_config(old(self)),
            !old(self)@.contains_key((c, t)) ==> r == Err::<SettleReply, MarketError>(MarketError::NoItem)
                && final(self)@ == old(self)@ && final(self).next_tx_id == old(self).next_tx_id,
            old(self)@.contains_key((c, t)) ==> match settle_spec(old(self)@[(c, t)], now, old(self).next_tx_id) {
                Ok(p) => final(self)@ == old(self)@.insert((c, t), p.0) && match p.1 {
                    AuctionClose::Cancelled => r == Ok::<SettleReply, MarketError>(
                        SettleReply::Cancelled(MarketEvent::AuctionCancelled { nft_contract_id: c, token_id: t }),
                    ) && final(self).next_tx_id == old(self).next_tx_id,
                    AuctionClose::Settle(s) => r == Ok::<SettleReply, MarketError>(
                        SettleReply::Settle(
                            settlement_spec(
                                c,
                                t,
                                old(self)@[(c, t)].owner,
                                s,
                                old(self).treasury_id,
                                old(self).treasury_fee,
                            ),
                        ),
                    ) && final(self).next_tx_id == bump(old(self).next_tx_id),
                    AuctionClose::Rerun(s) => r == Ok::<SettleReply, MarketError>(
                        SettleReply::Settle(
                            settlement_spec(
                                c,
                                t,
                                old(self)@[(c, t)].owner,
                                s,
                                old(self).treasury_id,
                                old(self).treasury_fee,
                            ),
                        ),
                    ) && final(self).next_tx_id == old(self).next_tx_id,
                },
                Err(e) => r == Err::<SettleReply, MarketError>(e) && final(self)@ == old(self)@
                    && final(self).next_tx_id == old(self).next_tx_id,
            },
    {
        let i = match locate(&self.items, c, t) {
            None => {
                return Err(MarketError::NoItem);
            },
            Some(i) => i,
        };
        let mut e = self.items.remove(i);
        let seller = e.item.owner;
        let res = e.item.settle_auction(now, self.next_tx_id);
        let ghost ge = e;
        self.items.insert(i, e);
        proof {
            lemma_store_update(old(self).items@, i as int, ge);
            assert(old(self)@.insert((c, t), old(self)@[(c, t)]) =~= old(self)@);
        }
        match res {
            Ok(AuctionClose::Cancelled) => Ok(
                SettleReply::Cancelled(MarketEvent::AuctionCancelled { nft_contract_id: c, token_id: t }),
            ),
            Ok(AuctionClose::Settle(sale)) => {
                self.mint();
                Ok(SettleReply::Settle(Settlement::new(c, t, seller, sale, self.treasury_id, self.treasury_fee)))
            },
            Ok(AuctionClose::Rerun(sale)) => Ok(
                SettleReply::Settle(Settlement::new(c, t, seller, sale, self.treasury_id, self.treasury_fee)),
            ),
            Err(err) => Err(err),
        }
    }
    /// Adds a price offer (with `value` native value attached).
    pub fn add_offer(
        &mut self,
        caller: ActorId,
        c: ContractId,
        ft: Option<ContractId>,
        t: TokenId,
        price: Price,
        value: u128,
    ) -> (r: Result<MarketEvent, MarketError>)
        requires
            old(self).wf(),
        ensures
            final(self).wf(),
            final(self).same_config(old(self)),
            final(self).next_tx_id == old(self).next_tx_id,
            !old(self)@.contains_key((c, t)) ==> r == Err::<MarketEvent, MarketError>(MarketError::NoItem)
                && final(self)@ == old(self)@,
            old(self)@.contains_key((c, t)) && !old(self).payment_ok(ft) ==> r == Err::<MarketEvent, MarketError>(
                MarketError::NotApproved,
            ) && final(self)@ == old(self)@,
            old(self)@.contains_key((c, t)) && old(self).payment_ok(ft) ==> match add_offer_spec(
                old(self)@[(c, t)],
                caller,
                ft,
                price,
                value,
            ) {
                Ok(nv) => r == Ok::<MarketEvent, MarketError>(
                    MarketEvent::OfferAdded { nft_contract_id: c, ft_contract_id: ft, token_id: t, price },
                ) && final(self)@ == old(self)@.insert((c, t), nv),
                Err(e) => r == Err::<MarketEvent, MarketError>(e) && final(self)@ == old(self)@,
            },
    {
        let i = match locate(&self.items, c, t) {
            None => {
                return Err(MarketError::NoItem);
            },
            Some(i) => i,
        };
        match ft {
            Some(f) => {
                if !self.is_approved_ft(f) {
                    return Err(MarketError::NotApproved);
                }
            },
            None => {},
        }
        let mut e = self.items.remove(i);
        let res = e.item.add_offer(caller, ft, price, value);
        let ghost ge = e;
        self.items.insert(i, e);
        proof {
            lemma_store_update(old(self).items@, i as int, ge);
            assert(old(self)@.insert((c, t), old(self)@[(c, t)]) =~= old(self)@);
        }
        match res {
            Ok(()) => Ok(MarketEvent::OfferAdded { nft_contract_id: c, ft_contract_id: ft, token_id: t, price }),
            Err(err) => Err(err),
        }
    }

    /// Withdraws the caller's offer; on success also returns the refund owed.
    pub fn withdraw(&mut self, caller: ActorId, c: ContractId, t: TokenId, ft: Option<ContractId>, price: Price) -> (r:
        Result<(MarketEvent, Payee), MarketError>)
        requires
            old(self).wf(),
        ensures
            final(self).wf(),
            final(self).same_config(old(self)),
            final(self).next_tx_id == old(self).next_tx_id,
            !old(self)@.contains_key((c, t)) ==> r == Err::<(MarketEvent, Payee), MarketError>(MarketError::NoItem)
                && final(self)@ == old(self)@,
            old(self)@.contains_key((c, t)) ==> match withdraw_spec(old(self)@[(c, t)], caller, ft, price) {
                Ok(nv) => r == Ok::<(MarketEvent, Payee), MarketError>(
                    (
                        MarketEvent::Withdraw { nft_contract_id: c, token_id: t, price },
                        Payee { to: caller, amount: price },
                    ),
                ) && final(self)@ == old(self)@.insert((c, t), nv),
                Err(e) => r == Err::<(MarketEvent, Payee), MarketError>(e) && final(self)@ == old(self)@,
            },
    {
        let i = match locate(&self.items, c, t) {
            None => {
                return Err(MarketError::NoItem);
            },
            Some(i) => i,
        };
        let mut e = self.items.remove(i);
        let res = e.item.withdraw_offer(caller, ft, price);
        let ghost ge = e;
        self.items.insert(i, e);
        proof {
            lemma_store_update(old(self).items@, i as int, ge);
            assert(old(self)@.insert((c, t), old(self)@[(c, t)]) =~= old(self)@);
        }
        match res {
            Ok(refund) => Ok((MarketEvent::Withdraw { nft_contract_id: c, token_id: t, price }, refund)),
            Err(err) => Err(err),
        }
    }

    /// The owner accepts an offer; its offerer's purchase starts under a new id.
    pub fn accept_offer(
        &mut self,
        caller: ActorId,
        c: ContractId,
        t: TokenId,
        ft: Option<ContractId>,
        price: Price,
    ) -> (r: Result<Settlement, MarketError>)
        requires
            old(self).wf(),
        ensures
            final(self).wf(),
            final(self).same_config(old(self)),
            !old(self)@.contains_key((c, t)) ==> r == Err::<Settlement, MarketError>(MarketError::NoItem)
                && final(self)@ == old(self)@ && final(self).next_tx_id == old(self).next_tx_id,
            old(self)@.contains_key((c, t)) ==> match accept_spec(
                old(self)@[(c, t)],
                caller,
                ft,
                price,
                old(self).next_tx_id,
            ) {
                Ok(nv) => r == Ok::<Settlement, MarketError>(
                    settlement_spec(
                        c,
                        t,
                        old(self)@[(c, t)].owner,
                        nv.pending->Some_0,
                        old(self).treasury_id,
                        old(self).treasury_fee,
                    ),
                ) && final(self)@ == old(self)@.insert((c, t), nv) && final(self).next_tx_id == bump(
                    old(self).next_tx_id,
                ),
                Err(e) => r == Err::<Settlement, MarketError>(e) && final(self)@ == old(self)@
                    && final(self).next_tx_id == old(self).next_tx_id,
            },
    {
        let i = match locate(&self.items, c, t) {
            None => {
                return Err(MarketError::NoItem);
            },
            Some(i) => i,
        };
        let mut e = self.items.remove(i);
        let seller = e.item.owner;
        let res = e.item.accept_offer(caller, ft, price, self.next_tx_id);
        let ghost ge = e;
        self.items.insert(i, e);
        proof {
            lemma_store_update(old(self).items@, i as int, ge);
            assert(old(self)@.insert((c, t), old(self)@[(c, t)]) =~= old(self)@);
        }
        match res {
            Ok(sale) => {
                self.mint();
                Ok(Settlement::new(c, t, seller, sale, self.treasury_id, self.treasury_fee))
            },
            Err(err) => Err(err),
        }
    }

    /// The settlement of the sale in flight on an item, under the id it
    /// already has, to drive it again after a failed step.
    pub fn rerun_settlement(&self, c: ContractId, t: TokenId) -> (r: Result<Settlement, MarketError>)
        requires
            self.wf(),
        ensures
            !self@.contains_key((c, t)) ==> r == Err::<Settlement, MarketError>(MarketError::NoItem),
            self@.contains_key((c, t)) && self@[(c, t)].pending is None ==> r == Err::<Settlement, MarketError>(
                MarketError::NothingPending,
            ),
            self@.contains_key((c, t)) && self@[(c, t)].pending is Some ==> r == Ok::<Settlement, MarketError>(
                settlement_spec(
                    c,
                    t,
                    self@[(c, t)].owner,
                    self@[(c, t)].pending->Some_0,
                    self.treasury_id,
                    self.treasury_fee,
                ),
            ),
    {
        let i = match locate(&self.items, c, t) {
            None => {
                return Err(MarketError::NoItem);
            },
            Some(i) => i,
        };
        let e = &self.items[i];
        match e.item.pending_sale() {
            Ok(sale) => Ok(Settlement::new(c, t, e.item.owner, sale, self.treasury_id, self.treasury_fee)),
            Err(err) => Err(err),
        }
    }

    /// Records the outcome of a settlement that has run. One that reached
    /// `Done` for the sale its item is locked on completes that sale; any other
    /// leaves the state as it is, the item locked for a rerun.
    pub fn finish_settlement(&mut self, s: &Settlement) -> (r: MarketEvent)
        requires
            old(self).wf(),
        ensures
            final(self).wf(),
            final(self).same_config(old(self)),
            final(self).next_tx_id == old(self).next_tx_id,
            ({
                let k = (s.nft_contract_id, s.token_id);
                if s.phase == Phase::Done && old(self)@.contains_key(k) && old(self)@[k].pending == Some(s.sale) {
                    r == sold_event(*s) && final(self)@ == old(self)@.insert(k, complete_spec(old(self)@[k]))
                } else {
                    r == MarketEvent::TransactionFailed && final(self)@ == old(self)@
                }
            }),
    {
        if s.phase != Phase::Done {
            return MarketEvent::TransactionFailed;
        }
        let c = s.nft_contract_id;
        let t = s.token_id;
        let i = match locate(&self.items, c, t) {
            None => {
                return MarketEvent::TransactionFailed;
            },
            Some(i) => i,
        };
        match self.items[i].item.pending_transaction {
            Some(p) => {
                if p != s.sale {
                    return MarketEvent::TransactionFailed;
                }
            },
            None => {
                return MarketEvent::TransactionFailed;
            },
        }
        let mut e = self.items.remove(i);
        e.item.complete_sale();
        let ghost ge = e;
        self.items.insert(i, e);
        proof {
            lemma_store_update(old(self).items@, i as int, ge);
        }
        match s.sale.kind {
            SaleKind::Purchase => MarketEvent::ItemSold { owner: s.sale.buyer, nft_contract_id: c, token_id: t },
            SaleKind::AuctionWin => MarketEvent::AuctionSettled { nft_contract_id: c, token_id: t, price: s.sale.price },
            SaleKind::AcceptedOffer => MarketEvent::OfferAccepted {
                nft_contract_id: c,
                token_id: t,
                new_owner: s.sale.buyer,
                price: s.sale.price,
            },
        }
    }
    /// The currency an item trades in, if the store has the item.
    pub fn payment_token(&self, c: ContractId, t: TokenId) -> (r: Option<Option<ContractId>>)
        requires
            self.wf(),
        ensures
            !self@.contains_key((c, t)) ==> r is None,
            self@.contains_key((c, t)) ==> r == Some(self@[(c, t)].ft_contract_id),
    {
        match locate(&self.items, c, t) {
            None => None,
            Some(i) => Some(self.items[i].item.ft_contract_id),
        }
    }
}

} // verus!
