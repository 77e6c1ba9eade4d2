use nft_market::item::SaleKind;
use nft_market::market::{Market, MarketEvent, SettleReply};
use nft_market::settlement::{Phase, SettleCommand, SettleEvent, Settlement, checked_total, treasury_fee};
use nft_market::types::{ActorId, InitMarket, MarketError, Payee, TokenId};

fn actor(n: u128) -> ActorId {
    ActorId { hi: 0, lo: n }
}

const ADMIN: u128 = 1;
const TREASURY: u128 = 2;
const SELLER: u128 = 3;
const BIDDER: u128 = 4;
const NFT: u128 = 10;
const FT: u128 = 11;

fn token() -> TokenId {
    TokenId { hi: 0, lo: 7 }
}

fn market(fee: u8) -> Market {
    let mut m = Market::new(InitMarket { admin_id: actor(ADMIN), treasury_id: actor(TREASURY), treasury_fee: fee });
    assert!(m.add_nft_contract(actor(ADMIN), actor(NFT)).is_ok());
    assert!(m.add_ft_contract(actor(ADMIN), actor(FT)).is_ok());
    m
}

fn listed(price: u128) -> Market {
    let mut m = market(1);
    let r = m.add_market_data(actor(SELLER), actor(SELLER), actor(NFT), None, token(), Some(price));
    assert!(r.is_ok());
    m
}

fn with_auction() -> Market {
    let mut m = market(1);
    let r = m.create_auction(actor(SELLER), actor(SELLER), actor(NFT), None, token(), 100, 10, 50, 0);
    assert_eq!(r, Ok(MarketEvent::AuctionCreated { nft_contract_id: actor(NFT), token_id: token(), price: 100 }));
    m
}

fn item_of(m: &Market) -> &nft_market::item::Item {
    &m.items[0].item
}

/// Runs a settlement to the end with every step succeeding.
fn drive_ok(s: &mut Settlement, payouts: Vec<Payee>) {
    let _ = s.start();
    assert!(matches!(s.step(SettleEvent::Payouts(payouts)), SettleCommand::Pay { .. }));
    assert!(matches!(s.step(SettleEvent::PaymentsDone(true)), SettleCommand::TransferNft { .. }));
    assert!(matches!(s.step(SettleEvent::NftTransferred(true)), SettleCommand::Complete));
}

#[test]
fn late_bid_extends_then_settles() {
    let mut m = with_auction();
    let r = m.add_bid(actor(BIDDER), actor(NFT), token(), 150, 150, 45);
    assert_eq!(r, Ok((MarketEvent::BidAdded { nft_contract_id: actor(NFT), token_id: token(), price: 150 }, None)));
    assert_eq!(item_of(&m).auction.unwrap().ended_at, 55);
    assert_eq!(m.settle_auction(actor(NFT), token(), 40), Err(MarketError::AuctionStillOpen));
    let mut s = match m.settle_auction(actor(NFT), token(), 60) {
        Ok(SettleReply::Settle(s)) => s,
        other => panic!("unexpected {:?}", other),
    };
    assert_eq!(s.sale.buyer, actor(BIDDER));
    assert_eq!(s.sale.price, 150);
    assert_eq!(s.fee, 1);
    match s.start() {
        SettleCommand::RequestPayouts { nft_contract_id, seller, amount } => {
            assert_eq!(nft_contract_id, actor(NFT));
            assert_eq!(seller, actor(SELLER));
            assert_eq!(amount, 149);
        },
        other => panic!("unexpected {:?}", other),
    }
    match s.step(SettleEvent::Payouts(vec![Payee { to: actor(SELLER), amount: 149 }])) {
        SettleCommand::Pay { ft_contract_id, tx_id, payees } => {
            assert_eq!(ft_contract_id, None);
            assert_eq!(tx_id, 0);
            assert_eq!(payees, vec![
                Payee { to: actor(TREASURY), amount: 1 },
                Payee { to: actor(SELLER), amount: 149 },
            ]);
        },
        other => panic!("unexpected {:?}", other),
    }
    match s.step(SettleEvent::PaymentsDone(true)) {
        SettleCommand::TransferNft { nft_contract_id, to, token_id, tx_id } => {
            assert_eq!(nft_contract_id, actor(NFT));
            assert_eq!(to, actor(BIDDER));
            assert_eq!(token_id, token());
            assert_eq!(tx_id, 0);
        },
        other => panic!("unexpected {:?}", other),
    }
    assert!(matches!(s.step(SettleEvent::NftTransferred(true)), SettleCommand::Complete));
    assert_eq!(s.phase, Phase::Done);
    let ev = m.finish_settlement(&s);
    assert_eq!(ev, MarketEvent::AuctionSettled { nft_contract_id: actor(NFT), token_id: token(), price: 150 });
    assert_eq!(item_of(&m).owner, actor(BIDDER));
    assert!(item_of(&m).auction.is_none());
    assert!(item_of(&m).pending_transaction.is_none());
}

#[test]
fn zero_price_offer_rejected() {
    let mut m = listed(500);
    let r = m.add_offer(actor(BIDDER), actor(NFT), None, token(), 0, 0);
    assert_eq!(r, Err(MarketError::ZeroPrice));
    assert!(item_of(&m).offers.entries.is_empty());
    assert_eq!(item_of(&m).price, Some(500));
}

#[test]
fn buy_during_auction_rejected() {
    let mut m = with_auction();
    assert_eq!(m.buy_item(actor(BIDDER), actor(NFT), token(), 100).unwrap_err(), MarketError::AuctionActive);
}

#[test]
fn auction_clears_direct_sale() {
    let mut m = listed(500);
    let r = m.create_auction(actor(SELLER), actor(SELLER), actor(NFT), None, token(), 100, 10, 50, 0);
    assert!(r.is_ok());
    assert!(item_of(&m).price.is_none());
    assert!(item_of(&m).auction.is_some());
    let r = m.add_market_data(actor(SELLER), actor(SELLER), actor(NFT), None, token(), Some(9));
    assert_eq!(r, Err(MarketError::AuctionActive));
    assert!(item_of(&m).price.is_none());
}

#[test]
fn bid_must_exceed_current_price() {
    let mut m = with_auction();
    assert_eq!(m.add_bid(actor(BIDDER), actor(NFT), token(), 100, 100, 5), Err(MarketError::PriceTooLow));
    assert!(m.add_bid(actor(BIDDER), actor(NFT), token(), 101, 101, 5).is_ok());
    let a = item_of(&m).auction.unwrap();
    assert_eq!(a.current_price, 101);
    assert_eq!(a.current_winner, actor(BIDDER));
    let r = m.add_bid(actor(5), actor(NFT), token(), 120, 120, 6);
    assert_eq!(r.unwrap().1, Some(Payee { to: actor(BIDDER), amount: 101 }));
    assert_eq!(m.add_bid(actor(5), actor(NFT), token(), 130, 130, 50), Err(MarketError::AuctionExpired));
}

#[test]
fn early_bid_keeps_deadline() {
    let mut m = with_auction();
    assert!(m.add_bid(actor(BIDDER), actor(NFT), token(), 150, 150, 10).is_ok());
    assert_eq!(item_of(&m).auction.unwrap().ended_at, 50);
    assert!(m.add_bid(actor(5), actor(NFT), token(), 160, 160, 40).is_ok());
    assert_eq!(item_of(&m).auction.unwrap().ended_at, 50);
    assert!(m.add_bid(actor(6), actor(NFT), token(), 170, 170, 42).is_ok());
    assert_eq!(item_of(&m).auction.unwrap().ended_at, 52);
}

#[test]
fn unbid_auction_cancels() {
    let mut m = with_auction();
    let r = m.settle_auction(actor(NFT), token(), 50);
    assert_eq!(
        r,
        Ok(SettleReply::Cancelled(MarketEvent::AuctionCancelled { nft_contract_id: actor(NFT), token_id: token() }))
    );
    assert!(item_of(&m).auction.is_none());
    assert_eq!(m.next_tx_id, 0);
    assert_eq!(item_of(&m).owner, actor(SELLER));
}

#[test]
fn failed_settlement_reruns_same_id() {
    let mut m = with_auction();
    assert!(m.add_bid(actor(BIDDER), actor(NFT), token(), 150, 150, 20).is_ok());
    let mut s = match m.settle_auction(actor(NFT), token(), 60) {
        Ok(SettleReply::Settle(s)) => s,
        other => panic!("unexpected {:?}", other),
    };
    assert_eq!(s.sale.tx_id, 0);
    assert_eq!(m.next_tx_id, 1);
    let _ = s.start();
    assert!(matches!(s.step(SettleEvent::Payouts(vec![Payee { to: actor(SELLER), amount: 149 }])), SettleCommand::Pay { .. }));
    assert!(matches!(s.step(SettleEvent::PaymentsDone(true)), SettleCommand::TransferNft { .. }));
    assert!(matches!(s.step(SettleEvent::NftTransferred(false)), SettleCommand::Abort));
    assert_eq!(m.finish_settlement(&s), MarketEvent::TransactionFailed);
    assert_eq!(item_of(&m).owner, actor(SELLER));
    assert_eq!(item_of(&m).pending_transaction.unwrap().tx_id, 0);
    assert_eq!(m.buy_item(actor(5), actor(NFT), token(), 0).unwrap_err(), MarketError::TransactionPending);

    let mut again = match m.settle_auction(actor(NFT), token(), 70) {
        Ok(SettleReply::Settle(s)) => s,
        other => panic!("unexpected {:?}", other),
    };
    assert_eq!(again.sale.tx_id, 0);
    assert_eq!(m.next_tx_id, 1);
    drive_ok(&mut again, vec![Payee { to: actor(SELLER), amount: 149 }]);
    assert_eq!(
        m.finish_settlement(&again),
        MarketEvent::AuctionSettled { nft_contract_id: actor(NFT), token_id: token(), price: 150 }
    );
    assert_eq!(m.finish_settlement(&again), MarketEvent::TransactionFailed);
    assert_eq!(m.settle_auction(actor(NFT), token(), 80), Err(MarketError::NoAuction));
    assert_eq!(item_of(&m).owner, actor(BIDDER));
}

#[test]
fn duplicate_offer_rejected() {
    let mut m = listed(500);
    assert_eq!(
        m.add_offer(actor(BIDDER), actor(NFT), None, token(), 300, 300),
        Ok(MarketEvent::OfferAdded { nft_contract_id: actor(NFT), ft_contract_id: None, token_id: token(), price: 300 })
    );
    assert_eq!(m.add_offer(actor(5), actor(NFT), None, token(), 300, 300), Err(MarketError::DuplicateOffer));
    assert!(m.add_offer(actor(5), actor(NFT), Some(actor(FT)), token(), 300, 0).is_ok());
    assert_eq!(item_of(&m).offers.entries.len(), 2);
}

#[test]
fn purchase_runs_to_completion() {
    let mut m = listed(1000);
    assert_eq!(m.buy_item(actor(BIDDER), actor(NFT), token(), 999).unwrap_err(), MarketError::InsufficientPayment);
    let mut s = m.buy_item(actor(BIDDER), actor(NFT), token(), 1000).unwrap();
    assert_eq!(s.sale.kind, SaleKind::Purchase);
    assert_eq!(s.fee, 10);
    drive_ok(&mut s, vec![Payee { to: actor(SELLER), amount: 900 }, Payee { to: actor(9), amount: 90 }]);
    assert_eq!(
        m.finish_settlement(&s),
        MarketEvent::ItemSold { owner: actor(BIDDER), nft_contract_id: actor(NFT), token_id: token() }
    );
    assert_eq!(item_of(&m).owner, actor(BIDDER));
    assert!(item_of(&m).price.is_none());
    assert_eq!(m.buy_item(actor(5), actor(NFT), token(), 1000).unwrap_err(), MarketError::NotForSale);
}

#[test]
fn payout_mismatch_aborts_and_rerun_keeps_id() {
    let mut m = listed(1000);
    let mut s = m.buy_item(actor(BIDDER), actor(NFT), token(), 1000).unwrap();
    let _ = s.start();
    assert!(matches!(s.step(SettleEvent::Payouts(vec![Payee { to: actor(SELLER), amount: 991 }])), SettleCommand::Abort));
    assert_eq!(s.phase, Phase::Failed);
    assert_eq!(m.finish_settlement(&s), MarketEvent::TransactionFailed);
    let r = m.rerun_settlement(actor(NFT), token()).unwrap();
    assert_eq!(r.sale.tx_id, s.sale.tx_id);
    assert_eq!(r.phase, Phase::AwaitPayouts);
}

#[test]
fn offer_accept_and_withdraw() {
    let mut m = listed(1000);
    assert!(m.add_offer(actor(BIDDER), actor(NFT), None, token(), 800, 800).is_ok());
    assert!(m.add_offer(actor(5), actor(NFT), None, token(), 700, 700).is_ok());
    assert_eq!(m.withdraw(actor(5), actor(NFT), token(), None, 800).unwrap_err(), MarketError::Unauthorized);
    assert_eq!(m.withdraw(actor(5), actor(NFT), token(), None, 1).unwrap_err(), MarketError::OfferNotFound);
    let (ev, refund) = m.withdraw(actor(5), actor(NFT), token(), None, 700).unwrap();
    assert_eq!(ev, MarketEvent::Withdraw { nft_contract_id: actor(NFT), token_id: token(), price: 700 });
    assert_eq!(refund, Payee { to: actor(5), amount: 700 });
    assert_eq!(m.accept_offer(actor(BIDDER), actor(NFT), token(), None, 800).unwrap_err(), MarketError::Unauthorized);
    let mut s = m.accept_offer(actor(SELLER), actor(NFT), token(), None, 800).unwrap();
    assert_eq!(s.sale.buyer, actor(BIDDER));
    assert!(item_of(&m).offers.entries.is_empty());
    drive_ok(&mut s, vec![Payee { to: actor(SELLER), amount: 792 }]);
    assert_eq!(
        m.finish_settlement(&s),
        MarketEvent::OfferAccepted { nft_contract_id: actor(NFT), token_id: token(), new_owner: actor(BIDDER), price: 800 }
    );
    assert_eq!(item_of(&m).owner, actor(BIDDER));
}

#[test]
fn registry_and_lookup_errors() {
    let mut m = market(5);
    assert_eq!(m.add_nft_contract(actor(SELLER), actor(20)), Err(MarketError::Unauthorized));
    assert_eq!(m.add_ft_contract(actor(SELLER), actor(21)), Err(MarketError::Unauthorized));
    assert!(m.is_approved_nft(actor(NFT)));
    assert!(!m.is_approved_nft(actor(20)));
    assert!(m.is_approved_ft(actor(FT)));
    let r = m.add_market_data(actor(SELLER), actor(SELLER), actor(20), None, token(), Some(1));
    assert_eq!(r, Err(MarketError::NotApproved));
    let r = m.add_market_data(actor(SELLER), actor(SELLER), actor(NFT), Some(actor(21)), token(), Some(1));
    assert_eq!(r, Err(MarketError::NotApproved));
    let r = m.add_market_data(actor(BIDDER), actor(SELLER), actor(NFT), None, token(), Some(1));
    assert_eq!(r, Err(MarketError::Unauthorized));
    assert!(m.items.is_empty());
    assert_eq!(m.buy_item(actor(BIDDER), actor(NFT), token(), 1).unwrap_err(), MarketError::NoItem);
    assert_eq!(m.rerun_settlement(actor(NFT), token()).unwrap_err(), MarketError::NoItem);
    assert!(m.add_market_data(actor(SELLER), actor(SELLER), actor(NFT), None, token(), Some(1)).is_ok());
    assert_eq!(m.rerun_settlement(actor(NFT), token()).unwrap_err(), MarketError::NothingPending);
    assert_eq!(m.add_bid(actor(BIDDER), actor(NFT), token(), 5, 5, 0), Err(MarketError::NoAuction));
}

#[test]
fn treasury_fee_rounds_down() {
    assert_eq!(treasury_fee(12345, 3), 370);
    assert_eq!(treasury_fee(99, 1), 0);
    assert_eq!(treasury_fee(u128::MAX, 100), u128::MAX);
    assert_eq!(treasury_fee(u128::MAX, 0), 0);
    assert_eq!(treasury_fee(u128::MAX, 50), u128::MAX / 2);
}

#[test]
fn payout_total_overflow_detected() {
    let v = vec![Payee { to: actor(1), amount: u128::MAX }, Payee { to: actor(2), amount: 1 }];
    assert_eq!(checked_total(&v), None);
    let w = vec![Payee { to: actor(1), amount: 40 }, Payee { to: actor(2), amount: 2 }];
    assert_eq!(checked_total(&w), Some(42));
}

#[test]
fn offers_kept_in_key_order() {
    let mut m = listed(1000);
    assert!(m.add_offer(actor(20), actor(NFT), Some(actor(FT)), token(), 50, 0).is_ok());
    assert!(m.add_offer(actor(21), actor(NFT), None, token(), 300, 300).is_ok());
    assert!(m.add_offer(actor(22), actor(NFT), None, token(), 100, 100).is_ok());
    assert!(m.add_offer(actor(23), actor(NFT), None, token(), 200, 200).is_ok());
    let keys: Vec<(Option<ActorId>, u128)> =
        item_of(&m).offers.entries.iter().map(|e| (e.ft_contract_id, e.price)).collect();
    assert_eq!(keys, vec![(None, 100), (None, 200), (None, 300), (Some(actor(FT)), 50)]);
    assert_eq!(item_of(&m).offers.get(None, 200), Some(actor(23)));
    assert_eq!(item_of(&m).offers.get(None, 250), None);
}

#[test]
fn payment_token_lookup() {
    let mut m = market(1);
    assert_eq!(m.payment_token(actor(NFT), token()), None);
    let r = m.add_market_data(actor(SELLER), actor(SELLER), actor(NFT), Some(actor(FT)), token(), Some(5));
    assert!(r.is_ok());
    assert_eq!(m.payment_token(actor(NFT), token()), Some(Some(actor(FT))));
}
