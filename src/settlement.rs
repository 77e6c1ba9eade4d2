//! The settlement coordinator: the steps of one sale across the NFT contract,
//! the payment currency and the treasury, as a state machine. Whoever runs it
//! performs each command and reports the reply as the next event.
use vstd::prelude::*;
use crate::item::PendingSale;
use crate::types::{ActorId, ContractId, Payee, TokenId, TransactionId};

verus! {

/// `price * pct / 100`, rounded down.
pub open spec fn fee_of(price: u128, pct: u8) -> int {
    (price as int * pct as int) / 100
}

/// Sum of the amounts in `s`.
pub open spec fn total(s: Seq<Payee>) -> int
    decreases s.len(),
{
    if s.len() == 0 {
        0
    } else {
        total(s.drop_last()) + s.last().amount
    }
}

/// The treasury fee on `price` at `pct` percent.
pub fn treasury_fee(price: u128, pct: u8) -> (r: u128)
    requires
        pct <= 100,
    ensures
        r as int == fee_of(price, pct),
{
    let q = price / 100;
    let m = price % 100;
    let p = pct as u128;
    proof {
        assert(q * p <= q * 100) by (nonlinear_arith)
            requires p <= 100;
        assert(q * 100 <= price) by (nonlinear_arith)
            requires q == price / 100;
        assert(m * p < 10000) by (nonlinear_arith)
            requires m < 100, p <= 100;
        assert((m * p) / 100 <= m) by (nonlinear_arith)
            requires p <= 100, m >= 0;
        assert(q * 100 + m == price);
        assert((price as int * p as int) / 100 == q * p + (m * p) / 100) by (nonlinear_arith)
            requires q == price / 100, m == price % 100;
    }
    q * p + (m * p) / 100
}

/// Sum of `s`, or `None` where it exceeds `u128::MAX`.
pub fn checked_total(s: &Vec<Payee>) -> (r: Option<u128>)
    ensures
        r matches Some(t) ==> t == total(s@),
        r is None ==> total(s@) > u128::MAX,
{
    let mut acc: u128 = 0;
    let mut i: usize = 0;
    while i < s.len()
        invariant
            i <= s@.len(),
            acc == total(s@.take(i as int)),
        decreases s@.len() - i,
    {
        assert(s@.take(i as int + 1).drop_last() == s@.take(i as int));
        if acc > u128::MAX - s[i].amount {
            proof {
                lemma_total_prefix(s@, i as int + 1);
            }
            return None;
        }
        acc = acc + s[i].amount;
        i = i + 1;
    }
    assert(s@.take(i as int) == s@);
    Some(acc)
}

/// The total of a sequence is at least that of any prefix.
proof fn lemma_total_prefix(s: Seq<Payee>, n: int)
    requires
        0 <= n <= s.len(),
    ensures
        total(s.take(n)) <= total(s),
    decreases s.len(),
{
    if n < s.len() {
        assert(s.drop_last().take(n) == s.take(n));
        lemma_total_prefix(s.drop_last(), n);
    } else {
        assert(s.take(n) == s);
    }
}

/// Where a settlement stands.
#[derive(Clone, Copy, Debug, PartialEq, Eq, Structural)]
pub enum Phase {
    AwaitPayouts,
    AwaitPayments,
    AwaitNftTransfer,
    Done,
    Failed,
}

/// A reply from one of the outside contracts.
#[derive(Debug)]
pub enum SettleEvent {
    /// The NFT contract's payout breakdown for the seller's share.
    Payouts(Vec<Payee>),
    /// Whether every payment went through.
    PaymentsDone(bool),
    /// Whether the NFT contract moved the token to the buyer.
    NftTransferred(bool),
}

/// The next thing to do for a settlement.
#[derive(Debug)]
pub enum SettleCommand {
    /// Ask the NFT contract how `amount` splits among payees.
    RequestPayouts { nft_contract_id: ContractId, seller: ActorId, amount: u128 },
    /// Pay each payee in the sale's currency, under `tx_id`.
    Pay { ft_contract_id: Option<ContractId>, tx_id: TransactionId, payees: Vec<Payee> },
    /// Move the NFT to `to`, under `tx_id`.
    TransferNft { nft_contract_id: ContractId, to: ActorId, token_id: TokenId, tx_id: TransactionId },
    /// Every step went through: record the sale.
    Complete,
    /// A step failed: the item stays locked under the same id for a rerun.
    Abort,
    /// The event does not belong to the current step: nothing to do.
    Wait,
}

/// One sale being settled.
#[derive(Clone, Copy, Debug, PartialEq, Eq, Structural)]
pub struct Settlement {
    pub nft_contract_id: ContractId,
    pub token_id: TokenId,
    pub seller: ActorId,
    pub sale: PendingSale,
    pub treasury_id: ActorId,
    /// The treasury's share of the price.
    pub fee: u128,
    pub phase: Phase,
}

/// A settlement of `sale` that has not taken its first step.
pub open spec fn settlement_spec(
    nft_contract_id: ContractId,
    token_id: TokenId,
    seller: ActorId,
    sale: PendingSale,
    treasury_id: ActorId,
    treasury_fee_pct: u8,
) -> Settlement {
    Settlement {
        nft_contract_id,
        token_id,
        seller,
        sale,
        treasury_id,
        fee: fee_of(sale.price, treasury_fee_pct) as u128,
        phase: Phase::AwaitPayouts,
    }
}

impl Settlement {
    pub open spec fn wf(self) -> bool {
        self.fee <= self.sale.price
    }

    /// The seller side's share, which the payout breakdown splits.
    pub open spec fn remainder(self) -> u128 {
        (self.sale.price - self.fee) as u128
    }

    pub fn new(
        nft_contract_id: ContractId,
        token_id: TokenId,
        seller: ActorId,
        sale: PendingSale,
        treasury_id: ActorId,
        treasury_fee_pct: u8,
    ) -> (r: Settlement)
        requires
            treasury_fee_pct <= 100,
        ensures
            r.wf(),
            r == settlement_spec(nft_contract_id, token_id, seller, sale, treasury_id, treasury_fee_pct),
    {
        let fee = treasury_fee(sale.price, treasury_fee_pct);
        proof {
            assert(fee_of(sale.price, treasury_fee_pct) <= sale.price) by (nonlinear_arith)
                requires treasury_fee_pct <= 100;
        }
        Settlement { nft_contract_id, token_id, seller, sale, treasury_id, fee, phase: Phase::AwaitPayouts }
    }

    /// The first command: ask for the payout breakdown of the seller's share.
    pub fn start(&self) -> (r: SettleCommand)
        requires
            self.wf(),
        ensures
            r == (SettleCommand::RequestPayouts {
                nft_contract_id: self.nft_contract_id,
                seller: self.seller,
                amount: self.remainder(),
            }),
    {
        SettleCommand::RequestPayouts {
            nft_contract_id: self.nft_contract_id,
            seller: self.seller,
            amount: self.sale.price - self.fee,
        }
    }

    /// Moves on by one reply. A breakdown that does not add up to the
    /// seller's share, or a failed step, ends in `Failed`; an event that does
    /// not answer the current step changes nothing.
    pub fn step(&mut self, ev: SettleEvent) -> (r: SettleCommand)
        requires
            old(self).wf(),
        ensures
            final(self).wf(),
            final(self).sale == old(self).sale,
            final(self).nft_contract_id == old(self).nft_contract_id,
            final(self).token_id == old(self).token_id,
            final(self).seller == old(self).seller,
            final(self).treasury_id == old(self).treasury_id,
            final(self).fee == old(self).fee,
            match (old(self).phase, ev) {
                (Phase::AwaitPayouts, SettleEvent::Payouts(ps)) => if total(ps@) == old(self).remainder() {
                    &&& final(self).phase == Phase::AwaitPayments
                    &&& (r matches SettleCommand::Pay { ft_contract_id, tx_id, payees }
                        && ft_contract_id == old(self).sale.ft_contract_id && tx_id == old(self).sale.tx_id
                        && payees@ == seq![Payee { to: old(self).treasury_id, amount: old(self).fee }] + ps@)
                } else {
                    final(self).phase == Phase::Failed && r is Abort
                },
                (Phase::AwaitPayments, SettleEvent::PaymentsDone(ok)) => if ok {
                    final(self).phase == Phase::AwaitNftTransfer && r == (SettleCommand::TransferNft {
                        nft_contract_id: old(self).nft_contract_id,
                        to: old(self).sale.buyer,
                        token_id: old(self).token_id,
                        tx_id: old(self).sale.tx_id,
                    })
                } else {
                    final(self).phase == Phase::Failed && r is Abort
                },
                (Phase::AwaitNftTransfer, SettleEvent::NftTransferred(ok)) => if ok {
                    final(self).phase == Phase::Done && r is Complete
                } else {
                    final(self).phase == Phase::Failed && r is Abort
                },
                _ => final(self).phase == old(self).phase && r is Wait,
            },
    {
        match (self.phase, ev) {
            (Phase::AwaitPayouts, SettleEvent::Payouts(ps)) => {
                let want = self.sale.price - self.fee;
                let ok = match checked_total(&ps) {
                    Some(t) => t == want,
                    None => false,
                };
                if ok {
                    let mut payees: Vec<Payee> = Vec::new();
                    payees.push(Payee { to: self.treasury_id, amount: self.fee });
                    let mut rest = ps;
                    payees.append(&mut rest);
                    self.phase = Phase::AwaitPayments;
                    SettleCommand::Pay {
                        ft_contract_id: self.sale.ft_contract_id,
                        tx_id: self.sale.tx_id,
                        payees,
                    }
                } else {
                    self.phase = Phase::Failed;
                    SettleCommand::Abort
                }
            },
            (Phase::AwaitPayments, SettleEvent::PaymentsDone(ok)) => {
                if ok {
                    self.phase = Phase::AwaitNftTransfer;
                    SettleCommand::TransferNft {
                        nft_contract_id: self.nft_contract_id,
                        to: self.sale.buyer,
                        token_id: self.token_id,
                        tx_id: self.sale.tx_id,
                    }
                } else {
                    self.phase = Phase::Failed;
                    SettleCommand::Abort
                }
            },
            (Phase::AwaitNftTransfer, SettleEvent::NftTransferred(ok)) => {
                if ok {
                    self.phase = Phase::Done;
                    SettleCommand::Complete
                } else {
                    self.phase = Phase::Failed;
                    SettleCommand::Abort
                }
            },
            _ => SettleCommand::Wait,
        }
    }
}

} // verus!
