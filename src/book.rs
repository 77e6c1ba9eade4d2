//! Offer and bid books: price commitments keyed by (payment token, price).
use vstd::prelude::*;
use crate::types::{ActorId, ContractId, Price};

verus! {

/// One commitment: `account` offers `price` in the currency `ft_contract_id`
/// (`None` is the native value).
#[derive(Clone, Copy, Debug, PartialEq, Eq, Structural)]
pub struct BookEntry {
    pub ft_contract_id: Option<ContractId>,
    pub price: Price,
    pub account: ActorId,
}

impl BookEntry {
    pub open spec fn has_key(self, ft: Option<ContractId>, price: Price) -> bool {
        self.ft_contract_id == ft && self.price == price
    }
}

/// The position of key `(ft, price)` in `s`, if it is there.
pub open spec fn key_in(s: Seq<BookEntry>, ft: Option<ContractId>, price: Price) -> bool {
    exists|i: int| 0 <= i < s.len() && (#[trigger] s[i]).has_key(ft, price)
}

/// Order of addresses: by the high half, then the low half.
pub open spec fn actor_lt(a: ActorId, b: ActorId) -> bool {
    a.hi < b.hi || (a.hi == b.hi && a.lo < b.lo)
}

/// Order of payment tokens: the native value first, then contracts by address.
pub open spec fn token_lt(a: Option<ContractId>, b: Option<ContractId>) -> bool {
    match (a, b) {
        (None, Some(_)) => true,
        (Some(x), Some(y)) => actor_lt(x, y),
        _ => false,
    }
}

/// Order of keys: by payment token, then by price.
pub open spec fn key_lt(a_ft: Option<ContractId>, a_price: Price, b_ft: Option<ContractId>, b_price: Price) -> bool {
    token_lt(a_ft, b_ft) || (a_ft == b_ft && a_price < b_price)
}

pub open spec fn entry_lt(a: BookEntry, b: BookEntry) -> bool {
    key_lt(a.ft_contract_id, a.price, b.ft_contract_id, b.price)
}

/// Keys strictly ascend, so each key occurs at most once.
pub open spec fn ascending(s: Seq<BookEntry>) -> bool {
    forall|i: int, j: int| 0 <= i < j < s.len() ==> entry_lt(#[trigger] s[i], #[trigger] s[j])
}

/// Where an entry under `(ft, price)` goes: after every smaller key.
pub open spec fn lower_bound(s: Seq<BookEntry>, ft: Option<ContractId>, price: Price) -> int
    decreases s.len(),
{
    if s.len() == 0 {
        0
    } else if key_lt(s.last().ft_contract_id, s.last().price, ft, price) {
        s.len() as int
    } else {
        lower_bound(s.drop_last(), ft, price)
    }
}

proof fn lemma_lower_bound(s: Seq<BookEntry>, ft: Option<ContractId>, price: Price)
    requires
        ascending(s),
    ensures
        0 <= lower_bound(s, ft, price) <= s.len(),
        forall|k: int|
            0 <= k < lower_bound(s, ft, price) ==> key_lt((#[trigger] s[k]).ft_contract_id, s[k].price, ft, price),
        forall|k: int|
            lower_bound(s, ft, price) <= k < s.len() ==> !key_lt((#[trigger] s[k]).ft_contract_id, s[k].price, ft, price),
    decreases s.len(),
{
    if s.len() > 0 {
        let t = s.drop_last();
        assert(ascending(t));
        lemma_lower_bound(t, ft, price);
        if key_lt(s.last().ft_contract_id, s.last().price, ft, price) {
            assert forall|k: int| 0 <= k < s.len() implies key_lt((#[trigger] s[k]).ft_contract_id, s[k].price, ft, price) by {
                if k < s.len() - 1 {
                    assert(entry_lt(s[k], s[s.len() - 1]));
                }
            }
        } else {
            assert forall|k: int| lower_bound(s, ft, price) <= k < s.len() implies !key_lt(
                (#[trigger] s[k]).ft_contract_id,
                s[k].price,
                ft,
                price,
            ) by {
                if k < s.len() - 1 {
                    assert(s[k] == t[k]);
                }
            }
            assert forall|k: int| 0 <= k < lower_bound(s, ft, price) implies key_lt(
                (#[trigger] s[k]).ft_contract_id,
                s[k].price,
                ft,
                price,
            ) by {
                assert(s[k] == t[k]);
            }
        }
    }
}

/// The entry stored under `(ft, price)`; meaningful when `key_in` holds.
pub open spec fn entry_of(s: Seq<BookEntry>, ft: Option<ContractId>, price: Price) -> BookEntry {
    s[index_of(s, ft, price)]
}

pub open spec fn index_of(s: Seq<BookEntry>, ft: Option<ContractId>, price: Price) -> int {
    choose|i: int| 0 <= i < s.len() && (#[trigger] s[i]).has_key(ft, price)
}

/// The book after storing `account` under `(ft, price)`: an existing entry is
/// overwritten in place, a new one goes where its key keeps the order.
pub open spec fn set_spec(s: Seq<BookEntry>, ft: Option<ContractId>, price: Price, account: ActorId) -> Seq<BookEntry> {
    let e = BookEntry { ft_contract_id: ft, price, account };
    if key_in(s, ft, price) {
        s.update(index_of(s, ft, price), e)
    } else {
        s.insert(lower_bound(s, ft, price), e)
    }
}

/// The book without the entry under `(ft, price)`.
pub open spec fn remove_spec(s: Seq<BookEntry>, ft: Option<ContractId>, price: Price) -> Seq<BookEntry> {
    if key_in(s, ft, price) {
        s.remove(index_of(s, ft, price))
    } else {
        s
    }
}

/// With unique keys, an index holding the key is the one `index_of` picks.
pub proof fn lemma_index_of_unique(s: Seq<BookEntry>, ft: Option<ContractId>, price: Price, i: int)
    requires
        ascending(s),
        0 <= i < s.len(),
        s[i].has_key(ft, price),
    ensures
        index_of(s, ft, price) == i,
        key_in(s, ft, price),
{
    let j = index_of(s, ft, price);
    assert(key_in(s, ft, price));
    if j < i {
        assert(entry_lt(s[j], s[i]));
    } else if j > i {
        assert(entry_lt(s[i], s[j]));
    }
}

/// Storing under a key keeps the keys ascending, and the key is then present.
pub proof fn lemma_set_ascending(s: Seq<BookEntry>, ft: Option<ContractId>, price: Price, account: ActorId)
    requires
        ascending(s),
    ensures
        ascending(set_spec(s, ft, price, account)),
        key_in(set_spec(s, ft, price, account), ft, price),
{
    let e = BookEntry { ft_contract_id: ft, price, account };
    let r = set_spec(s, ft, price, account);
    if key_in(s, ft, price) {
        let i = index_of(s, ft, price);
        assert(r[i].has_key(ft, price));
        assert forall|a: int, b: int| 0 <= a < b < r.len() implies entry_lt(#[trigger] r[a], #[trigger] r[b]) by {
            assert(entry_lt(s[a], s[b]));
        }
    } else {
        let p = lower_bound(s, ft, price);
        lemma_lower_bound(s, ft, price);
        assert(r[p] == e);
        assert(r[p].has_key(ft, price));
        assert forall|a: int, b: int| 0 <= a < b < r.len() implies entry_lt(#[trigger] r[a], #[trigger] r[b]) by {
            if b < p {
                assert(entry_lt(s[a], s[b]));
            } else if a < p && b == p {
            } else if a < p {
                assert(entry_lt(s[a], s[b - 1]));
            } else if a == p {
                assert(!s[p].has_key(ft, price));
                if b - 1 > p {
                    assert(entry_lt(s[p], s[b - 1]));
                }
            } else {
                assert(entry_lt(s[a - 1], s[b - 1]));
            }
        }
    }
}

/// An ordered collection of commitments with at most one entry per key.
#[derive(Debug)]
pub struct OfferBook {
    pub entries: Vec<BookEntry>,
}

impl View for OfferBook {
    type V = Seq<BookEntry>;

    open spec fn view(&self) -> Seq<BookEntry> {
        self.entries@
    }
}

fn same_token(a: Option<ContractId>, b: Option<ContractId>) -> (r: bool)
    ensures
        r == (a == b),
{
    match (a, b) {
        (None, None) => true,
        (Some(x), Some(y)) => x == y,
        _ => false,
    }
}

fn key_less(a_ft: Option<ContractId>, a_price: Price, b_ft: Option<ContractId>, b_price: Price) -> (r: bool)
    ensures
        r == key_lt(a_ft, a_price, b_ft, b_price),
{
    let tok = match (a_ft, b_ft) {
        (None, Some(_)) => true,
        (Some(x), Some(y)) => x.hi < y.hi || (x.hi == y.hi && x.lo < y.lo),
        _ => false,
    };
    tok || (same_token(a_ft, b_ft) && a_price < b_price)
}

impl OfferBook {
    pub open spec fn wf(&self) -> bool {
        ascending(self@)
    }

    pub fn new() -> (r: OfferBook)
        ensures
            r@ == Seq::<BookEntry>::empty(),
            r.wf(),
    {
        OfferBook { entries: Vec::new() }
    }

    /// Position of the entry under `(ft, price)`.
    pub fn find(&self, ft: Option<ContractId>, price: Price) -> (r: Option<usize>)
        requires
            self.wf(),
        ensures
            r is None <==> !key_in(self@, ft, price),
            r matches Some(i) ==> i == index_of(self@, ft, price) && i < self@.len()
                && self@[i as int].has_key(ft, price),
    {
        let mut i: usize = 0;
        while i < self.entries.len()
            invariant
                i <= self.entries@.len(),
                self.wf(),
                forall|k: int| 0 <= k < i ==> !(#[trigger] self.entries@[k]).has_key(ft, price),
            decreases self.entries@.len() - i,
        {
            let e = self.entries[i];
            if e.price == price && same_token(e.ft_contract_id, ft) {
                proof {
                    lemma_index_of_unique(self@, ft, price, i as int);
                }
                return Some(i);
            }
            i = i + 1;
        }
        None
    }

    /// Who stands under `(ft, price)`, if anyone.
    pub fn get(&self, ft: Option<ContractId>, price: Price) -> (r: Option<ActorId>)
        requires
            self.wf(),
        ensures
            r is None <==> !key_in(self@, ft, price),
            r matches Some(a) ==> a == entry_of(self@, ft, price).account,
    {
        match self.find(ft, price) {
            Some(i) => Some(self.entries[i].account),
            None => None,
        }
    }

    /// Stores `account` under `(ft, price)`.
    pub fn set(&mut self, ft: Option<ContractId>, price: Price, account: ActorId)
        requires
            old(self).wf(),
        ensures
            final(self).wf(),
            final(self)@ == set_spec(old(self)@, ft, price, account),
    {
        let e = BookEntry { ft_contract_id: ft, price, account };
        let n = self.entries.len();
        let mut i: usize = 0;
        while i < n
            invariant
                n == self.entries@.len(),
                i <= n,
                forall|k: int| 0 <= k < i ==> key_lt((#[trigger] self.entries@[k]).ft_contract_id, self.entries@[k].price, ft, price),
            ensures
                i <= n,
                forall|k: int| 0 <= k < i ==> key_lt((#[trigger] self.entries@[k]).ft_contract_id, self.entries@[k].price, ft, price),
                i < n ==> !key_lt(self.entries@[i as int].ft_contract_id, self.entries@[i as int].price, ft, price),
            decreases n - i,
        {
            let x = self.entries[i];
            if !key_less(x.ft_contract_id, x.price, ft, price) {
                break;
            }
            i = i + 1;
        }
        proof {
            lemma_set_ascending(old(self)@, ft, price, account);
            lemma_lower_bound(old(self)@, ft, price);
            let lb = lower_bound(old(self)@, ft, price);
            if lb < i {
                assert(key_lt(old(self)@[lb].ft_contract_id, old(self)@[lb].price, ft, price));
            }
            if lb > i {
                assert(!key_lt(old(self)@[i as int].ft_contract_id, old(self)@[i as int].price, ft, price));
            }
        }
        if i < n && self.entries[i].price == price && same_token(self.entries[i].ft_contract_id, ft) {
            proof {
                lemma_index_of_unique(self@, ft, price, i as int);
            }
            self.entries.set(i, e);
        } else {
            proof {
                if key_in(old(self)@, ft, price) {
                    let j = choose|j: int| 0 <= j < old(self)@.len() && (#[trigger] old(self)@[j]).has_key(ft, price);
                    if j > i {
                        assert(entry_lt(old(self)@[i as int], old(self)@[j]));
                    }
                }
            }
            self.entries.insert(i, e);
        }
    }

    /// Removes and returns the entry under `(ft, price)`.
    pub fn remove(&mut self, ft: Option<ContractId>, price: Price) -> (r: Option<BookEntry>)
        requires
            old(self).wf(),
        ensures
            final(self).wf(),
            final(self)@ == remove_spec(old(self)@, ft, price),
            r is None <==> !key_in(old(self)@, ft, price),
            r matches Some(e) ==> e == entry_of(old(self)@, ft, price),
    {
        match self.find(ft, price) {
            Some(i) => {
                let e = self.entries.remove(i);
                assert forall|a: int, b: int| 0 <= a < b < self@.len() implies entry_lt(
                    #[trigger] self@[a],
                    #[trigger] self@[b],
                ) by {
                    let oa = if a < i { a } else { a + 1 };
                    let ob = if b < i { b } else { b + 1 };
                    assert(self@[a] == old(self)@[oa]);
                    assert(self@[b] == old(self)@[ob]);
                    assert(entry_lt(old(self)@[oa], old(self)@[ob]));
                }
                Some(e)
            },
            None => None,
        }
    }
}

} // verus!
