//! The item store: one entry per (NFT contract, token id), seen as a map.
use vstd::prelude::*;
use crate::item::{Item, ItemView};
use crate::types::{ContractId, TokenId};

verus! {

/// One item of the store under its key.
#[derive(Debug)]
pub struct ItemEntry {
    pub nft_contract_id: ContractId,
    pub token_id: TokenId,
    pub item: Item,
}

pub open spec fn entry_has(e: ItemEntry, c: ContractId, t: TokenId) -> bool {
    e.nft_contract_id == c && e.token_id == t
}

pub open spec fn entries_unique(s: Seq<ItemEntry>) -> bool {
    forall|i: int, j: int|
        0 <= i < s.len() && 0 <= j < s.len() && i != j ==> !entry_has(
            #[trigger] s[i],
            (#[trigger] s[j]).nft_contract_id,
            s[j].token_id,
        )
}

pub open spec fn entries_wf(s: Seq<ItemEntry>) -> bool {
    &&& entries_unique(s)
    &&& forall|i: int| 0 <= i < s.len() ==> (#[trigger] s[i]).item.wf()
}

pub open spec fn store_index(s: Seq<ItemEntry>, k: (ContractId, TokenId)) -> int {
    choose|i: int| 0 <= i < s.len() && entry_has(#[trigger] s[i], k.0, k.1)
}

/// The store as a map from key to item.
pub open spec fn store_view(s: Seq<ItemEntry>) -> Map<(ContractId, TokenId), ItemView> {
    Map::new(
        |k: (ContractId, TokenId)| exists|i: int| 0 <= i < s.len() && entry_has(#[trigger] s[i], k.0, k.1),
        |k: (ContractId, TokenId)| s[store_index(s, k)].item@,
    )
}

proof fn lemma_store_index(s: Seq<ItemEntry>, k: (ContractId, TokenId), i: int)
    requires
        entries_unique(s),
        0 <= i < s.len(),
        entry_has(s[i], k.0, k.1),
    ensures
        store_index(s, k) == i,
        store_view(s).contains_key(k),
        store_view(s)[k] == s[i].item@,
{
    let j = store_index(s, k);
    assert(exists|i: int| 0 <= i < s.len() && entry_has(#[trigger] s[i], k.0, k.1));
    if j != i {
        assert(!entry_has(s[i], s[j].nft_contract_id, s[j].token_id));
    }
}

/// Putting back at `i` an entry with the same key updates that key alone.
pub proof fn lemma_store_update(s: Seq<ItemEntry>, i: int, e: ItemEntry)
    requires
        entries_wf(s),
        0 <= i < s.len(),
        entry_has(e, s[i].nft_contract_id, s[i].token_id),
        e.item.wf(),
    ensures
        s.remove(i).insert(i, e) == s.update(i, e),
        entries_wf(s.update(i, e)),
        store_view(s.update(i, e)) == store_view(s).insert((e.nft_contract_id, e.token_id), e.item@),
{
    let s2 = s.update(i, e);
    assert(s.remove(i).insert(i, e) =~= s2);
    let key = (e.nft_contract_id, e.token_id);
    assert forall|a: int, b: int|
        0 <= a < s2.len() && 0 <= b < s2.len() && a != b implies !entry_has(
        #[trigger] s2[a],
        (#[trigger] s2[b]).nft_contract_id,
        s2[b].token_id,
    ) by {
        assert(!entry_has(s[a], s[b].nft_contract_id, s[b].token_id));
    }
    lemma_store_index(s2, key, i);
    assert forall|k: (ContractId, TokenId)| #[trigger] store_view(s2).contains_key(k) <==> store_view(
        s,
    ).insert(key, e.item@).contains_key(k) by {
        if k != key {
            if store_view(s2).contains_key(k) {
                let j = choose|j: int| 0 <= j < s2.len() && entry_has(#[trigger] s2[j], k.0, k.1);
                assert(entry_has(s[j], k.0, k.1));
            }
            if store_view(s).contains_key(k) {
                let j = choose|j: int| 0 <= j < s.len() && entry_has(#[trigger] s[j], k.0, k.1);
                assert(entry_has(s2[j], k.0, k.1));
            }
        } else {
            lemma_store_index(s, key, i);
        }
    }
    assert forall|k: (ContractId, TokenId)| #[trigger] store_view(s2).contains_key(k) implies store_view(s2)[k]
        == store_view(s).insert(key, e.item@)[k] by {
        if k != key {
            let j = choose|j: int| 0 <= j < s2.len() && entry_has(#[trigger] s2[j], k.0, k.1);
            lemma_store_index(s2, k, j);
            lemma_store_index(s, k, j);
        }
    }
    assert(store_view(s2) =~= store_view(s).insert(key, e.item@));
}

/// Appending an entry under a new key adds that key alone.
pub proof fn lemma_store_push(s: Seq<ItemEntry>, e: ItemEntry)
    requires
        entries_wf(s),
        !store_view(s).contains_key((e.nft_contract_id, e.token_id)),
        e.item.wf(),
    ensures
        entries_wf(s.push(e)),
        store_view(s.push(e)) == store_view(s).insert((e.nft_contract_id, e.token_id), e.item@),
{
    let s2 = s.push(e);
    let key = (e.nft_contract_id, e.token_id);
    let n = s.len() as int;
    assert forall|a: int, b: int|
        0 <= a < s2.len() && 0 <= b < s2.len() && a != b implies !entry_has(
        #[trigger] s2[a],
        (#[trigger] s2[b]).nft_contract_id,
        s2[b].token_id,
    ) by {
        if a < n && b < n {
            assert(!entry_has(s[a], s[b].nft_contract_id, s[b].token_id));
        } else if a < n {
            if entry_has(s[a], key.0, key.1) {
                assert(store_view(s).contains_key(key));
            }
        } else if b < n {
            if entry_has(s[b], key.0, key.1) {
                assert(store_view(s).contains_key(key));
            }
        }
    }
    assert forall|i: int| 0 <= i < s2.len() implies (#[trigger] s2[i]).item.wf() by {
        if i < n {
            assert(s2[i] == s[i]);
        }
    }
    lemma_store_index(s2, key, n);
    assert forall|k: (ContractId, TokenId)| #[trigger] store_view(s2).contains_key(k) <==> store_view(
        s,
    ).insert(key, e.item@).contains_key(k) by {
        if k != key {
            if store_view(s2).contains_key(k) {
                let j = choose|j: int| 0 <= j < s2.len() && entry_has(#[trigger] s2[j], k.0, k.1);
                assert(j < n);
                assert(entry_has(s[j], k.0, k.1));
            }
            if store_view(s).contains_key(k) {
                let j = choose|j: int| 0 <= j < s.len() && entry_has(#[trigger] s[j], k.0, k.1);
                assert(entry_has(s2[j], k.0, k.1));
            }
        }
    }
    assert forall|k: (ContractId, TokenId)| #[trigger] store_view(s2).contains_key(k) implies store_view(s2)[k]
        == store_view(s).insert(key, e.item@)[k] by {
        if k != key {
            let j = choose|j: int| 0 <= j < s2.len() && entry_has(#[trigger] s2[j], k.0, k.1);
            assert(j < n);
            lemma_store_index(s2, k, j);
            lemma_store_index(s, k, j);
        }
    }
    assert(store_view(s2) =~= store_view(s).insert(key, e.item@));
}

/// Position of the entry under `(c, t)`.
pub fn locate(s: &Vec<ItemEntry>, c: ContractId, t: TokenId) -> (r: Option<usize>)
    requires
        entries_unique(s@),
    ensures
        r is None <==> !store_view(s@).contains_key((c, t)),
        r matches Some(i) ==> i < s@.len() && entry_has(s@[i as int], c, t) && store_view(s@)[(c, t)]
            == s@[i as int].item@,
{
    let mut i: usize = 0;
    while i < s.len()
        invariant
            i <= s@.len(),
            entries_unique(s@),
            forall|k: int| 0 <= k < i ==> !entry_has(#[trigger] s@[k], c, t),
        decreases s@.len() - i,
    {
        if s[i].nft_contract_id == c && s[i].token_id == t {
            proof {
                lemma_store_index(s@, (c, t), i as int);
            }
            return Some(i);
        }
        i = i + 1;
    }
    None
}

} // verus!
