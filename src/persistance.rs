//! An in-memory store of assets keyed by symbol.

use vstd::prelude::*;
use crate::error::PersistanceError;

verus! {

/// The market an asset is traded on.
#[allow(non_camel_case_types)]
#[derive(Clone, Copy, PartialEq, Eq, Debug, Structural)]
pub enum StockMarket {
    NASDAQ,
    DOWN_JONES,
    IBEX35,
    CRYPTO,
}

/// A held asset. Prices are IEEE-754 `f32` bit patterns, kept unchanged.
#[derive(Debug, PartialEq)]
pub struct Asset {
    symbol: String,
    price_bits: u32,
    initial_price_bits: u32,
    market: StockMarket,
}

/// What an `Asset` holds, as plain values.
pub struct AssetModel {
    pub symbol: Seq<char>,
    pub price_bits: u32,
    pub initial_price_bits: u32,
    pub market: StockMarket,
}

impl View for Asset {
    type V = AssetModel;

    closed spec fn view(&self) -> AssetModel {
        AssetModel {
            symbol: self.symbol@,
            price_bits: self.price_bits,
            initial_price_bits: self.initial_price_bits,
            market: self.market,
        }
    }
}

impl Asset {
    pub fn new(symbol: String, price_bits: u32, initial_price_bits: u32, market: StockMarket) -> (r: Asset)
        ensures
            r@ == (AssetModel { symbol: symbol@, price_bits, initial_price_bits, market }),
    {
        Asset { symbol, price_bits, initial_price_bits, market }
    }

    pub fn symbol(&self) -> (r: &String)
        ensures
            r@ == self@.symbol,
    {
        &self.symbol
    }

    pub fn price_bits(&self) -> (r: u32)
        ensures
            r == self@.price_bits,
    {
        self.price_bits
    }

    pub fn set_price(&mut self, price_bits: u32)
        ensures
            final(self)@ == (AssetModel { price_bits, ..old(self)@ }),
    {
        self.price_bits = price_bits;
    }

    /// A copy with the same contents.
    pub fn duplicate(&self) -> (r: Asset)
        ensures
            r@ == self@,
    {
        Asset {
            symbol: self.symbol.clone(),
            price_bits: self.price_bits,
            initial_price_bits: self.initial_price_bits,
            market: self.market,
        }
    }
}

/// The map from symbol to asset that a list of assets describes; a later
/// entry wins over an earlier one with the same symbol.
pub open spec fn to_map(s: Seq<AssetModel>) -> Map<Seq<char>, AssetModel>
    decreases s.len(),
{
    if s.len() == 0 {
        Map::empty()
    } else {
        to_map(s.drop_last()).insert(s.last().symbol, s.last())
    }
}

/// Whether no two entries of `s` share a symbol.
pub open spec fn unique_symbols(s: Seq<AssetModel>) -> bool {
    forall|i: int, j: int|
        0 <= i < j < s.len() ==> #[trigger] s[i].symbol != #[trigger] s[j].symbol
}

proof fn lemma_to_map_lookup(s: Seq<AssetModel>, k: Seq<char>)
    requires
        unique_symbols(s),
    ensures
        to_map(s).contains_key(k) <==> exists|i: int| 0 <= i < s.len() && #[trigger] s[i].symbol == k,
        forall|i: int| 0 <= i < s.len() && #[trigger] s[i].symbol == k ==> to_map(s)[k] == s[i],
    decreases s.len(),
{
    if s.len() > 0 {
        let d = s.drop_last();
        assert(unique_symbols(d));
        lemma_to_map_lookup(d, k);
        if to_map(d).contains_key(k) {
            let i = choose|i: int| 0 <= i < d.len() && #[trigger] d[i].symbol == k;
            assert(s[i].symbol == k);
        }
        if exists|i: int| 0 <= i < s.len() && #[trigger] s[i].symbol == k {
            let i = choose|i: int| 0 <= i < s.len() && #[trigger] s[i].symbol == k;
            if i < s.len() - 1 {
                assert(d[i].symbol == k);
            }
        }
    }
}

proof fn lemma_to_map_update(s: Seq<AssetModel>, i: int, a: AssetModel)
    requires
        unique_symbols(s),
        0 <= i < s.len(),
        a.symbol == s[i].symbol,
    ensures
        to_map(s.update(i, a)) == to_map(s).insert(a.symbol, a),
        unique_symbols(s.update(i, a)),
    decreases s.len(),
{
    let t = s.update(i, a);
    let d = s.drop_last();
    assert(unique_symbols(t));
    if i == s.len() - 1 {
        assert(t.drop_last() =~= d);
        assert(to_map(t) =~= to_map(s).insert(a.symbol, a));
    } else {
        assert(unique_symbols(d));
        lemma_to_map_update(d, i, a);
        assert(t.drop_last() =~= d.update(i, a));
        assert(s.last().symbol != a.symbol);
        assert(to_map(t) =~= to_map(s).insert(a.symbol, a));
    }
}

proof fn lemma_to_map_remove(s: Seq<AssetModel>, i: int)
    requires
        unique_symbols(s),
        0 <= i < s.len(),
    ensures
        to_map(s.remove(i)) == to_map(s).remove(s[i].symbol),
        unique_symbols(s.remove(i)),
    decreases s.len(),
{
    let t = s.remove(i);
    let d = s.drop_last();
    let k = s[i].symbol;
    assert(unique_symbols(d));
    assert(unique_symbols(t)) by {
        assert forall|p: int, q: int| 0 <= p < q < t.len() implies #[trigger] t[p].symbol != #[trigger] t[q].symbol by {
            let pp = if p < i { p } else { p + 1 };
            let qq = if q < i { q } else { q + 1 };
            assert(t[p] == s[pp]);
            assert(t[q] == s[qq]);
        }
    }
    if i == s.len() - 1 {
        assert(t =~= d);
        lemma_to_map_lookup(d, k);
        assert(!to_map(d).contains_key(k));
        assert(to_map(t) =~= to_map(s).remove(k));
    } else {
        lemma_to_map_remove(d, i);
        assert(t.drop_last() =~= d.remove(i));
        assert(t.last() == s.last());
        assert(s.last().symbol != k);
        assert(to_map(t) =~= to_map(s).remove(k));
    }
}

/// Assets held in memory, at most one per symbol.
pub struct StockRepository {
    entries: Vec<Asset>,
}

impl StockRepository {
    /// The entries as plain values, in storage order.
    pub closed spec fn rows(&self) -> Seq<AssetModel> {
        self.entries@.map_values(|a: Asset| a@)
    }

    /// The stored assets by symbol.
    pub closed spec fn view(&self) -> Map<Seq<char>, AssetModel> {
        to_map(self.rows())
    }

    /// No two entries share a symbol.
    pub closed spec fn wf(&self) -> bool {
        unique_symbols(self.rows())
    }

    /// The index of the entry for `symbol`, if there is one.
    fn find(&self, symbol: &String) -> (r: Option<usize>)
        requires
            self.wf(),
        ensures
            match r {
                Some(i) => i < self.entries@.len() && self.rows()[i as int].symbol == symbol@
                    && self.view().contains_key(symbol@),
                None => !self.view().contains_key(symbol@),
            },
    {
        proof { lemma_to_map_lookup(self.rows(), symbol@); }
        let mut i: usize = 0;
        while i < self.entries.len()
            invariant
                self.wf(),
                i <= self.entries@.len(),
                forall|j: int| 0 <= j < i ==> #[trigger] self.rows()[j].symbol != symbol@,
                to_map(self.rows()).contains_key(symbol@) <==> exists|j: int| 0 <= j < self.rows().len() && #[trigger] self.rows()[j].symbol == symbol@,
            decreases self.entries@.len() - i,
        {
            if self.entries[i].symbol.eq(symbol) {
                return Some(i);
            }
            i += 1;
        }
        None
    }

    /// A repository seeded with two assets: AAPL (price 123.4, bought at
    /// 12.3, Dow Jones) and BTC (price 8000, bought at 7990, crypto).
    pub fn new() -> (r: StockRepository)
        ensures
            r.wf(),
            r.view().dom() == set!["AAPL"@, "BTC"@],
            r.view()["AAPL"@] == (AssetModel { symbol: "AAPL"@, price_bits: 1123470541u32, initial_price_bits: 1095027917u32, market: StockMarket::DOWN_JONES }),
            r.view()["BTC"@] == (AssetModel { symbol: "BTC"@, price_bits: 1174011904u32, initial_price_bits: 1173991424u32, market: StockMarket::CRYPTO }),
    {
        let mut repo = StockRepository { entries: Vec::new() };
        proof {
            assert(repo.rows() =~= Seq::<AssetModel>::empty());
        }
        repo.add(Asset::new(String::from_str("AAPL"), 1123470541u32, 1095027917u32, StockMarket::DOWN_JONES));
        repo.add(Asset::new(String::from_str("BTC"), 1174011904u32, 1173991424u32, StockMarket::CRYPTO));
        proof {
            reveal_strlit("AAPL");
            reveal_strlit("BTC");
            assert("AAPL"@.len() != "BTC"@.len());
            assert(repo.view().dom() =~= set!["AAPL"@, "BTC"@]);
        }
        repo
    }

    /// Stores `entry` under its symbol, replacing any asset stored there.
    pub fn add(&mut self, entry: Asset)
        requires
            old(self).wf(),
        ensures
            final(self).wf(),
            final(self).view() == old(self).view().insert(entry@.symbol, entry@),
    {
        match self.find(&entry.symbol) {
            Some(i) => {
                proof { lemma_to_map_update(self.rows(), i as int, entry@); }
                let ghost before = self.rows();
                self.entries.set(i, entry);
                assert(self.rows() =~= before.update(i as int, entry@));
            },
            None => {
                let ghost before = self.rows();
                proof { lemma_to_map_lookup(before, entry@.symbol); }
                self.entries.push(entry);
                assert(self.rows() =~= before.push(entry@));
                assert(self.rows().drop_last() =~= before);
            },
        }
    }

    /// Replaces the stored asset with the symbol of `entry`; fails with
    /// `KeyNotFoundError`, changing nothing, when there is none.
    pub fn update(&mut self, entry: &Asset) -> (r: Result<(), PersistanceError>)
        requires
            old(self).wf(),
        ensures
            final(self).wf(),
            old(self).view().contains_key(entry@.symbol) ==> r is Ok
                && final(self).view() == old(self).view().insert(entry@.symbol, entry@),
            !old(self).view().contains_key(entry@.symbol) ==> r == Err::<(), PersistanceError>(PersistanceError::KeyNotFoundError)
                && final(self).view() == old(self).view(),
    {
        match self.find(&entry.symbol) {
            Some(i) => {
                let copy = entry.duplicate();
                proof { lemma_to_map_update(self.rows(), i as int, copy@); }
                let ghost before = self.rows();
                self.entries.set(i, copy);
                assert(self.rows() =~= before.update(i as int, copy@));
                Ok(())
            },
            None => Err(PersistanceError::KeyNotFoundError),
        }
    }

    /// Removes the asset stored under `symbol`; fails with
    /// `KeyNotFoundError`, changing nothing, when there is none.
    pub fn delete(&mut self, symbol: &str) -> (r: Result<(), PersistanceError>)
        requires
            old(self).wf(),
        ensures
            final(self).wf(),
            old(self).view().contains_key(symbol@) ==> r is Ok
                && final(self).view() == old(self).view().remove(symbol@),
            !old(self).view().contains_key(symbol@) ==> r == Err::<(), PersistanceError>(PersistanceError::KeyNotFoundError)
                && final(self).view() == old(self).view(),
    {
        let key = String::from_str(symbol);
        match self.find(&key) {
            Some(i) => {
                proof { lemma_to_map_remove(self.rows(), i as int); }
                let ghost before = self.rows();
                self.entries.remove(i);
                assert(self.rows() =~= before.remove(i as int));
                Ok(())
            },
            None => Err(PersistanceError::KeyNotFoundError),
        }
    }

    /// Every stored asset, once each.
    pub fn get_entries(&self) -> (r: Vec<&Asset>)
        requires
            self.wf(),
        ensures
            r@.len() == self.view().len(),
            forall|i: int| 0 <= i < r@.len() ==> #[trigger] self.view().contains_key(r@[i]@.symbol)
                && self.view()[r@[i]@.symbol] == r@[i]@,
            forall|k: Seq<char>| #[trigger] self.view().contains_key(k) ==>
                exists|i: int| 0 <= i < r@.len() && #[trigger] r@[i]@ == self.view()[k],
    {
        let mut out: Vec<&Asset> = Vec::new();
        let mut i: usize = 0;
        while i < self.entries.len()
            invariant
                i <= self.entries@.len(),
                out@.len() == i,
                forall|j: int| 0 <= j < i ==> #[trigger] out@[j]@ == self.rows()[j],
            decreases self.entries@.len() - i,
        {
            out.push(&self.entries[i]);
            i += 1;
        }
        proof {
            let s = self.rows();
            assert forall|i: int| 0 <= i < out@.len() implies #[trigger] self.view().contains_key(out@[i]@.symbol)
                && self.view()[out@[i]@.symbol] == out@[i]@ by {
                lemma_to_map_lookup(s, s[i].symbol);
            }
            assert forall|k: Seq<char>| #[trigger] self.view().contains_key(k) implies
                exists|i: int| 0 <= i < out@.len() && #[trigger] out@[i]@ == self.view()[k] by {
                lemma_to_map_lookup(s, k);
                let j = choose|j: int| 0 <= j < s.len() && #[trigger] s[j].symbol == k;
                assert(out@[j]@ == self.view()[k]);
            }
            lemma_to_map_len(s);
        }
        out
    }
}

proof fn lemma_to_map_len(s: Seq<AssetModel>)
    requires
        unique_symbols(s),
    ensures
        to_map(s).len() == s.len(),
        to_map(s).dom().finite(),
    decreases s.len(),
{
    if s.len() > 0 {
        let d = s.drop_last();
        assert(unique_symbols(d));
        lemma_to_map_len(d);
        lemma_to_map_lookup(d, s.last().symbol);
        assert(!to_map(d).contains_key(s.last().symbol));
    }
}

/// Write then read: an asset stored by `add` is among the assets that
/// `get_entries` lists right after. The premises are those two functions'
/// guarantees.
pub proof fn lemma_added_asset_is_listed(
    before: Map<Seq<char>, AssetModel>,
    after: Map<Seq<char>, AssetModel>,
    entry: AssetModel,
    listed: Seq<AssetModel>,
)
    requires
        after == before.insert(entry.symbol, entry),
        forall|k: Seq<char>| #[trigger] after.contains_key(k) ==>
            exists|i: int| 0 <= i < listed.len() && #[trigger] listed[i] == after[k],
    ensures
        exists|i: int| 0 <= i < listed.len() && listed[i] == entry,
{
    assert(after.contains_key(entry.symbol));
}

/// Deleting a symbol that is not stored fails with `KeyNotFoundError`,
/// leaves the store as it was, and is reported to the client as `"false"`.
pub proof fn lemma_missing_delete_reports_false(
    before: Map<Seq<char>, AssetModel>,
    after: Map<Seq<char>, AssetModel>,
    symbol: Seq<char>,
    r: Result<(), PersistanceError>,
)
    requires
        !before.contains_key(symbol),
        !before.contains_key(symbol) ==> r == Err::<(), PersistanceError>(PersistanceError::KeyNotFoundError)
            && after == before,
    ensures
        r == Err::<(), PersistanceError>(PersistanceError::KeyNotFoundError),
        after == before,
        crate::reply::outcome_text(r is Ok) == "false"@,
{
}

} // verus!
