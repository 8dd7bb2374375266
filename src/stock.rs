//! The stock record that travels inside an `add_stock` command.

use vstd::prelude::*;

verus! {

/// A stock as the storage collaborator keeps it.
///
/// The price is carried as the IEEE-754 bit pattern of the quoted `f32`:
/// the dispatch core never computes with it, it only moves it unchanged from
/// the client's record to storage.
#[derive(Debug, Clone, PartialEq)]
pub struct Stock {
    pub symbol: String,
    pub name: String,
    pub price_bits: u32,
    pub market: u16,
}

/// What a `Stock` holds, as plain values.
pub struct StockModel {
    pub symbol: Seq<char>,
    pub name: Seq<char>,
    pub price_bits: u32,
    pub market: u16,
}

impl View for Stock {
    type V = StockModel;

    open spec fn view(&self) -> StockModel {
        StockModel {
            symbol: self.symbol@,
            name: self.name@,
            price_bits: self.price_bits,
            market: self.market,
        }
    }
}

/// A market that stocks are listed on.
#[derive(Debug, Clone, PartialEq)]
pub struct Market {
    pub id: u16,
    pub symbol: String,
}

/// The markets that stocks can be listed on, by id.
pub open spec fn market_catalogue() -> Seq<(u16, Seq<char>)> {
    seq![(0u16, "NASDAQ"@), (1u16, "DOWN_JONES"@), (2u16, "IBEX35"@), (3u16, "CRYPTO"@)]
}

/// Returns a list of all the available markets.
pub fn get_available_markets() -> (r: Result<Vec<Market>, crate::error::PersistanceError>)
    ensures
        r is Ok,
        r.unwrap()@.len() == market_catalogue().len(),
        forall|i: int| 0 <= i < market_catalogue().len() ==>
            (#[trigger] r.unwrap()@[i]).id == market_catalogue()[i].0
                && r.unwrap()@[i].symbol@ == market_catalogue()[i].1,
{
    let mut out: Vec<Market> = Vec::new();
    out.push(Market { id: 0, symbol: String::from_str("NASDAQ") });
    out.push(Market { id: 1, symbol: String::from_str("DOWN_JONES") });
    out.push(Market { id: 2, symbol: String::from_str("IBEX35") });
    out.push(Market { id: 3, symbol: String::from_str("CRYPTO") });
    Ok(out)
}

} // verus!
