//! The records that the tool stores and serves.
use vstd::prelude::*;

verus! {

/// A perpetual futures contract, known by its symbol.
#[derive(Debug)]
pub struct Perpetual {
    pub symbol: String,
}

/// One daily candle of a contract: its opening time in milliseconds and
/// its prices and volume, kept as the exchange writes them.
#[derive(Debug, Clone)]
pub struct Kline {
    pub opentime: i64,
    pub open: String,
    pub high: String,
    pub low: String,
    pub close: String,
    pub volume: String,
}

/// The symbols of the given contracts, in their order.
pub fn perpetual_symbols(perps: &Vec<Perpetual>) -> (symbols: Vec<String>)
    ensures
        symbols@.len() == perps@.len(),
        forall|i: int| 0 <= i < perps@.len() ==> #[trigger] symbols@[i] == perps@[i].symbol,
{
    let mut symbols: Vec<String> = Vec::new();
    let mut i: usize = 0;
    while i < perps.len()
        invariant
            i <= perps@.len(),
            symbols@.len() == i,
            forall|j: int| 0 <= j < i ==> #[trigger] symbols@[j] == perps@[j].symbol,
        decreases perps@.len() - i,
    {
        symbols.push(perps[i].symbol.clone());
        i = i + 1;
    }
    symbols
}

} // verus!
