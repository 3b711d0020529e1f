//! Market metadata: which markets are tracked, how a market is found by its
//! canonical symbol, and how symbols are split into subscription batches.

use crate::error::ExchangeError;
use crate::symbol::{convert_symbol_to_backpack, exchange_symbol};
use crate::text::{labelled, str_eq, texts};
use vstd::prelude::*;

verus! {

/// The most symbols that one subscription may name.
pub const MAX_SUBSCRIPTION_SYMBOLS: usize = 200;

/// A market in the exchange's list, as far as tracking reads it.
#[derive(Debug, Clone)]
pub struct Market {
    pub symbol: String,
    pub market_type: String,
    pub quote_symbol: String,
}

/// The bounds on a market's prices.
#[derive(Debug, Clone)]
pub struct PriceFilter {
    pub min_price: Option<String>,
    pub max_price: Option<String>,
    pub tick_size: String,
}

/// The bounds on a market's quantities.
#[derive(Debug, Clone)]
pub struct QuantityFilter {
    pub min_quantity: String,
    pub max_quantity: Option<String>,
    pub step_size: String,
}

/// The filters of a market.
#[derive(Debug, Clone)]
pub struct MarketFilters {
    pub price: PriceFilter,
    pub quantity: QuantityFilter,
}

/// A market as the exchange describes it.
#[derive(Debug, Clone)]
pub struct BackpackMarketInfo {
    pub symbol: String,
    pub base_symbol: String,
    pub quote_symbol: String,
    pub market_type: String,
    pub filters: MarketFilters,
    pub funding_interval: Option<i64>,
    pub funding_rate_upper_bound: Option<String>,
    pub funding_rate_lower_bound: Option<String>,
    pub open_interest_limit: Option<String>,
    pub order_book_state: String,
    pub created_at: String,
}

/// A market is tracked if it is a perpetual contract quoted in USDT or USDC.
pub open spec fn is_tracked(market: Market) -> bool {
    market.market_type@ == "PERP"@ && (market.quote_symbol@ == "USDT"@ || market.quote_symbol@
        == "USDC"@)
}

/// The symbols of the tracked markets, in the order of the list.
pub open spec fn tracked_symbols(markets: Seq<Market>) -> Seq<Seq<char>>
    decreases markets.len(),
{
    if markets.len() == 0 {
        Seq::<Seq<char>>::empty()
    } else if is_tracked(markets.last()) {
        tracked_symbols(markets.drop_last()).push(markets.last().symbol@)
    } else {
        tracked_symbols(markets.drop_last())
    }
}

/// The index of the first market named `name`; the length of the list if
/// there is none.
pub open spec fn market_index(markets: Seq<BackpackMarketInfo>, name: Seq<char>) -> int
    decreases markets.len(),
{
    if markets.len() == 0 {
        0
    } else if markets[0].symbol@ == name {
        0
    } else {
        1 + market_index(markets.drop_first(), name)
    }
}

/// The symbols of the tracked markets.
pub fn perp_symbols(markets: &Vec<Market>) -> (symbols: Vec<String>)
    ensures
        texts(symbols@) == tracked_symbols(markets@),
{
    let mut symbols: Vec<String> = Vec::new();
    let mut i: usize = 0;
    assert(markets@.subrange(0, 0) =~= Seq::<Market>::empty());
    assert(texts(symbols@) =~= Seq::<Seq<char>>::empty());
    while i < markets.len()
        invariant
            i <= markets@.len(),
            texts(symbols@) == tracked_symbols(markets@.subrange(0, i as int)),
        decreases markets@.len() - i,
    {
        let ghost before = texts(symbols@);
        assert(markets@.subrange(0, i + 1).drop_last() =~= markets@.subrange(0, i as int));
        let m = &markets[i];
        if str_eq(m.market_type.as_str(), "PERP") && (str_eq(m.quote_symbol.as_str(), "USDT")
            || str_eq(m.quote_symbol.as_str(), "USDC")) {
            symbols.push(m.symbol.clone());
            assert(texts(symbols@) =~= before.push(m.symbol@));
        }
        i += 1;
    }
    assert(markets@.subrange(0, markets@.len() as int) =~= markets@);
    symbols
}

/// The market of the canonical `symbol`: the first in the list that bears
/// its exchange name, and `Trading` where none does ("Market ", the exchange
/// name, " not found").
pub fn find_market(markets: Vec<BackpackMarketInfo>, symbol: &str) -> (r: Result<
    BackpackMarketInfo,
    ExchangeError,
>)
    ensures
        ({
            let name = exchange_symbol(symbol@);
            let at = market_index(markets@, name);
            match r {
                Ok(market) => 0 <= at < markets@.len() && market == markets@[at],
                Err(ExchangeError::Trading(m)) => at == markets@.len() && m@ == "Market "@ + name
                    + " not found"@,
                Err(_) => false,
            }
        }),
{
    let name = convert_symbol_to_backpack(symbol);
    let mut pool = markets;
    let ghost all = pool@;
    let mut i: usize = 0;
    assert(all.subrange(0, all.len() as int) =~= all);
    while i < pool.len()
        invariant
            pool@ == all,
            all == markets@,
            name@ == exchange_symbol(symbol@),
            i <= all.len(),
            market_index(all, name@) == i + market_index(
                all.subrange(i as int, all.len() as int),
                name@,
            ),
        decreases all.len() - i,
    {
        let ghost rest = all.subrange(i as int, all.len() as int);
        assert(rest[0] == all[i as int]);
        if str_eq(pool[i].symbol.as_str(), name.as_str()) {
            assert(market_index(rest, name@) == 0);
            let found = pool.remove(i);
            assert(found == all[i as int]);
            return Ok(found);
        }
        assert(rest.drop_first() =~= all.subrange(i + 1, all.len() as int));
        i += 1;
    }
    let mut m = labelled("Market ", name.as_str());
    m.append(" not found");
    Err(ExchangeError::Trading(m))
}

/// The texts of all batches, one after the other.
pub open spec fn flattened(batches: Seq<Vec<String>>) -> Seq<Seq<char>>
    decreases batches.len(),
{
    if batches.len() == 0 {
        Seq::<Seq<char>>::empty()
    } else {
        flattened(batches.drop_last()) + texts(batches.last()@)
    }
}

/// `batches` are `symbols` cut, in order, into runs of `size`, the last of
/// which may be shorter.
pub open spec fn is_batching(batches: Seq<Vec<String>>, symbols: Seq<String>, size: nat) -> bool {
    &&& forall|b: int|
        0 <= b < batches.len() ==> 0 < (#[trigger] batches[b])@.len() <= size && (b + 1
            < batches.len() ==> batches[b]@.len() == size)
    &&& flattened(batches) == texts(symbols)
}

/// Cuts `symbols` into batches of at most `size`.
pub fn chunk_symbols(symbols: &Vec<String>, size: usize) -> (batches: Vec<Vec<String>>)
    requires
        size > 0,
    ensures
        is_batching(batches@, symbols@, size as nat),
{
    let mut batches: Vec<Vec<String>> = Vec::new();
    let mut current: Vec<String> = Vec::new();
    let mut i: usize = 0;
    assert(texts(symbols@.subrange(0, 0)) =~= flattened(batches@) + texts(current@));
    while i < symbols.len()
        invariant
            size > 0,
            i <= symbols@.len(),
            current@.len() < size,
            forall|b: int| 0 <= b < batches@.len() ==> (#[trigger] batches@[b])@.len() == size,
            texts(symbols@.subrange(0, i as int)) == flattened(batches@) + texts(current@),
        decreases symbols@.len() - i,
    {
        let ghost done = flattened(batches@);
        let ghost open = texts(current@);
        current.push(symbols[i].clone());
        assert(texts(current@) =~= open.push(symbols@[i as int]@));
        assert(texts(symbols@.subrange(0, i + 1)) =~= texts(symbols@.subrange(0, i as int)).push(
            symbols@[i as int]@,
        ));
        assert(texts(symbols@.subrange(0, i + 1)) =~= done + texts(current@));
        if current.len() == size {
            let ghost full = current@;
            let ghost prior = batches@;
            batches.push(current);
            current = Vec::new();
            assert(batches@.drop_last() =~= prior);
            assert(flattened(batches@) + texts(current@) =~= done + texts(full));
        }
        i += 1;
    }
    assert(symbols@.subrange(0, symbols@.len() as int) =~= symbols@);
    if current.len() > 0 {
        let ghost prior = batches@;
        batches.push(current);
        assert(batches@.drop_last() =~= prior);
    } else {
        assert(flattened(batches@) + texts(current@) =~= flattened(batches@));
    }
    batches
}

} // verus!
