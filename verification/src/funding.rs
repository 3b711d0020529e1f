//! Funding intervals: how long the funding rate of each perpetual contract
//! applies. Intervals are kept in milliseconds; an hour is 3,600,000 of them.

use crate::table::SymbolTable;
use crate::text::texts;
use chrono::DateTime;
use vstd::prelude::*;

verus! {

/// The milliseconds of an hour.
pub const MILLIS_PER_HOUR: i64 = 3_600_000;

/// The interval of a symbol that the table does not hold: eight hours.
pub const DEFAULT_FUNDING_INTERVAL_MS: i64 = 28_800_000;

/// The seconds between two refreshes of the table.
pub const FUNDING_REFRESH_SECS: u64 = 600;

/// The funding interval of each tracked symbol, in milliseconds.
pub type FundingIntervalTable = SymbolTable<i64>;

/// The milliseconds since the Unix epoch of the instant that RFC 3339 `text`
/// names, as `chrono` reads it; `None` where `chrono` rejects the text.
pub uninterp spec fn rfc3339_millis(text: Seq<char>) -> Option<i64>;

/// `DateTime::parse_from_rfc3339` and then `DateTime::timestamp_millis`. The
/// offset is part of the text, so the outcome depends on the text alone.
#[verifier::external_body]
pub(crate) fn parse_rfc3339_millis(text: &str) -> (r: Option<i64>)
    ensures
        r == rfc3339_millis(text@),
{
    match DateTime::parse_from_rfc3339(text) {
        Ok(instant) => Some(instant.timestamp_millis()),
        Err(_) => None,
    }
}

/// The interval that the table gives for `symbol`.
pub open spec fn interval_of(table: Map<Seq<char>, i64>, symbol: Seq<char>) -> i64 {
    if table.contains_key(symbol) {
        table[symbol]
    } else {
        DEFAULT_FUNDING_INTERVAL_MS
    }
}

/// The time from `earlier` to `later`, where it fits the type.
pub open spec fn span(later: i64, earlier: i64) -> Option<i64> {
    if i64::MIN <= later - earlier <= i64::MAX {
        Some((later - earlier) as i64)
    } else {
        None
    }
}

/// The interval between the ends of the two most recent funding records,
/// newest first; `None` with fewer than two records, or where one of the two
/// is no RFC 3339 time.
pub open spec fn interval_from(ends: Seq<Seq<char>>) -> Option<i64> {
    if ends.len() < 2 {
        None
    } else {
        match (rfc3339_millis(ends[0]), rfc3339_millis(ends[1])) {
            (Some(t0), Some(t1)) => span(t0, t1),
            _ => None,
        }
    }
}

/// The funding interval of `symbol` in milliseconds: the table's, or eight
/// hours where the table has none.
pub fn funding_interval(table: &FundingIntervalTable, symbol: &str) -> (ms: i64)
    requires
        table.wf(),
    ensures
        ms == interval_of(table@, symbol@),
        !table@.contains_key(symbol@) ==> ms == 8 * MILLIS_PER_HOUR,
{
    match table.get(symbol) {
        Some(ms) => ms,
        None => DEFAULT_FUNDING_INTERVAL_MS,
    }
}

/// The time from `earlier` to `later`.
pub fn interval_between(later: i64, earlier: i64) -> (r: Option<i64>)
    ensures
        r == span(later, earlier),
{
    later.checked_sub(earlier)
}

/// The interval between the ends of the two most recent funding records.
pub fn interval_from_records(ends: &Vec<String>) -> (r: Option<i64>)
    ensures
        r == interval_from(texts(ends@)),
{
    if ends.len() < 2 {
        return None;
    }
    let t0 = match parse_rfc3339_millis(ends[0].as_str()) {
        Some(t) => t,
        None => {
            return None;
        },
    };
    let t1 = match parse_rfc3339_millis(ends[1].as_str()) {
        Some(t) => t,
        None => {
            return None;
        },
    };
    interval_between(t0, t1)
}

/// Takes the outcome of one symbol's refresh into the table: a new interval
/// is written, a failed refresh leaves the table as it was.
pub fn record_interval(table: &mut FundingIntervalTable, symbol: &str, interval: Option<i64>)
    requires
        old(table).wf(),
    ensures
        final(table).wf(),
        final(table)@ == match interval {
            Some(ms) => old(table)@.insert(symbol@, ms),
            None => old(table)@,
        },
{
    match interval {
        Some(ms) => {
            table.insert(symbol, ms);
        },
        None => {},
    }
}

/// The query that asks for the two most recent funding records of `symbol`.
pub fn funding_query(symbol: &str) -> (query: String)
    ensures
        query@ == "symbol="@ + symbol@ + "&limit=2"@,
{
    let mut query = String::from_str("symbol=");
    query.append(symbol);
    query.append("&limit=2");
    query
}

/// The endpoint that serves the funding records of `symbol`.
pub fn funding_endpoint(symbol: &str) -> (endpoint: String)
    ensures
        endpoint@ == "/api/v1/fundingRates?"@ + ("symbol="@ + symbol@ + "&limit=2"@),
{
    let mut endpoint = String::from_str("/api/v1/fundingRates?");
    endpoint.append(funding_query(symbol).as_str());
    endpoint
}

} // verus!
