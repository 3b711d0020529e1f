use backpack_connector::latency::{calc_latency, latency_sample, LatencyTable};
use backpack_connector::symbol::{
    convert_symbol_from_backpack, convert_symbol_to_backpack, display_symbol_of,
    normalize_backpack_symbol,
};
use backpack_connector::table::SymbolTable;
use backpack_connector::text::{
    compare, contains, decimal_chars, ends_with, find_char, from_chars, replace_all, replace_char,
    starts_with, to_chars, trim_end, TextOrder,
};

fn chars(s: &str) -> Vec<char> {
    s.chars().collect()
}

fn text(v: &[char]) -> String {
    v.iter().collect()
}

#[test]
fn normalize_replaces_every_underscore() {
    assert_eq!(normalize_backpack_symbol("BTC_USDC_PERP"), "BTC/USDC/PERP");
    assert_eq!(normalize_backpack_symbol("BTC"), "BTC");
    assert_eq!(normalize_backpack_symbol(""), "");
}

#[test]
fn usdt_symbol_becomes_usdc_perpetual() {
    assert_eq!(convert_symbol_to_backpack("BTC/USDT"), "BTC_USDC_PERP");
}

#[test]
fn other_quote_only_gets_the_suffix() {
    assert_eq!(convert_symbol_to_backpack("ETH/USDC"), "ETH_USDC_PERP");
    assert_eq!(convert_symbol_to_backpack("SOL/EUR"), "SOL_EUR_PERP");
    assert_eq!(convert_symbol_to_backpack("BTC"), "BTC_PERP");
}

#[test]
fn exchange_symbol_becomes_canonical() {
    assert_eq!(convert_symbol_from_backpack("BTC_USDC_PERP"), "BTC/USDT");
    assert_eq!(convert_symbol_from_backpack("BTC_USDC"), "BTC/USDT");
    assert_eq!(convert_symbol_from_backpack("SOL_EUR_PERP"), "SOL/EUR");
}

#[test]
fn usdt_symbols_survive_the_round_trip() {
    for s in ["BTC/USDT", "ETH/USDT", "1000PEPE/USDT", "/USDT"] {
        assert_eq!(convert_symbol_from_backpack(&convert_symbol_to_backpack(s)), s);
    }
}

#[test]
fn tick_symbol_is_canonical_without_the_contract_suffix() {
    assert_eq!(display_symbol_of("BTC_USDC_PERP"), "BTC/USDT");
    assert_eq!(display_symbol_of("ETH_USDC"), "ETH/USDT");
    assert_eq!(display_symbol_of("SOL_EUR_PERP_PERP"), "SOL/EUR");
}

#[test]
fn first_latency_sample_is_the_estimate() {
    let mut table: LatencyTable = SymbolTable::new();
    assert_eq!(calc_latency(&mut table, "BTC_USDC_PERP", 100), 100);
    assert_eq!(table.get("BTC_USDC_PERP"), Some(100));
}

#[test]
fn second_latency_sample_moves_the_estimate_by_a_quarter() {
    let mut table: LatencyTable = SymbolTable::new();
    calc_latency(&mut table, "BTC_USDC_PERP", 100);
    assert_eq!(calc_latency(&mut table, "BTC_USDC_PERP", 500), 200);
    assert_eq!(table.get("BTC_USDC_PERP"), Some(200));
}

#[test]
fn latency_is_smoothed_per_symbol_and_rounded_down() {
    let mut table: LatencyTable = SymbolTable::new();
    calc_latency(&mut table, "A", 10);
    assert_eq!(calc_latency(&mut table, "B", 7), 7);
    assert_eq!(calc_latency(&mut table, "A", 13), 10);
    assert_eq!(calc_latency(&mut table, "A", 15), 11);
}

#[test]
fn latency_of_the_largest_samples_does_not_overflow() {
    let mut table: LatencyTable = SymbolTable::new();
    calc_latency(&mut table, "A", u64::MAX);
    assert_eq!(calc_latency(&mut table, "A", u64::MAX), u64::MAX);
    assert_eq!(calc_latency(&mut table, "A", 0), u64::MAX / 4 * 3 + 2);
}

#[test]
fn latency_sample_never_goes_below_zero() {
    assert_eq!(latency_sample(1_700_000_000_500, 1_700_000_000_000_000), 500);
    assert_eq!(latency_sample(5, 10_000), 0);
    assert_eq!(latency_sample(5, 999), 5);
}

#[test]
fn table_keeps_the_last_value_of_a_key() {
    let mut table: SymbolTable<i64> = SymbolTable::new();
    assert_eq!(table.get("A"), None);
    table.insert("A", 1);
    table.insert("B", 2);
    table.insert("A", 3);
    assert_eq!(table.get("A"), Some(3));
    assert_eq!(table.get("B"), Some(2));
    assert_eq!(table.get("C"), None);
}

#[test]
fn text_conversions_keep_every_character() {
    let s = "a/b_c é 漢";
    assert_eq!(from_chars(&to_chars(s)), s);
    assert_eq!(to_chars(s), chars(s));
}

#[test]
fn text_search() {
    assert!(contains(&chars("/api/v1/orders"), &chars("/orders")));
    assert!(!contains(&chars("/api/v1/order"), &chars("/orders")));
    assert!(contains(&chars("abc"), &chars("")));
    assert!(starts_with(&chars("account.orderUpdate.X"), &chars("account.orderUpdate")));
    assert!(!starts_with(&chars("acc"), &chars("account")));
    assert!(ends_with(&chars("BTC_USDT"), &chars("_USDT")));
    assert!(!ends_with(&chars("USDT"), &chars("_USDT")));
    assert_eq!(find_char(&chars("a=b=c"), '='), 1);
    assert_eq!(find_char(&chars("abc"), '='), 3);
}

#[test]
fn text_replacement() {
    assert_eq!(text(&replace_char(&chars("a_b_c"), '_', '/')), "a/b/c");
    assert_eq!(text(&replace_all(&chars("aaa"), &chars("aa"), &chars("b"))), "ba");
    assert_eq!(text(&replace_all(&chars("x_USDT_USDT"), &chars("_USDT"), &chars("_USDC"))), "x_USDC_USDC");
    assert_eq!(text(&replace_all(&chars("abc"), &chars(""), &chars("z"))), "abc");
    assert_eq!(text(&trim_end(&chars("a/PERP/PERP"), &chars("/PERP"))), "a");
    assert_eq!(text(&trim_end(&chars("a/PERPx"), &chars("/PERP"))), "a/PERPx");
}

#[test]
fn decimal_text() {
    assert_eq!(text(&decimal_chars(0)), "0");
    assert_eq!(text(&decimal_chars(9)), "9");
    assert_eq!(text(&decimal_chars(10)), "10");
    assert_eq!(text(&decimal_chars(1700000000000)), "1700000000000");
    assert_eq!(text(&decimal_chars(u64::MAX)), "18446744073709551615");
}

#[test]
fn text_order() {
    assert_eq!(compare(&chars("a"), &chars("b")), TextOrder::Before);
    assert_eq!(compare(&chars("b"), &chars("a")), TextOrder::After);
    assert_eq!(compare(&chars("a"), &chars("a")), TextOrder::Same);
    assert_eq!(compare(&chars("a"), &chars("ab")), TextOrder::Before);
    assert_eq!(compare(&chars(""), &chars("")), TextOrder::Same);
    assert_eq!(compare(&chars("Z"), &chars("a")), TextOrder::Before);
}
