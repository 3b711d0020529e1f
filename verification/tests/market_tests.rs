use backpack_connector::account::{
    account_balances, account_subscription, auth_message, convert_position_update,
    listener_action, market_subscription, position_from_response, route_stream,
    BackpackBalanceData, BackpackCollateral, BackpackPosition, BackpackPositionUpdate, FrameKind,
    ListenerAction, StreamRoute, POLL_PERIOD_SECS,
};
use backpack_connector::client::{BackpackCredentials, BackpackTradingClient};
use backpack_connector::error::ExchangeError;
use backpack_connector::funding::{
    funding_endpoint, funding_interval, funding_query, interval_between, interval_from_records,
    record_interval, FundingIntervalTable, DEFAULT_FUNDING_INTERVAL_MS, FUNDING_REFRESH_SECS,
    MILLIS_PER_HOUR,
};
use backpack_connector::latency::LatencyTable;
use backpack_connector::market::{
    chunk_symbols, find_market, perp_symbols, BackpackMarketInfo, Market, MarketFilters,
    PriceFilter, QuantityFilter, MAX_SUBSCRIPTION_SYMBOLS,
};
use backpack_connector::stream::{
    build_query_message, generate_signature, handle_mark_price, signed_query_headers, step,
    subscription_params, BackpackConfig, MarketDataStream, MarkPrice, StreamAction, StreamEvent, StreamState, RECONNECT_DELAY_SECS,
};
use backpack_connector::table::SymbolTable;
use base64::engine::general_purpose::STANDARD;
use base64::Engine;
use ed25519_dalek::{Keypair, PublicKey, SecretKey, Signer};

const SECRET_B64: &str = "nWGxne/9WmC6hEr0kuwsxERJxWl7MmkZcDusAxyuf2A=";
const PUBLIC_B64: &str = "11qYAYKxCrfVS/7TyWQHOg7hcvPapiMlrwIaaPcHURo=";

fn expected_signature(message: &str) -> String {
    let secret = SecretKey::from_bytes(&STANDARD.decode(SECRET_B64).unwrap()).unwrap();
    let public = PublicKey::from(&secret);
    let pair = Keypair { secret, public };
    STANDARD.encode(pair.sign(message.as_bytes()).to_bytes())
}

fn market(symbol: &str, market_type: &str, quote: &str) -> Market {
    Market {
        symbol: symbol.to_string(),
        market_type: market_type.to_string(),
        quote_symbol: quote.to_string(),
    }
}

fn market_info(symbol: &str, min_quantity: &str) -> BackpackMarketInfo {
    BackpackMarketInfo {
        symbol: symbol.to_string(),
        base_symbol: "BTC".to_string(),
        quote_symbol: "USDC".to_string(),
        market_type: "PERP".to_string(),
        filters: MarketFilters {
            price: PriceFilter { min_price: None, max_price: None, tick_size: "0.1".to_string() },
            quantity: QuantityFilter {
                min_quantity: min_quantity.to_string(),
                max_quantity: None,
                step_size: "0.001".to_string(),
            },
        },
        funding_interval: Some(28800000),
        funding_rate_upper_bound: None,
        funding_rate_lower_bound: None,
        open_interest_limit: None,
        order_book_state: "Open".to_string(),
        created_at: "2024-01-01T00:00:00Z".to_string(),
    }
}

fn mark_price(kind: &str, symbol: &str, event_time: u64) -> MarkPrice {
    MarkPrice {
        e: kind.to_string(),
        event_time,
        s: symbol.to_string(),
        p: "30000.5".to_string(),
        f: "0.0001".to_string(),
        n: 0,
    }
}

#[test]
fn absent_symbol_has_an_interval_of_eight_hours() {
    let table: FundingIntervalTable = SymbolTable::new();
    assert_eq!(funding_interval(&table, "BTC_USDC_PERP"), 8 * MILLIS_PER_HOUR);
    assert_eq!(DEFAULT_FUNDING_INTERVAL_MS, 28_800_000);
}

#[test]
fn tracked_symbol_has_its_own_interval() {
    let mut table: FundingIntervalTable = SymbolTable::new();
    record_interval(&mut table, "BTC_USDC_PERP", Some(3_600_000));
    record_interval(&mut table, "ETH_USDC_PERP", None);
    assert_eq!(funding_interval(&table, "BTC_USDC_PERP"), 3_600_000);
    assert_eq!(funding_interval(&table, "ETH_USDC_PERP"), 28_800_000);
}

#[test]
fn interval_is_the_time_between_the_two_newest_records() {
    let ends = vec!["2024-05-01T08:00:00Z".to_string(), "2024-05-01T00:00:00Z".to_string()];
    assert_eq!(interval_from_records(&ends), Some(28_800_000));
    let with_offset = vec![
        "2024-05-01T09:00:00.250+01:00".to_string(),
        "2024-05-01T07:00:00Z".to_string(),
        "ignored".to_string(),
    ];
    assert_eq!(interval_from_records(&with_offset), Some(3_600_250));
}

#[test]
fn interval_needs_two_well_formed_records() {
    assert_eq!(interval_from_records(&Vec::new()), None);
    assert_eq!(interval_from_records(&vec!["2024-05-01T08:00:00Z".to_string()]), None);
    assert_eq!(
        interval_from_records(&vec!["yesterday".to_string(), "2024-05-01T00:00:00Z".to_string()]),
        None
    );
    assert_eq!(
        interval_from_records(&vec!["2024-05-01T00:00:00Z".to_string(), "2024-05-01".to_string()]),
        None
    );
}

#[test]
fn interval_between_two_instants() {
    assert_eq!(interval_between(10, 4), Some(6));
    assert_eq!(interval_between(4, 10), Some(-6));
    assert_eq!(interval_between(i64::MAX, -1), None);
    assert_eq!(interval_between(i64::MIN, 1), None);
}

#[test]
fn funding_query_asks_for_two_records() {
    assert_eq!(funding_query("BTC_USDC_PERP"), "symbol=BTC_USDC_PERP&limit=2");
    assert_eq!(funding_endpoint("BTC_USDC_PERP"), "/api/v1/fundingRates?symbol=BTC_USDC_PERP&limit=2");
    assert_eq!(FUNDING_REFRESH_SECS, 600);
}

#[test]
fn only_usdt_and_usdc_perpetuals_are_tracked() {
    let markets = vec![
        market("BTC_USDC_PERP", "PERP", "USDC"),
        market("BTC_USDC", "SPOT", "USDC"),
        market("ETH_USDT_PERP", "PERP", "USDT"),
        market("SOL_EUR_PERP", "PERP", "EUR"),
        market("SOL_USDC_PERP", "PERP", "USDC"),
    ];
    assert_eq!(perp_symbols(&markets), vec!["BTC_USDC_PERP", "ETH_USDT_PERP", "SOL_USDC_PERP"]);
    assert!(perp_symbols(&Vec::new()).is_empty());
}

#[test]
fn market_is_found_by_its_canonical_symbol() {
    let markets = vec![
        market_info("ETH_USDC_PERP", "0.01"),
        market_info("BTC_USDC_PERP", "0.001"),
        market_info("BTC_USDC_PERP", "0.002"),
    ];
    let found = find_market(markets, "BTC/USDT").unwrap();
    assert_eq!(found.symbol, "BTC_USDC_PERP");
    assert_eq!(found.filters.quantity.min_quantity, "0.001");
}

#[test]
fn missing_market_is_a_trading_failure() {
    match find_market(vec![market_info("ETH_USDC_PERP", "0.01")], "BTC/USDT") {
        Err(ExchangeError::Trading(m)) => assert_eq!(m, "Market BTC_USDC_PERP not found"),
        other => panic!("expected a trading failure, got {:?}", other),
    }
}

#[test]
fn symbols_are_cut_into_batches() {
    let symbols: Vec<String> = (0..450).map(|i| format!("S{}", i)).collect();
    let batches = chunk_symbols(&symbols, MAX_SUBSCRIPTION_SYMBOLS);
    assert_eq!(batches.len(), 3);
    assert_eq!(batches[0].len(), 200);
    assert_eq!(batches[1].len(), 200);
    assert_eq!(batches[2].len(), 50);
    assert_eq!(batches.concat(), symbols);
    assert_eq!(chunk_symbols(&symbols[..400].to_vec(), 200).len(), 2);
    assert!(chunk_symbols(&Vec::new(), 200).is_empty());
    assert_eq!(chunk_symbols(&symbols[..3].to_vec(), 1).len(), 3);
}

#[test]
fn subscription_names_the_mark_price_channel_of_each_symbol() {
    let symbols = vec!["BTC_USDC_PERP".to_string(), "ETH_USDC_PERP".to_string()];
    let params = subscription_params(&symbols);
    assert_eq!(params, vec!["markPrice.BTC_USDC_PERP", "markPrice.ETH_USDC_PERP"]);
    let frame = market_subscription(params);
    assert_eq!(frame.method, "SUBSCRIBE");
    assert_eq!(frame.params.len(), 2);
}

#[test]
fn stream_walks_from_disconnected_to_streaming() {
    let (s, a) = step(StreamState::Disconnected, StreamEvent::Ready);
    assert_eq!((s, a), (StreamState::Connecting, StreamAction::Connect));
    let (s, a) = step(s, StreamEvent::Connected);
    assert_eq!((s, a), (StreamState::SubscriptionSent, StreamAction::Subscribe));
    let (s, a) = step(s, StreamEvent::Subscribed);
    assert_eq!((s, a), (StreamState::Streaming, StreamAction::Receive));
    assert_eq!(step(s, StreamEvent::Ping), (StreamState::Streaming, StreamAction::Pong));
    assert_eq!(step(s, StreamEvent::Text), (StreamState::Streaming, StreamAction::Publish));
    assert_eq!(step(s, StreamEvent::OtherFrame), (StreamState::Streaming, StreamAction::Receive));
}

#[test]
fn stream_reconnects_after_a_drop() {
    for state in [
        StreamState::Disconnected,
        StreamState::Connecting,
        StreamState::SubscriptionSent,
        StreamState::Streaming,
    ] {
        let (s, a) = step(state, StreamEvent::Lost);
        assert_eq!(s, StreamState::Disconnected);
        assert_eq!(a, StreamAction::Wait(5));
        let (s, a) = step(s, StreamEvent::Ready);
        assert_eq!((s, a), (StreamState::Connecting, StreamAction::Connect));
        let (s, _) = step(s, StreamEvent::Connected);
        let (s, _) = step(s, StreamEvent::Subscribed);
        assert_eq!(step(s, StreamEvent::Text), (StreamState::Streaming, StreamAction::Publish));
    }
    assert_eq!(RECONNECT_DELAY_SECS, 5);
}

#[test]
fn stream_ignores_events_that_do_not_belong_to_the_state() {
    assert_eq!(step(StreamState::Connecting, StreamEvent::Text), (StreamState::Connecting, StreamAction::Connect));
    assert_eq!(
        step(StreamState::Disconnected, StreamEvent::Ping),
        (StreamState::Disconnected, StreamAction::Wait(5))
    );
    assert_eq!(
        step(StreamState::SubscriptionSent, StreamEvent::Ready),
        (StreamState::SubscriptionSent, StreamAction::Subscribe)
    );
    assert_eq!(step(StreamState::Streaming, StreamEvent::Connected), (StreamState::Streaming, StreamAction::Receive));
}

#[test]
fn market_query_is_signed_with_the_query_as_sent() {
    let config = BackpackConfig { api_key: PUBLIC_B64.to_string(), api_secret: SECRET_B64.to_string() };
    let (timestamp, signature) =
        generate_signature(&config, "fundingRatesQuery", "symbol=BTC_USDC_PERP&limit=2", 1700000000000).unwrap();
    assert_eq!(timestamp, "1700000000000");
    assert_eq!(
        signature,
        expected_signature(
            "instruction=fundingRatesQuery&limit=2&symbol=BTC_USDC_PERP&timestamp=1700000000000&window=5000"
        )
    );
    let message: String = build_query_message("marketsQuery", "", 1, 5000).iter().collect();
    assert_eq!(message, "instruction=marketsQuery&timestamp=1&window=5000");
    let sorted: String = build_query_message("fundingRatesQuery", "symbol=X&limit=2", 1, 5000).iter().collect();
    assert_eq!(sorted, "instruction=fundingRatesQuery&limit=2&symbol=X&timestamp=1&window=5000");
}

#[test]
fn market_query_needs_a_secret_of_32_bytes() {
    let short = BackpackConfig { api_key: String::new(), api_secret: "AAAAAAAAAAAAAAAAAAAAAA==".to_string() };
    assert!(generate_signature(&short, "marketsQuery", "", 1).is_none());
    let broken = BackpackConfig { api_key: String::new(), api_secret: "***".to_string() };
    assert!(generate_signature(&broken, "marketsQuery", "", 1).is_none());
}

#[test]
fn mark_price_event_becomes_a_tick() {
    let mut latency: LatencyTable = SymbolTable::new();
    let mut funding: FundingIntervalTable = SymbolTable::new();
    funding.insert("ETH_USDC_PERP", 3_600_000);
    let tick = handle_mark_price(&mark_price("markPrice", "BTC_USDC_PERP", 1_000_000), &mut latency, &funding, 1_100)
        .unwrap();
    assert_eq!(tick.exchange, "Backpack");
    assert_eq!(tick.symbol, "BTC/USDT");
    assert_eq!(tick.price, "30000.5");
    assert_eq!(tick.funding_rate, "0.0001");
    assert_eq!(tick.funding_interval_ms, 28_800_000);
    assert_eq!(tick.timestamp, 1_000);
    assert_eq!(tick.latency, 100);
    let next = handle_mark_price(&mark_price("markPrice", "BTC_USDC_PERP", 1_000_000), &mut latency, &funding, 1_500)
        .unwrap();
    assert_eq!(next.latency, 200);
    let other = handle_mark_price(&mark_price("markPrice", "ETH_USDC_PERP", 2_000_000), &mut latency, &funding, 1_000)
        .unwrap();
    assert_eq!(other.symbol, "ETH/USDT");
    assert_eq!(other.funding_interval_ms, 3_600_000);
    assert_eq!(other.latency, 0);
}

#[test]
fn event_of_another_kind_gives_no_tick() {
    let mut latency: LatencyTable = SymbolTable::new();
    let funding: FundingIntervalTable = SymbolTable::new();
    assert!(handle_mark_price(&mark_price("trade", "BTC_USDC_PERP", 1), &mut latency, &funding, 5).is_none());
    assert_eq!(latency.get("BTC_USDC_PERP"), None);
}

#[test]
fn private_frames_are_routed_by_stream_name() {
    assert_eq!(route_stream("account.orderUpdate.BTC_USDC_PERP"), StreamRoute::OrderUpdate);
    assert_eq!(route_stream("account.orderUpdate"), StreamRoute::OrderUpdate);
    assert_eq!(route_stream("account.positionUpdate.*"), StreamRoute::PositionUpdate);
    assert_eq!(route_stream("account.order"), StreamRoute::Ignored);
    assert_eq!(route_stream("markPrice.BTC_USDC_PERP"), StreamRoute::Ignored);
}

#[test]
fn pushed_position_keeps_the_exchange_fields() {
    let p = convert_position_update(BackpackPositionUpdate {
        symbol: "BTC_USDC_PERP".to_string(),
        side: "Long".to_string(),
        size: "0.5".to_string(),
        unrealized_pnl: "-3.2".to_string(),
        entry_price: "30000".to_string(),
        leverage: "5".to_string(),
        timestamp: 99,
    });
    assert_eq!(p.exchange, "Backpack");
    assert_eq!(p.symbol, "BTC/USDC/PERP");
    assert_eq!(p.side, "Long");
    assert_eq!(p.size, "0.5");
    assert_eq!(p.avg_price, "30000");
    assert_eq!(p.unrealized_pnl, "-3.2");
    assert_eq!(p.leverage, "5");
    assert_eq!(p.updated_time, 99);
}

#[test]
fn polled_position_gets_the_canonical_symbol() {
    let p = position_from_response(
        BackpackPosition {
            symbol: "BTC_USDC_PERP".to_string(),
            side: "Short".to_string(),
            size: "1".to_string(),
            notional_value: "30000".to_string(),
            unrealized_pnl: "0".to_string(),
            entry_price: "30000".to_string(),
            leverage: "2".to_string(),
            liquidation_price: None,
        },
        1234,
    );
    assert_eq!(p.symbol, "BTC/USDT");
    assert_eq!(p.side, "Short");
    assert_eq!(p.avg_price, "30000");
    assert_eq!(p.updated_time, 1234);
}

fn collateral(margin_fraction: Option<&str>) -> BackpackCollateral {
    BackpackCollateral {
        assets_value: "1000".to_string(),
        borrow_liability: "0".to_string(),
        margin_fraction: margin_fraction.map(|s| s.to_string()),
        net_equity: "950.5".to_string(),
        net_equity_available: "900".to_string(),
        imf: "0.02".to_string(),
        mmf: "0.01".to_string(),
        collateral: Vec::new(),
    }
}

fn holdings() -> Vec<(String, BackpackBalanceData)> {
    vec![
        (
            "USDC".to_string(),
            BackpackBalanceData { available: "10".to_string(), locked: "1".to_string(), staked: "0".to_string() },
        ),
        (
            "SOL".to_string(),
            BackpackBalanceData { available: "2".to_string(), locked: "0".to_string(), staked: "3".to_string() },
        ),
    ]
}

#[test]
fn summary_row_comes_first_when_there_is_collateral() {
    let rows = account_balances(&Some(collateral(Some("0.25"))), &holdings(), 42);
    assert_eq!(rows.len(), 3);
    assert!(rows[0].summary);
    assert_eq!(rows[0].exchange, "Backpack");
    assert_eq!(rows[0].currency, "USD");
    assert_eq!(rows[0].available, "950.5");
    assert_eq!(rows[0].locked, "0");
    assert_eq!(rows[0].staked, "0");
    assert_eq!(rows[0].margin_ratio.as_deref(), Some("0.25"));
    assert_eq!(rows[1].currency, "USDC");
    assert!(!rows[1].summary);
    assert_eq!(rows[1].available, "10");
    assert_eq!(rows[1].locked, "1");
    assert_eq!(rows[1].margin_ratio.as_deref(), Some("0.25"));
    assert_eq!(rows[2].currency, "SOL");
    assert_eq!(rows[2].staked, "3");
    assert_eq!(rows[2].updated_time, 42);
}

#[test]
fn no_margin_fraction_means_no_margin_ratio() {
    let rows = account_balances(&Some(collateral(None)), &holdings(), 42);
    assert_eq!(rows.len(), 3);
    assert!(rows.iter().all(|r| r.margin_ratio.is_none()));
    let zero = account_balances(&Some(collateral(Some("0"))), &holdings(), 42);
    assert!(zero.iter().all(|r| r.margin_ratio.as_deref() == Some("0")));
}

#[test]
fn without_collateral_there_is_no_summary_row() {
    let rows = account_balances(&None, &holdings(), 42);
    assert_eq!(rows.len(), 2);
    assert_eq!(rows[0].currency, "USDC");
    assert_eq!(rows[1].currency, "SOL");
    assert_eq!(rows[1].available, "2");
    assert!(rows.iter().all(|r| !r.summary && r.margin_ratio.is_none()));
}

#[test]
fn private_channel_frames() {
    let client = BackpackTradingClient::new(BackpackCredentials {
        private_key: SECRET_B64.to_string(),
        public_key: PUBLIC_B64.to_string(),
        api_url: String::new(),
    })
    .unwrap();
    let auth = auth_message(&client, 1700000000000);
    assert_eq!(auth.method, "subscribe");
    assert_eq!(auth.params.api_key, PUBLIC_B64);
    assert_eq!(auth.params.timestamp, "1700000000000");
    assert_eq!(auth.params.window, "5000");
    assert_eq!(
        auth.params.signature,
        expected_signature("instruction=subscribe&timestamp=1700000000000&window=5000")
    );
    let sub = account_subscription();
    assert_eq!(sub.method, "subscribe");
    assert_eq!(sub.params, vec!["account.orderUpdate.*", "account.positionUpdate.*"]);
    assert_eq!(POLL_PERIOD_SECS, 10);
}

#[test]
fn market_query_headers() {
    let config = BackpackConfig { api_key: "key".to_string(), api_secret: SECRET_B64.to_string() };
    let headers = signed_query_headers(&config, "marketsQuery", "", 9).unwrap();
    let expected = vec![
        ("X-API-Key".to_string(), "key".to_string()),
        ("X-Timestamp".to_string(), "9".to_string()),
        ("X-Window".to_string(), "5000".to_string()),
        ("X-Signature".to_string(), expected_signature("instruction=marketsQuery&timestamp=9&window=5000")),
    ];
    assert_eq!(headers, expected);
    let broken = BackpackConfig { api_key: "key".to_string(), api_secret: "?".to_string() };
    assert!(signed_query_headers(&broken, "marketsQuery", "", 9).is_none());
}

#[test]
fn private_listener_stops_on_close_and_failure() {
    assert_eq!(listener_action(FrameKind::Text), ListenerAction::Handle);
    assert_eq!(listener_action(FrameKind::Close), ListenerAction::Stop);
    assert_eq!(listener_action(FrameKind::Failed), ListenerAction::Stop);
    assert_eq!(listener_action(FrameKind::Other), ListenerAction::Skip);
}

#[test]
fn connection_owns_its_latency_estimates() {
    let funding: FundingIntervalTable = SymbolTable::new();
    let mut stream = MarketDataStream::new();
    assert_eq!(stream.state(), StreamState::Disconnected);
    assert_eq!(stream.on_event(StreamEvent::Ready), StreamAction::Connect);
    assert_eq!(stream.on_event(StreamEvent::Connected), StreamAction::Subscribe);
    assert_eq!(stream.on_event(StreamEvent::Subscribed), StreamAction::Receive);
    assert_eq!(stream.state(), StreamState::Streaming);
    assert_eq!(stream.on_event(StreamEvent::Text), StreamAction::Publish);
    let event = mark_price("markPrice", "BTC_USDC_PERP", 1_000_000);
    assert_eq!(stream.on_mark_price(&event, &funding, 1_100).unwrap().latency, 100);
    assert_eq!(stream.on_mark_price(&event, &funding, 1_500).unwrap().latency, 200);
    assert_eq!(stream.on_event(StreamEvent::Ping), StreamAction::Pong);
    assert_eq!(stream.on_mark_price(&event, &funding, 1_200).unwrap().latency, 200);
    assert_eq!(stream.on_event(StreamEvent::Lost), StreamAction::Wait(5));
    assert_eq!(stream.state(), StreamState::Disconnected);
    assert_eq!(stream.on_event(StreamEvent::Ready), StreamAction::Connect);
    assert_eq!(stream.on_event(StreamEvent::Connected), StreamAction::Subscribe);
    assert_eq!(stream.on_event(StreamEvent::Subscribed), StreamAction::Receive);
    assert_eq!(stream.on_mark_price(&event, &funding, 1_900).unwrap().latency, 900);
    assert!(stream.on_mark_price(&mark_price("depth", "BTC_USDC_PERP", 1), &funding, 5).is_none());
}
