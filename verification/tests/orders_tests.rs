use backpack_connector::error::ExchangeError;
use backpack_connector::orders::{
    cancel_request, cancel_result, client_id_of, command_result, convert_order_update_to_info,
    failure_result, is_for_backpack, lenient_order_status, lenient_order_type, order_from_response,
    order_query_endpoint, order_request, parse_order_type, parse_side, parse_status, placed_result,
    side_text, BackpackOrderResponse, BackpackOrderUpdate, OrderSide, OrderStatus, OrderType,
    TradingResult,
};

fn response(side: &str, order_type: &str, time_in_force: &str, status: &str) -> BackpackOrderResponse {
    BackpackOrderResponse {
        id: "111".to_string(),
        client_id: Some(42),
        symbol: "BTC_USDC_PERP".to_string(),
        side: side.to_string(),
        order_type: order_type.to_string(),
        quantity: "0.5".to_string(),
        price: Some("30000".to_string()),
        status: status.to_string(),
        executed_quantity: "0.25".to_string(),
        executed_quote_quantity: "7500".to_string(),
        time_in_force: time_in_force.to_string(),
        created_at: 1700000000000,
        reduce_only: None,
    }
}

fn update(side: &str, order_type: &str, status: &str) -> BackpackOrderUpdate {
    BackpackOrderUpdate {
        order_id: "9".to_string(),
        client_id: Some("c-1".to_string()),
        symbol: "ETH_USDC_PERP".to_string(),
        side: side.to_string(),
        order_type: order_type.to_string(),
        quantity: "2".to_string(),
        price: None,
        status: status.to_string(),
        executed_quantity: "1".to_string(),
        executed_price: Some("1800.5".to_string()),
        timestamp: 77,
    }
}

fn invalid_data<T: std::fmt::Debug>(r: Result<T, ExchangeError>) -> String {
    match r {
        Err(ExchangeError::InvalidData(m)) => m,
        other => panic!("expected invalid data, got {:?}", other),
    }
}

#[test]
fn strict_status_knows_five_words() {
    assert_eq!(parse_status("New").unwrap(), OrderStatus::Live);
    assert_eq!(parse_status("PartiallyFilled").unwrap(), OrderStatus::PartiallyFilled);
    assert_eq!(parse_status("Filled").unwrap(), OrderStatus::Filled);
    assert_eq!(parse_status("Cancelled").unwrap(), OrderStatus::Canceled);
    assert_eq!(parse_status("Pending").unwrap(), OrderStatus::Live);
}

#[test]
fn strict_status_rejects_any_other_word() {
    assert_eq!(invalid_data(parse_status("Expired")), "Invalid order status: Expired");
    assert_eq!(invalid_data(parse_status("new")), "Invalid order status: new");
    assert_eq!(invalid_data(parse_status("")), "Invalid order status: ");
    assert_eq!(invalid_data(parse_status("Canceled")), "Invalid order status: Canceled");
}

#[test]
fn lenient_status_defaults_to_live() {
    assert_eq!(lenient_order_status("New"), OrderStatus::Live);
    assert_eq!(lenient_order_status("PartiallyFilled"), OrderStatus::PartiallyFilled);
    assert_eq!(lenient_order_status("Filled"), OrderStatus::Filled);
    assert_eq!(lenient_order_status("Cancelled"), OrderStatus::Canceled);
    assert_eq!(lenient_order_status("Expired"), OrderStatus::Live);
}

#[test]
fn sides() {
    assert_eq!(parse_side("Bid").unwrap(), OrderSide::Buy);
    assert_eq!(parse_side("Ask").unwrap(), OrderSide::Sell);
    assert_eq!(invalid_data(parse_side("Buy")), "Invalid order side: Buy");
    assert_eq!(side_text(OrderSide::Buy), "Bid");
    assert_eq!(side_text(OrderSide::Sell), "Ask");
}

#[test]
fn strict_order_types() {
    assert_eq!(parse_order_type("Market", "IOC").unwrap(), OrderType::Market);
    assert_eq!(parse_order_type("Limit", "GTC").unwrap(), OrderType::Limit);
    assert_eq!(parse_order_type("Limit", "FOK").unwrap(), OrderType::FillOrKill);
    assert_eq!(parse_order_type("Limit", "IOC").unwrap(), OrderType::ImmediateOrCancel);
    assert_eq!(parse_order_type("Limit", "???").unwrap(), OrderType::ImmediateOrCancel);
    assert_eq!(invalid_data(parse_order_type("Stop", "GTC")), "Invalid order type: Stop");
}

#[test]
fn lenient_order_types() {
    assert_eq!(lenient_order_type("Market"), OrderType::Market);
    assert_eq!(lenient_order_type("Limit"), OrderType::Limit);
    assert_eq!(lenient_order_type("Stop"), OrderType::Limit);
}

#[test]
fn client_id_is_the_low_half_of_the_timestamp() {
    assert_eq!(client_id_of(0), 0);
    assert_eq!(client_id_of(4294967295), 4294967295);
    assert_eq!(client_id_of(4294967296), 0);
    assert_eq!(client_id_of(1700000000000), 3487918080);
}

#[test]
fn order_request_maps_each_kind() {
    let cases = [
        (OrderType::Market, "Market", "IOC", None),
        (OrderType::Limit, "Limit", "GTC", None),
        (OrderType::PostOnly, "Limit", "GTC", Some(true)),
        (OrderType::FillOrKill, "Limit", "FOK", None),
        (OrderType::ImmediateOrCancel, "Limit", "IOC", None),
    ];
    for (kind, name, tif, post_only) in cases {
        let r = order_request("BTC/USDT", OrderSide::Buy, kind, "0.001", Some("30000"), 4294967297);
        assert_eq!(r.symbol, "BTC_USDC_PERP");
        assert_eq!(r.side, "Bid");
        assert_eq!(r.order_type, name);
        assert_eq!(r.time_in_force, tif);
        assert_eq!(r.post_only, post_only);
        assert_eq!(r.quantity, "0.001");
        assert_eq!(r.price.as_deref(), Some("30000"));
        assert_eq!(r.client_id, Some(1));
        assert_eq!(r.reduce_only, None);
    }
    let sell = order_request("ETH/USDT", OrderSide::Sell, OrderType::Market, "2", None, 5);
    assert_eq!(sell.side, "Ask");
    assert!(sell.price.is_none());
}

#[test]
fn placed_result_takes_the_first_order() {
    let answer = vec![response("Bid", "Limit", "GTC", "New")];
    let r = placed_result("cmd-1", &answer, 123).unwrap();
    assert_eq!(r.command_id, "cmd-1");
    assert!(r.success);
    assert_eq!(r.order_id.as_deref(), Some("111"));
    assert!(r.error_message.is_none());
    assert_eq!(r.timestamp, 123);
}

#[test]
fn placed_result_fails_on_an_empty_answer() {
    match placed_result("cmd-1", &Vec::new(), 123) {
        Err(ExchangeError::Trading(m)) => assert_eq!(m, "Empty response array"),
        other => panic!("expected a trading failure, got {:?}", other),
    }
}

#[test]
fn order_query_names_order_and_exchange_symbol() {
    assert_eq!(order_query_endpoint("77", "BTC/USDT"), "/orders?orderId=77&symbol=BTC_USDC_PERP");
}

#[test]
fn rest_order_is_read_strictly() {
    let info = order_from_response(response("Ask", "Limit", "FOK", "PartiallyFilled")).unwrap();
    assert_eq!(info.order_id, "111");
    assert_eq!(info.client_order_id.as_deref(), Some("42"));
    assert_eq!(info.exchange, "Backpack");
    assert_eq!(info.symbol, "BTC/USDT");
    assert_eq!(info.side, OrderSide::Sell);
    assert_eq!(info.order_type, OrderType::FillOrKill);
    assert_eq!(info.size, "0.5");
    assert_eq!(info.price.as_deref(), Some("30000"));
    assert_eq!(info.filled_size, "0.25");
    assert_eq!(info.executed_quote.as_deref(), Some("7500"));
    assert!(info.avg_price.is_none());
    assert_eq!(info.status, OrderStatus::PartiallyFilled);
    assert_eq!(info.created_time, 1700000000000);
    assert_eq!(info.updated_time, 1700000000000);
}

#[test]
fn rest_order_reports_the_first_unknown_word() {
    assert_eq!(invalid_data(order_from_response(response("X", "Y", "GTC", "Z"))), "Invalid order side: X");
    assert_eq!(invalid_data(order_from_response(response("Bid", "Y", "GTC", "Z"))), "Invalid order type: Y");
    assert_eq!(
        invalid_data(order_from_response(response("Bid", "Market", "GTC", "Z"))),
        "Invalid order status: Z"
    );
}

#[test]
fn pushed_order_is_read_leniently() {
    let info = convert_order_update_to_info(update("Bid", "Stop", "Expired")).unwrap();
    assert_eq!(info.order_id, "9");
    assert_eq!(info.client_order_id.as_deref(), Some("c-1"));
    assert_eq!(info.exchange, "Backpack");
    assert_eq!(info.symbol, "ETH/USDC/PERP");
    assert_eq!(info.side, OrderSide::Buy);
    assert_eq!(info.order_type, OrderType::Limit);
    assert_eq!(info.status, OrderStatus::Live);
    assert_eq!(info.size, "2");
    assert!(info.price.is_none());
    assert_eq!(info.filled_size, "1");
    assert_eq!(info.avg_price.as_deref(), Some("1800.5"));
    assert!(info.executed_quote.is_none());
    assert_eq!(info.created_time, 77);
    assert_eq!(info.updated_time, 77);
}

#[test]
fn pushed_order_still_needs_a_known_side() {
    assert_eq!(
        invalid_data(convert_order_update_to_info(update("Long", "Market", "New"))),
        "Invalid order side: Long"
    );
}

#[test]
fn cancellation() {
    let request = cancel_request("77", "BTC/USDT");
    assert_eq!(request.order_id, "77");
    assert_eq!(request.symbol, "BTC_USDC_PERP");
    let result = cancel_result("77", 9);
    assert_eq!(result.command_id, "cancel_77");
    assert!(result.success);
    assert_eq!(result.order_id.as_deref(), Some("77"));
    assert!(result.error_message.is_none());
    assert_eq!(result.timestamp, 9);
}

#[test]
fn failed_command_still_has_a_result() {
    let error = ExchangeError::RestApi("HTTP error 500: boom".to_string());
    let result = failure_result("cmd-2", &error, 10);
    assert_eq!(result.command_id, "cmd-2");
    assert!(!result.success);
    assert!(result.order_id.is_none());
    assert_eq!(
        result.error_message.as_deref(),
        Some("Trading error: RestApi(\"HTTP error 500: boom\")")
    );
    assert_eq!(result.timestamp, 10);
}

#[test]
fn command_result_passes_success_through() {
    let placed = TradingResult {
        command_id: "cmd-3".to_string(),
        success: true,
        order_id: Some("5".to_string()),
        error_message: None,
        timestamp: 1,
    };
    let result = command_result("cmd-3", Ok(placed), 2);
    assert!(result.success);
    assert_eq!(result.order_id.as_deref(), Some("5"));
    assert_eq!(result.timestamp, 1);
    let failed = command_result("cmd-3", Err(ExchangeError::Trading("Empty response array".to_string())), 2);
    assert!(!failed.success);
    assert_eq!(failed.command_id, "cmd-3");
    assert_eq!(failed.timestamp, 2);
    assert_eq!(
        failed.error_message.as_deref(),
        Some("Trading error: Trading(\"Empty response array\")")
    );
}

#[test]
fn only_commands_for_this_exchange_are_taken() {
    assert!(is_for_backpack("Backpack"));
    assert!(!is_for_backpack("backpack"));
    assert!(!is_for_backpack("Binance"));
}
