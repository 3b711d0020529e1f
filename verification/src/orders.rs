//! Orders: the exchange's vocabulary for sides, types and states, read
//! strictly on the REST path and leniently on the push path, and the records
//! that go to and come from the order endpoint.
//!
//! Amounts and prices are carried as the decimal text that the exchange
//! sends and expects.

use crate::error::ExchangeError;
use crate::symbol::{
    canonical_symbol, convert_symbol_from_backpack, convert_symbol_to_backpack, exchange_symbol,
    normalize_backpack_symbol,
};
use crate::text::{char_replaced, decimal, decimal_chars, from_chars, labelled, opt_view, str_eq};
use vstd::prelude::*;

verus! {

/// The side of an order.
#[derive(Clone, Copy, Debug, PartialEq, Eq, Structural)]
pub enum OrderSide {
    Buy,
    Sell,
}

/// The kind of an order.
#[derive(Clone, Copy, Debug, PartialEq, Eq, Structural)]
pub enum OrderType {
    Market,
    Limit,
    PostOnly,
    FillOrKill,
    ImmediateOrCancel,
}

/// The state of an order.
#[derive(Clone, Copy, Debug, PartialEq, Eq, Structural)]
pub enum OrderStatus {
    Live,
    PartiallyFilled,
    Filled,
    Canceled,
}

/// An order as the exchange wants it.
#[derive(Debug, Clone)]
pub struct BackpackOrderRequest {
    pub symbol: String,
    pub side: String,
    pub order_type: String,
    pub time_in_force: String,
    pub quantity: String,
    pub price: Option<String>,
    pub client_id: Option<u32>,
    pub post_only: Option<bool>,
    pub reduce_only: Option<bool>,
}

/// An order as the exchange reports it over REST.
#[derive(Debug, Clone)]
pub struct BackpackOrderResponse {
    pub id: String,
    pub client_id: Option<u32>,
    pub symbol: String,
    pub side: String,
    pub order_type: String,
    pub quantity: String,
    pub price: Option<String>,
    pub status: String,
    pub executed_quantity: String,
    pub executed_quote_quantity: String,
    pub time_in_force: String,
    pub created_at: u64,
    pub reduce_only: Option<bool>,
}

/// An order update as the exchange pushes it.
#[derive(Debug, Clone)]
pub struct BackpackOrderUpdate {
    pub order_id: String,
    pub client_id: Option<String>,
    pub symbol: String,
    pub side: String,
    pub order_type: String,
    pub quantity: String,
    pub price: Option<String>,
    pub status: String,
    pub executed_quantity: String,
    pub executed_price: Option<String>,
    pub timestamp: u64,
}

/// The request to cancel an order.
#[derive(Debug, Clone)]
pub struct CancelOrderRequest {
    pub order_id: String,
    pub symbol: String,
}

/// An order in the engine's terms.
#[derive(Debug, Clone)]
pub struct OrderInfo {
    pub order_id: String,
    pub client_order_id: Option<String>,
    pub exchange: String,
    pub symbol: String,
    pub side: OrderSide,
    pub order_type: OrderType,
    pub size: String,
    pub price: Option<String>,
    pub filled_size: String,
    /// The quote amount executed so far, where the exchange reports it; the
    /// average price is this amount over `filled_size`.
    pub executed_quote: Option<String>,
    /// The average price, where the exchange reports it directly.
    pub avg_price: Option<String>,
    pub status: OrderStatus,
    pub created_time: u64,
    pub updated_time: u64,
}

/// The outcome of a trading command.
#[derive(Debug, Clone)]
pub struct TradingResult {
    pub command_id: String,
    pub success: bool,
    pub order_id: Option<String>,
    pub error_message: Option<String>,
    pub timestamp: u64,
}

/// The exchange's word for a side.
pub open spec fn side_name(side: OrderSide) -> Seq<char> {
    match side {
        OrderSide::Buy => "Bid"@,
        OrderSide::Sell => "Ask"@,
    }
}

/// The side that the exchange's word stands for.
pub open spec fn side_of(name: Seq<char>) -> Option<OrderSide> {
    if name == "Bid"@ {
        Some(OrderSide::Buy)
    } else if name == "Ask"@ {
        Some(OrderSide::Sell)
    } else {
        None
    }
}

/// The exchange's order type, time in force and post-only mark for a kind
/// of order.
pub open spec fn exchange_kind(order_type: OrderType) -> (Seq<char>, Seq<char>, Option<bool>) {
    match order_type {
        OrderType::Market => ("Market"@, "IOC"@, None),
        OrderType::Limit => ("Limit"@, "GTC"@, None),
        OrderType::PostOnly => ("Limit"@, "GTC"@, Some(true)),
        OrderType::FillOrKill => ("Limit"@, "FOK"@, None),
        OrderType::ImmediateOrCancel => ("Limit"@, "IOC"@, None),
    }
}

/// The kind of order behind the exchange's order type and time in force, on
/// the strict path.
pub open spec fn strict_type(order_type: Seq<char>, time_in_force: Seq<char>) -> Option<OrderType> {
    if order_type == "Market"@ {
        Some(OrderType::Market)
    } else if order_type == "Limit"@ {
        if time_in_force == "GTC"@ {
            Some(OrderType::Limit)
        } else if time_in_force == "FOK"@ {
            Some(OrderType::FillOrKill)
        } else {
            Some(OrderType::ImmediateOrCancel)
        }
    } else {
        None
    }
}

/// The state behind the exchange's word, on the strict path.
pub open spec fn strict_status(name: Seq<char>) -> Option<OrderStatus> {
    if name == "New"@ {
        Some(OrderStatus::Live)
    } else if name == "PartiallyFilled"@ {
        Some(OrderStatus::PartiallyFilled)
    } else if name == "Filled"@ {
        Some(OrderStatus::Filled)
    } else if name == "Cancelled"@ {
        Some(OrderStatus::Canceled)
    } else if name == "Pending"@ {
        Some(OrderStatus::Live)
    } else {
        None
    }
}

/// The kind of order behind the exchange's order type, on the lenient path:
/// what is not a market order counts as a limit order.
pub open spec fn lenient_type(order_type: Seq<char>) -> OrderType {
    if order_type == "Market"@ {
        OrderType::Market
    } else {
        OrderType::Limit
    }
}

/// The state behind the exchange's word, on the lenient path: an unknown
/// word counts as live.
pub open spec fn lenient_status(name: Seq<char>) -> OrderStatus {
    if name == "PartiallyFilled"@ {
        OrderStatus::PartiallyFilled
    } else if name == "Filled"@ {
        OrderStatus::Filled
    } else if name == "Cancelled"@ {
        OrderStatus::Canceled
    } else {
        OrderStatus::Live
    }
}

/// The client id for an order placed at `timestamp`: its low 32 bits.
pub open spec fn client_id_at(timestamp: u64) -> u32 {
    (timestamp % 0x1_0000_0000) as u32
}

/// The exchange's word for a side.
pub fn side_text(side: OrderSide) -> (out: String)
    ensures
        out@ == side_name(side),
{
    match side {
        OrderSide::Buy => String::from_str("Bid"),
        OrderSide::Sell => String::from_str("Ask"),
    }
}

/// The side that the exchange's word stands for; `InvalidData` for any word
/// but `Bid` and `Ask` ("Invalid order side: " and the word).
pub fn parse_side(name: &str) -> (r: Result<OrderSide, ExchangeError>)
    ensures
        match side_of(name@) {
            Some(side) => r matches Ok(s) && s == side,
            None => r matches Err(ExchangeError::InvalidData(m)) && m@ == "Invalid order side: "@
                + name@,
        },
{
    if str_eq(name, "Bid") {
        Ok(OrderSide::Buy)
    } else if str_eq(name, "Ask") {
        Ok(OrderSide::Sell)
    } else {
        Err(ExchangeError::InvalidData(labelled("Invalid order side: ", name)))
    }
}

/// The kind of order on the strict path; `InvalidData` for an order type
/// other than `Market` and `Limit` ("Invalid order type: " and the word).
pub fn parse_order_type(order_type: &str, time_in_force: &str) -> (r: Result<
    OrderType,
    ExchangeError,
>)
    ensures
        match strict_type(order_type@, time_in_force@) {
            Some(kind) => r matches Ok(k) && k == kind,
            None => r matches Err(ExchangeError::InvalidData(m)) && m@ == "Invalid order type: "@
                + order_type@,
        },
{
    if str_eq(order_type, "Market") {
        Ok(OrderType::Market)
    } else if str_eq(order_type, "Limit") {
        if str_eq(time_in_force, "GTC") {
            Ok(OrderType::Limit)
        } else if str_eq(time_in_force, "FOK") {
            Ok(OrderType::FillOrKill)
        } else {
            Ok(OrderType::ImmediateOrCancel)
        }
    } else {
        Err(ExchangeError::InvalidData(labelled("Invalid order type: ", order_type)))
    }
}

/// The state on the strict path: one of the five words that the exchange
/// uses, and `InvalidData` for any other ("Invalid order status: " and the
/// word).
pub fn parse_status(name: &str) -> (r: Result<OrderStatus, ExchangeError>)
    ensures
        match strict_status(name@) {
            Some(status) => r matches Ok(s) && s == status,
            None => r matches Err(ExchangeError::InvalidData(m)) && m@
                == "Invalid order status: "@ + name@,
        },
        r is Ok <==> (name@ == "New"@ || name@ == "PartiallyFilled"@ || name@ == "Filled"@
            || name@ == "Cancelled"@ || name@ == "Pending"@),
{
    if str_eq(name, "New") {
        Ok(OrderStatus::Live)
    } else if str_eq(name, "PartiallyFilled") {
        Ok(OrderStatus::PartiallyFilled)
    } else if str_eq(name, "Filled") {
        Ok(OrderStatus::Filled)
    } else if str_eq(name, "Cancelled") {
        Ok(OrderStatus::Canceled)
    } else if str_eq(name, "Pending") {
        Ok(OrderStatus::Live)
    } else {
        Err(ExchangeError::InvalidData(labelled("Invalid order status: ", name)))
    }
}

/// The kind of order on the lenient path.
pub fn lenient_order_type(order_type: &str) -> (kind: OrderType)
    ensures
        kind == lenient_type(order_type@),
{
    if str_eq(order_type, "Market") {
        OrderType::Market
    } else {
        OrderType::Limit
    }
}

/// The state on the lenient path.
pub fn lenient_order_status(name: &str) -> (status: OrderStatus)
    ensures
        status == lenient_status(name@),
{
    if str_eq(name, "PartiallyFilled") {
        OrderStatus::PartiallyFilled
    } else if str_eq(name, "Filled") {
        OrderStatus::Filled
    } else if str_eq(name, "Cancelled") {
        OrderStatus::Canceled
    } else {
        OrderStatus::Live
    }
}

/// The client id for an order placed at `timestamp`. Orders placed in the
/// same millisecond, or a multiple of 2^32 milliseconds apart, get the same
/// id.
pub fn client_id_of(timestamp: u64) -> (id: u32)
    ensures
        id == client_id_at(timestamp),
{
    (timestamp % 0x1_0000_0000) as u32
}

/// The order that places `quantity` of the canonical `symbol` at `timestamp`.
pub fn order_request(
    symbol: &str,
    side: OrderSide,
    order_type: OrderType,
    quantity: &str,
    price: Option<&str>,
    timestamp: u64,
) -> (request: BackpackOrderRequest)
    ensures
        request.symbol@ == exchange_symbol(symbol@),
        request.side@ == side_name(side),
        request.order_type@ == exchange_kind(order_type).0,
        request.time_in_force@ == exchange_kind(order_type).1,
        request.post_only == exchange_kind(order_type).2,
        request.quantity@ == quantity@,
        match (request.price, price) {
            (Some(sent), Some(given)) => sent@ == given@,
            (None, None) => true,
            _ => false,
        },
        request.client_id == Some(client_id_at(timestamp)),
        request.reduce_only is None,
{
    let (kind, time_in_force, post_only) = match order_type {
        OrderType::Market => ("Market", "IOC", None),
        OrderType::Limit => ("Limit", "GTC", None),
        OrderType::PostOnly => ("Limit", "GTC", Some(true)),
        OrderType::FillOrKill => ("Limit", "FOK", None),
        OrderType::ImmediateOrCancel => ("Limit", "IOC", None),
    };
    BackpackOrderRequest {
        symbol: convert_symbol_to_backpack(symbol),
        side: side_text(side),
        order_type: String::from_str(kind),
        time_in_force: String::from_str(time_in_force),
        quantity: String::from_str(quantity),
        price: match price {
            Some(p) => Some(String::from_str(p)),
            None => None,
        },
        client_id: Some(client_id_of(timestamp)),
        post_only,
        reduce_only: None,
    }
}

/// The outcome of placing an order, from the exchange's answer: the id of the
/// first order in it, and `Trading` where it holds none ("Empty response
/// array").
pub fn placed_result(command_id: &str, answer: &Vec<BackpackOrderResponse>, timestamp: u64) -> (r:
    Result<TradingResult, ExchangeError>)
    ensures
        match r {
            Ok(result) => {
                &&& answer@.len() > 0
                &&& result.command_id@ == command_id@
                &&& result.success
                &&& opt_view(result.order_id) == Some(answer@[0].id@)
                &&& result.error_message is None
                &&& result.timestamp == timestamp
            },
            Err(ExchangeError::Trading(m)) => answer@.len() == 0 && m@ == "Empty response array"@,
            Err(_) => false,
        },
{
    if answer.len() == 0 {
        return Err(ExchangeError::Trading(String::from_str("Empty response array")));
    }
    Ok(
        TradingResult {
            command_id: String::from_str(command_id),
            success: true,
            order_id: Some(answer[0].id.clone()),
            error_message: None,
            timestamp,
        },
    )
}

/// The endpoint that asks for one order of the canonical `symbol`.
pub fn order_query_endpoint(order_id: &str, symbol: &str) -> (endpoint: String)
    ensures
        endpoint@ == "/orders?orderId="@ + order_id@ + "&symbol="@ + exchange_symbol(symbol@),
{
    let mut endpoint = String::from_str("/orders?orderId=");
    endpoint.append(order_id);
    endpoint.append("&symbol=");
    endpoint.append(convert_symbol_to_backpack(symbol).as_str());
    endpoint
}

/// The order that the exchange reported over REST, in the engine's terms.
///
/// Side, type and state are read strictly: the first of them that is
/// unknown fails the whole with `InvalidData`.
pub fn order_from_response(response: BackpackOrderResponse) -> (r: Result<OrderInfo, ExchangeError>)
    ensures
        match (
            side_of(response.side@),
            strict_type(response.order_type@, response.time_in_force@),
            strict_status(response.status@),
        ) {
            (None, _, _) => r matches Err(ExchangeError::InvalidData(m)) && m@
                == "Invalid order side: "@ + response.side@,
            (Some(_), None, _) => r matches Err(ExchangeError::InvalidData(m)) && m@
                == "Invalid order type: "@ + response.order_type@,
            (Some(_), Some(_), None) => r matches Err(ExchangeError::InvalidData(m)) && m@
                == "Invalid order status: "@ + response.status@,
            (Some(side), Some(kind), Some(status)) => r matches Ok(info) && {
                &&& info.order_id@ == response.id@
                &&& opt_view(info.client_order_id) == match response.client_id {
                    Some(id) => Some(decimal(id as nat)),
                    None => None,
                }
                &&& info.exchange@ == "Backpack"@
                &&& info.symbol@ == canonical_symbol(response.symbol@)
                &&& info.side == side
                &&& info.order_type == kind
                &&& info.size@ == response.quantity@
                &&& opt_view(info.price) == opt_view(response.price)
                &&& info.filled_size@ == response.executed_quantity@
                &&& opt_view(info.executed_quote) == Some(response.executed_quote_quantity@)
                &&& info.avg_price is None
                &&& info.status == status
                &&& info.created_time == response.created_at
                &&& info.updated_time == response.created_at
            },
        },
{
    let side = match parse_side(response.side.as_str()) {
        Ok(s) => s,
        Err(e) => {
            return Err(e);
        },
    };
    let kind = match parse_order_type(
        response.order_type.as_str(),
        response.time_in_force.as_str(),
    ) {
        Ok(k) => k,
        Err(e) => {
            return Err(e);
        },
    };
    let status = match parse_status(response.status.as_str()) {
        Ok(s) => s,
        Err(e) => {
            return Err(e);
        },
    };
    let client_order_id = match response.client_id {
        Some(id) => Some(from_chars(&decimal_chars(id as u64))),
        None => None,
    };
    let symbol = convert_symbol_from_backpack(response.symbol.as_str());
    Ok(
        OrderInfo {
            order_id: response.id,
            client_order_id,
            exchange: String::from_str("Backpack"),
            symbol,
            side,
            order_type: kind,
            size: response.quantity,
            price: response.price,
            filled_size: response.executed_quantity,
            executed_quote: Some(response.executed_quote_quantity),
            avg_price: None,
            status,
            created_time: response.created_at,
            updated_time: response.created_at,
        },
    )
}

/// The order that the exchange pushed, in the engine's terms.
///
/// Only the side is read strictly; an unknown type counts as a limit order
/// and an unknown state as live.
pub fn convert_order_update_to_info(update: BackpackOrderUpdate) -> (r: Result<
    OrderInfo,
    ExchangeError,
>)
    ensures
        match side_of(update.side@) {
            None => r matches Err(ExchangeError::InvalidData(m)) && m@ == "Invalid order side: "@
                + update.side@,
            Some(side) => r matches Ok(info) && {
                &&& info.order_id@ == update.order_id@
                &&& opt_view(info.client_order_id) == opt_view(update.client_id)
                &&& info.exchange@ == "Backpack"@
                &&& info.symbol@ == char_replaced(update.symbol@, '_', '/')
                &&& info.side == side
                &&& info.order_type == lenient_type(update.order_type@)
                &&& info.size@ == update.quantity@
                &&& opt_view(info.price) == opt_view(update.price)
                &&& info.filled_size@ == update.executed_quantity@
                &&& info.executed_quote is None
                &&& opt_view(info.avg_price) == opt_view(update.executed_price)
                &&& info.status == lenient_status(update.status@)
                &&& info.created_time == update.timestamp
                &&& info.updated_time == update.timestamp
            },
        },
{
    let side = match parse_side(update.side.as_str()) {
        Ok(s) => s,
        Err(e) => {
            return Err(e);
        },
    };
    let order_type = lenient_order_type(update.order_type.as_str());
    let status = lenient_order_status(update.status.as_str());
    let symbol = normalize_backpack_symbol(update.symbol.as_str());
    Ok(
        OrderInfo {
            order_id: update.order_id,
            client_order_id: update.client_id,
            exchange: String::from_str("Backpack"),
            symbol,
            side,
            order_type,
            size: update.quantity,
            price: update.price,
            filled_size: update.executed_quantity,
            executed_quote: None,
            avg_price: update.executed_price,
            status,
            created_time: update.timestamp,
            updated_time: update.timestamp,
        },
    )
}

/// The request that cancels an order of the canonical `symbol`.
pub fn cancel_request(order_id: &str, symbol: &str) -> (request: CancelOrderRequest)
    ensures
        request.order_id@ == order_id@,
        request.symbol@ == exchange_symbol(symbol@),
{
    CancelOrderRequest {
        order_id: String::from_str(order_id),
        symbol: convert_symbol_to_backpack(symbol),
    }
}

/// The outcome of a cancellation that the exchange accepted.
pub fn cancel_result(order_id: &str, timestamp: u64) -> (result: TradingResult)
    ensures
        result.command_id@ == "cancel_"@ + order_id@,
        result.success,
        opt_view(result.order_id) == Some(order_id@),
        result.error_message is None,
        result.timestamp == timestamp,
{
    TradingResult {
        command_id: labelled("cancel_", order_id),
        success: true,
        order_id: Some(String::from_str(order_id)),
        error_message: None,
        timestamp,
    }
}

/// The outcome that is published for a command that failed: no order, and
/// the failure as text after "Trading error: ".
pub fn failure_result(command_id: &str, error: &ExchangeError, timestamp: u64) -> (result:
    TradingResult)
    ensures
        result.command_id@ == command_id@,
        !result.success,
        result.order_id is None,
        opt_view(result.error_message) == Some("Trading error: "@ + error.spec_describe()),
        result.timestamp == timestamp,
{
    TradingResult {
        command_id: String::from_str(command_id),
        success: false,
        order_id: None,
        error_message: Some(labelled("Trading error: ", error.describe().as_str())),
        timestamp,
    }
}

/// The outcome that is published for a command: the one that placing the
/// order gave, or the failure in its place. There always is one.
pub fn command_result(
    command_id: &str,
    outcome: Result<TradingResult, ExchangeError>,
    timestamp: u64,
) -> (result: TradingResult)
    ensures
        match outcome {
            Ok(placed) => result == placed,
            Err(error) => {
                &&& result.command_id@ == command_id@
                &&& !result.success
                &&& result.order_id is None
                &&& opt_view(result.error_message) == Some(
                    "Trading error: "@ + error.spec_describe(),
                )
                &&& result.timestamp == timestamp
            },
        },
{
    match outcome {
        Ok(placed) => placed,
        Err(error) => failure_result(command_id, &error, timestamp),
    }
}

/// Whether a command is addressed to this exchange.
pub fn is_for_backpack(exchange: &str) -> (r: bool)
    ensures
        r == (exchange@ == "Backpack"@),
{
    str_eq(exchange, "Backpack")
}

} // verus!
