//! Account state: positions and balances in the engine's terms, and the
//! frames of the private push channel.
//!
//! Amounts are carried as the decimal text that the exchange sends.

use crate::client::BackpackTradingClient;
use crate::params::Pair;
use crate::signing::{signature_text, signing_message, SIGNING_WINDOW_MS};
use crate::symbol::{canonical_symbol, convert_symbol_from_backpack, normalize_backpack_symbol};
use crate::text::{
    char_replaced, copy_opt, decimal, decimal_chars, from_chars, has_prefix, opt_view,
    starts_with, to_chars,
};
use vstd::prelude::*;

verus! {

/// The seconds between two polls of positions and balances.
pub const POLL_PERIOD_SECS: u64 = 10;

/// A position as the exchange reports it over REST.
#[derive(Debug, Clone)]
pub struct BackpackPosition {
    pub symbol: String,
    pub side: String,
    pub size: String,
    pub notional_value: String,
    pub unrealized_pnl: String,
    pub entry_price: String,
    pub leverage: String,
    pub liquidation_price: Option<String>,
}

/// A position as the exchange pushes it.
#[derive(Debug, Clone)]
pub struct BackpackPositionUpdate {
    pub symbol: String,
    pub side: String,
    pub size: String,
    pub unrealized_pnl: String,
    pub entry_price: String,
    pub leverage: String,
    pub timestamp: u64,
}

/// What the exchange holds of one currency.
#[derive(Debug, Clone)]
pub struct BackpackBalanceData {
    pub available: String,
    pub locked: String,
    pub staked: String,
}

/// One asset of the collateral.
#[derive(Debug, Clone)]
pub struct BackpackCollateralAsset {
    pub symbol: String,
    pub asset_mark_price: String,
    pub total_quantity: String,
    pub balance_notional: String,
    pub collateral_weight: String,
    pub collateral_value: String,
    pub available_quantity: String,
}

/// The collateral of the account.
#[derive(Debug, Clone)]
pub struct BackpackCollateral {
    pub assets_value: String,
    pub borrow_liability: String,
    /// The margin fraction; `None` for an account without margin trading.
    pub margin_fraction: Option<String>,
    pub net_equity: String,
    pub net_equity_available: String,
    pub imf: String,
    pub mmf: String,
    pub collateral: Vec<BackpackCollateralAsset>,
}

/// A position in the engine's terms.
#[derive(Debug, Clone)]
pub struct Position {
    pub exchange: String,
    pub symbol: String,
    pub side: String,
    pub size: String,
    pub avg_price: String,
    pub unrealized_pnl: String,
    pub leverage: String,
    pub updated_time: u64,
}

/// One row of the account's balance.
#[derive(Debug, Clone)]
pub struct AccountBalance {
    pub exchange: String,
    pub currency: String,
    /// Whether this is the summary row of the whole account.
    pub summary: bool,
    pub available: String,
    pub locked: String,
    pub staked: String,
    /// The margin ratio; `None` without margin trading, which is not a ratio
    /// of zero.
    pub margin_ratio: Option<String>,
    pub updated_time: u64,
}

/// The frame that subscribes to channels.
#[derive(Debug, Clone)]
pub struct WebSocketSubscription {
    pub method: String,
    pub params: Vec<String>,
}

/// The parameters of the frame that authenticates the private channel.
#[derive(Debug, Clone)]
pub struct WebSocketAuthParams {
    pub api_key: String,
    pub signature: String,
    pub timestamp: String,
    pub window: String,
}

/// The frame that authenticates the private channel.
#[derive(Debug, Clone)]
pub struct WebSocketAuth {
    pub method: String,
    pub params: WebSocketAuthParams,
}

/// Where a frame of the private channel goes.
#[derive(Clone, Copy, Debug, PartialEq, Eq, Structural)]
pub enum StreamRoute {
    OrderUpdate,
    PositionUpdate,
    Ignored,
}

/// A frame of the private channel, or the failure to read one.
#[derive(Clone, Copy, Debug, PartialEq, Eq, Structural)]
pub enum FrameKind {
    Text,
    Close,
    Failed,
    Other,
}

/// What the listener of the private channel does with a frame.
#[derive(Clone, Copy, Debug, PartialEq, Eq, Structural)]
pub enum ListenerAction {
    /// Route the text and go on listening.
    Handle,
    /// Go on listening.
    Skip,
    /// Stop listening.
    Stop,
}

/// What the listener does with a frame: text is handled, a close frame or a
/// failure ends the listening, anything else is passed over.
pub fn listener_action(frame: FrameKind) -> (action: ListenerAction)
    ensures
        action == match frame {
            FrameKind::Text => ListenerAction::Handle,
            FrameKind::Close => ListenerAction::Stop,
            FrameKind::Failed => ListenerAction::Stop,
            FrameKind::Other => ListenerAction::Skip,
        },
{
    match frame {
        FrameKind::Text => ListenerAction::Handle,
        FrameKind::Close => ListenerAction::Stop,
        FrameKind::Failed => ListenerAction::Stop,
        FrameKind::Other => ListenerAction::Skip,
    }
}

/// The route of a frame by the name of its stream.
pub open spec fn route_of(stream: Seq<char>) -> StreamRoute {
    if has_prefix(stream, "account.orderUpdate"@) {
        StreamRoute::OrderUpdate
    } else if has_prefix(stream, "account.positionUpdate"@) {
        StreamRoute::PositionUpdate
    } else {
        StreamRoute::Ignored
    }
}

/// The route of a frame by the name of its stream.
pub fn route_stream(stream: &str) -> (route: StreamRoute)
    ensures
        route == route_of(stream@),
{
    let name = to_chars(stream);
    if starts_with(&name, &to_chars("account.orderUpdate")) {
        StreamRoute::OrderUpdate
    } else if starts_with(&name, &to_chars("account.positionUpdate")) {
        StreamRoute::PositionUpdate
    } else {
        StreamRoute::Ignored
    }
}

/// The position that the exchange pushed, in the engine's terms.
pub fn convert_position_update(update: BackpackPositionUpdate) -> (position: Position)
    ensures
        position.exchange@ == "Backpack"@,
        position.symbol@ == char_replaced(update.symbol@, '_', '/'),
        position.side@ == update.side@,
        position.size@ == update.size@,
        position.avg_price@ == update.entry_price@,
        position.unrealized_pnl@ == update.unrealized_pnl@,
        position.leverage@ == update.leverage@,
        position.updated_time == update.timestamp,
{
    let symbol = normalize_backpack_symbol(update.symbol.as_str());
    Position {
        exchange: String::from_str("Backpack"),
        symbol,
        side: update.side,
        size: update.size,
        avg_price: update.entry_price,
        unrealized_pnl: update.unrealized_pnl,
        leverage: update.leverage,
        updated_time: update.timestamp,
    }
}

/// The position that the exchange reported over REST at `now`, in the
/// engine's terms.
pub fn position_from_response(response: BackpackPosition, now: u64) -> (position: Position)
    ensures
        position.exchange@ == "Backpack"@,
        position.symbol@ == canonical_symbol(response.symbol@),
        position.side@ == response.side@,
        position.size@ == response.size@,
        position.avg_price@ == response.entry_price@,
        position.unrealized_pnl@ == response.unrealized_pnl@,
        position.leverage@ == response.leverage@,
        position.updated_time == now,
{
    let symbol = convert_symbol_from_backpack(response.symbol.as_str());
    Position {
        exchange: String::from_str("Backpack"),
        symbol,
        side: response.side,
        size: response.size,
        avg_price: response.entry_price,
        unrealized_pnl: response.unrealized_pnl,
        leverage: response.leverage,
        updated_time: now,
    }
}

/// The margin ratio that goes with every row: the collateral's margin
/// fraction, if there is collateral and it has one.
pub open spec fn margin_ratio_of(collateral: Option<BackpackCollateral>) -> Option<Seq<char>> {
    match collateral {
        Some(c) => opt_view(c.margin_fraction),
        None => None,
    }
}

/// `row` is the summary row for `collateral` at `now`: the net equity in
/// USD, all of it available.
pub open spec fn is_summary_row(row: AccountBalance, collateral: BackpackCollateral, now: u64) -> bool {
    &&& row.exchange@ == "Backpack"@
    &&& row.currency@ == "USD"@
    &&& row.summary
    &&& row.available@ == collateral.net_equity@
    &&& row.locked@ == "0"@
    &&& row.staked@ == "0"@
    &&& opt_view(row.margin_ratio) == opt_view(collateral.margin_fraction)
    &&& row.updated_time == now
}

/// `row` is the row of one currency at `now`.
pub open spec fn is_currency_row(
    row: AccountBalance,
    currency: Seq<char>,
    data: BackpackBalanceData,
    ratio: Option<Seq<char>>,
    now: u64,
) -> bool {
    &&& row.exchange@ == "Backpack"@
    &&& row.currency@ == currency
    &&& !row.summary
    &&& row.available@ == data.available@
    &&& row.locked@ == data.locked@
    &&& row.staked@ == data.staked@
    &&& opt_view(row.margin_ratio) == ratio
    &&& row.updated_time == now
}

/// The rows of the account's balance at `now`: the summary row first, where
/// there is collateral, then one row for each currency in the order given.
pub fn account_balances(
    collateral: &Option<BackpackCollateral>,
    balances: &Vec<(String, BackpackBalanceData)>,
    now: u64,
) -> (rows: Vec<AccountBalance>)
    ensures
        ({
            let lead: int = if collateral is Some {
                1
            } else {
                0
            };
            &&& rows@.len() == lead + balances@.len()
            &&& collateral matches Some(c) ==> is_summary_row(rows@[0], *c, now)
            &&& forall|j: int|
                lead <= j < rows@.len() ==> is_currency_row(
                    #[trigger] rows@[j],
                    balances@[j - lead].0@,
                    balances@[j - lead].1,
                    margin_ratio_of(*collateral),
                    now,
                )
        }),
{
    let mut rows: Vec<AccountBalance> = Vec::new();
    let ratio: Option<String> = match collateral {
        Some(c) => copy_opt(&c.margin_fraction),
        None => None,
    };
    match collateral {
        Some(c) => {
            rows.push(
                AccountBalance {
                    exchange: String::from_str("Backpack"),
                    currency: String::from_str("USD"),
                    summary: true,
                    available: c.net_equity.clone(),
                    locked: String::from_str("0"),
                    staked: String::from_str("0"),
                    margin_ratio: copy_opt(&ratio),
                    updated_time: now,
                },
            );
        },
        None => {},
    }
    let ghost lead: int = rows@.len() as int;
    let mut i: usize = 0;
    while i < balances.len()
        invariant
            i <= balances@.len(),
            lead == (if collateral is Some {
                1int
            } else {
                0int
            }),
            rows@.len() == lead + i,
            opt_view(ratio) == margin_ratio_of(*collateral),
            collateral matches Some(c) ==> is_summary_row(rows@[0], *c, now),
            forall|j: int|
                lead <= j < rows@.len() ==> is_currency_row(
                    #[trigger] rows@[j],
                    balances@[j - lead].0@,
                    balances@[j - lead].1,
                    margin_ratio_of(*collateral),
                    now,
                ),
        decreases balances@.len() - i,
    {
        let data = &balances[i].1;
        rows.push(
            AccountBalance {
                exchange: String::from_str("Backpack"),
                currency: balances[i].0.clone(),
                summary: false,
                available: data.available.clone(),
                locked: data.locked.clone(),
                staked: data.staked.clone(),
                margin_ratio: copy_opt(&ratio),
                updated_time: now,
            },
        );
        i += 1;
    }
    rows
}

/// The frame that authenticates the private channel at `timestamp`, signed
/// for the instruction `subscribe` and the fixed window.
pub fn auth_message(client: &BackpackTradingClient, timestamp: u64) -> (frame: WebSocketAuth)
    requires
        client.wf(),
    ensures
        frame.method@ == "subscribe"@,
        frame.params.api_key@ == client.spec_credentials().public_key@,
        frame.params.signature@ == signature_text(
            client.spec_secret(),
            signing_message("subscribe"@, Seq::<Pair>::empty(), timestamp, SIGNING_WINDOW_MS),
        ),
        frame.params.timestamp@ == decimal(timestamp as nat),
        frame.params.window@ == decimal(SIGNING_WINDOW_MS as nat),
{
    let signature = client.ws_signature(timestamp, SIGNING_WINDOW_MS);
    WebSocketAuth {
        method: String::from_str("subscribe"),
        params: WebSocketAuthParams {
            api_key: client.credentials().public_key.clone(),
            signature,
            timestamp: from_chars(&decimal_chars(timestamp)),
            window: from_chars(&decimal_chars(SIGNING_WINDOW_MS)),
        },
    }
}

/// The frame that subscribes to the order and position updates of every
/// symbol.
pub fn account_subscription() -> (frame: WebSocketSubscription)
    ensures
        frame.method@ == "subscribe"@,
        frame.params@.len() == 2,
        frame.params@[0]@ == "account.orderUpdate.*"@,
        frame.params@[1]@ == "account.positionUpdate.*"@,
{
    let mut params: Vec<String> = Vec::new();
    params.push(String::from_str("account.orderUpdate.*"));
    params.push(String::from_str("account.positionUpdate.*"));
    WebSocketSubscription { method: String::from_str("subscribe"), params }
}

/// The frame that subscribes to the channels `params` of the public stream.
pub fn market_subscription(params: Vec<String>) -> (frame: WebSocketSubscription)
    ensures
        frame.method@ == "SUBSCRIBE"@,
        frame.params == params,
{
    WebSocketSubscription { method: String::from_str("SUBSCRIBE"), params }
}

} // verus!
