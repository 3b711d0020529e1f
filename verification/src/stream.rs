//! The mark-price stream: the life cycle of one connection, the signature of
//! its market queries, and the tick that each mark-price event becomes.

use crate::client::headers_view;
use crate::crypto::{base64_bytes, decode_base64, SECRET_KEY_LENGTH};
use crate::params::{Pair, ParamList};
use crate::funding::{funding_interval, interval_of, FundingIntervalTable};
use crate::latency::{calc_latency, estimate, latency_sample, smoothed, LatencyTable};
use crate::signing::{
    add_query, build_message, sign_message, signature_text, signing_message, with_query,
    SIGNATURE_TEXT_LENGTH, SIGNING_WINDOW_MS,
};
use crate::symbol::{display_symbol, display_symbol_of};
use crate::text::{decimal, decimal_chars, from_chars, str_eq, texts, to_chars};
use vstd::prelude::*;

verus! {

/// The seconds to wait before a lost connection is opened again.
pub const RECONNECT_DELAY_SECS: u64 = 5;

/// Where a connection stands.
#[derive(Clone, Copy, Debug, PartialEq, Eq, Structural)]
pub enum StreamState {
    Disconnected,
    Connecting,
    SubscriptionSent,
    Streaming,
}

/// What happened on a connection.
#[derive(Clone, Copy, Debug, PartialEq, Eq, Structural)]
pub enum StreamEvent {
    /// The stream starts, or the delay after a loss is over.
    Ready,
    /// The connection is open.
    Connected,
    /// The subscription was handed to the transport.
    Subscribed,
    /// A ping frame came in.
    Ping,
    /// A text frame came in.
    Text,
    /// A frame of another kind came in.
    OtherFrame,
    /// Connecting or sending failed, the transport reported an error, or the
    /// stream ended.
    Lost,
}

/// What the driver of a connection does next.
#[derive(Clone, Copy, Debug, PartialEq, Eq, Structural)]
pub enum StreamAction {
    /// Open the connection.
    Connect,
    /// Send the subscription for the batch.
    Subscribe,
    /// Wait for the next frame.
    Receive,
    /// Answer with a pong, then wait for the next frame.
    Pong,
    /// Decode the text and publish its tick, then wait for the next frame.
    Publish,
    /// Drop the connection and wait this many seconds.
    Wait(u64),
}

/// The state after `event` and what to do next. A loss leads from every
/// state to `Disconnected` and the fixed delay; an event that does not
/// belong to the state changes nothing.
pub open spec fn next_step(state: StreamState, event: StreamEvent) -> (StreamState, StreamAction) {
    match (state, event) {
        (_, StreamEvent::Lost) => (
            StreamState::Disconnected,
            StreamAction::Wait(RECONNECT_DELAY_SECS),
        ),
        (StreamState::Disconnected, StreamEvent::Ready) => (
            StreamState::Connecting,
            StreamAction::Connect,
        ),
        (StreamState::Connecting, StreamEvent::Connected) => (
            StreamState::SubscriptionSent,
            StreamAction::Subscribe,
        ),
        (StreamState::SubscriptionSent, StreamEvent::Subscribed) => (
            StreamState::Streaming,
            StreamAction::Receive,
        ),
        (StreamState::Streaming, StreamEvent::Ping) => (StreamState::Streaming, StreamAction::Pong),
        (StreamState::Streaming, StreamEvent::Text) => (
            StreamState::Streaming,
            StreamAction::Publish,
        ),
        (StreamState::Disconnected, _) => (
            StreamState::Disconnected,
            StreamAction::Wait(RECONNECT_DELAY_SECS),
        ),
        (StreamState::Connecting, _) => (StreamState::Connecting, StreamAction::Connect),
        (StreamState::SubscriptionSent, _) => (
            StreamState::SubscriptionSent,
            StreamAction::Subscribe,
        ),
        (StreamState::Streaming, _) => (StreamState::Streaming, StreamAction::Receive),
    }
}

/// The state after `event` and what to do next.
pub fn step(state: StreamState, event: StreamEvent) -> (r: (StreamState, StreamAction))
    ensures
        r == next_step(state, event),
{
    match (state, event) {
        (_, StreamEvent::Lost) => (
            StreamState::Disconnected,
            StreamAction::Wait(RECONNECT_DELAY_SECS),
        ),
        (StreamState::Disconnected, StreamEvent::Ready) => (
            StreamState::Connecting,
            StreamAction::Connect,
        ),
        (StreamState::Connecting, StreamEvent::Connected) => (
            StreamState::SubscriptionSent,
            StreamAction::Subscribe,
        ),
        (StreamState::SubscriptionSent, StreamEvent::Subscribed) => (
            StreamState::Streaming,
            StreamAction::Receive,
        ),
        (StreamState::Streaming, StreamEvent::Ping) => (StreamState::Streaming, StreamAction::Pong),
        (StreamState::Streaming, StreamEvent::Text) => (
            StreamState::Streaming,
            StreamAction::Publish,
        ),
        (StreamState::Disconnected, _) => (
            StreamState::Disconnected,
            StreamAction::Wait(RECONNECT_DELAY_SECS),
        ),
        (StreamState::Connecting, _) => (StreamState::Connecting, StreamAction::Connect),
        (StreamState::SubscriptionSent, _) => (
            StreamState::SubscriptionSent,
            StreamAction::Subscribe,
        ),
        (StreamState::Streaming, _) => (StreamState::Streaming, StreamAction::Receive),
    }
}

/// The state after a run of events, from the left.
pub open spec fn state_after(state: StreamState, events: Seq<StreamEvent>) -> StreamState
    decreases events.len(),
{
    if events.len() == 0 {
        state
    } else {
        next_step(state_after(state, events.drop_last()), events.last()).0
    }
}

/// However a connection was lost, and however often before, the stream waits
/// the fixed delay, connects again once the delay is over, and is back to
/// publishing after the connection and the subscription succeed.
pub proof fn lemma_stream_recovers(state: StreamState, history: Seq<StreamEvent>)
    ensures
        next_step(state_after(state, history), StreamEvent::Lost) == (
            StreamState::Disconnected,
            StreamAction::Wait(RECONNECT_DELAY_SECS),
        ),
        next_step(StreamState::Disconnected, StreamEvent::Ready) == (
            StreamState::Connecting,
            StreamAction::Connect,
        ),
        state_after(
            state_after(state, history),
            seq![
                StreamEvent::Lost,
                StreamEvent::Ready,
                StreamEvent::Connected,
                StreamEvent::Subscribed,
            ],
        ) == StreamState::Streaming,
        next_step(StreamState::Streaming, StreamEvent::Text) == (
            StreamState::Streaming,
            StreamAction::Publish,
        ),
{
    let from = state_after(state, history);
    let run = seq![
        StreamEvent::Lost,
        StreamEvent::Ready,
        StreamEvent::Connected,
        StreamEvent::Subscribed,
    ];
    let three = run.drop_last();
    let two = three.drop_last();
    let one = two.drop_last();
    assert(one.drop_last().len() == 0);
    assert(state_after(from, one.drop_last()) == from);
    assert(one.last() == StreamEvent::Lost);
    assert(state_after(from, one) == StreamState::Disconnected);
    assert(two.last() == StreamEvent::Ready);
    assert(state_after(from, two) == StreamState::Connecting);
    assert(three.last() == StreamEvent::Connected);
    assert(state_after(from, three) == StreamState::SubscriptionSent);
    assert(run.last() == StreamEvent::Subscribed);
}

/// The key of a market-data account.
#[derive(Debug, Clone)]
pub struct BackpackConfig {
    pub api_key: String,
    /// The Ed25519 secret key, in base64.
    pub api_secret: String,
}

/// The secret key that `api_secret` spells, where it is base64 for 32 bytes.
pub open spec fn secret_of(api_secret: Seq<char>) -> Option<Seq<u8>> {
    match base64_bytes(api_secret) {
        Some(bytes) => if bytes.len() == SECRET_KEY_LENGTH {
            Some(bytes)
        } else {
            None
        },
        None => None,
    }
}

/// The text that the signature of a market query covers: the instruction,
/// the pairs of the query in the order of their keys, the timestamp and the
/// window. A query without pairs adds nothing to the text.
pub open spec fn query_message(
    instruction: Seq<char>,
    params: Seq<char>,
    timestamp: u64,
    window: u64,
) -> Seq<char> {
    signing_message(instruction, with_query(Seq::<Pair>::empty(), params), timestamp, window)
}

/// The text that the signature of a market query covers.
pub fn build_query_message(instruction: &str, params: &str, timestamp: u64, window: u64) -> (out:
    Vec<char>)
    ensures
        out@ == query_message(instruction@, params@, timestamp, window),
{
    let mut pairs = ParamList::new();
    add_query(&mut pairs, &to_chars(params));
    build_message(instruction, &pairs, timestamp, window)
}

/// The timestamp and the signature of a market query, both as header
/// values; `None` where the secret of `config` is not base64 for 32 bytes.
/// The window is the fixed one.
pub fn generate_signature(config: &BackpackConfig, instruction: &str, params: &str, timestamp: u64) -> (r:
    Option<(String, String)>)
    ensures
        match secret_of(config.api_secret@) {
            None => r is None,
            Some(secret) => r matches Some(pair) && pair.0@ == decimal(timestamp as nat)
                && pair.1@.len() == SIGNATURE_TEXT_LENGTH && pair.1@ == signature_text(
                secret,
                query_message(instruction@, params@, timestamp, SIGNING_WINDOW_MS),
            ),
        },
{
    let secret = match decode_base64(config.api_secret.as_str()) {
        Ok(bytes) => bytes,
        Err(_) => {
            return None;
        },
    };
    if secret.len() != SECRET_KEY_LENGTH {
        return None;
    }
    let message = build_query_message(instruction, params, timestamp, SIGNING_WINDOW_MS);
    Some((from_chars(&decimal_chars(timestamp)), sign_message(&secret, &message)))
}

/// The headers of a signed market query, in the order in which they are set.
pub open spec fn query_headers(api_key: Seq<char>, timestamp: u64, signature: Seq<char>) -> Seq<
    Pair,
> {
    seq![
        ("X-API-Key"@, api_key),
        ("X-Timestamp"@, decimal(timestamp as nat)),
        ("X-Window"@, decimal(SIGNING_WINDOW_MS as nat)),
        ("X-Signature"@, signature),
    ]
}

/// The headers of a market query signed at `timestamp`; `None` where the
/// secret of `config` is not base64 for 32 bytes.
pub fn signed_query_headers(
    config: &BackpackConfig,
    instruction: &str,
    params: &str,
    timestamp: u64,
) -> (r: Option<Vec<(String, String)>>)
    ensures
        match secret_of(config.api_secret@) {
            None => r is None,
            Some(secret) => r matches Some(headers) && headers_view(headers@) == query_headers(
                config.api_key@,
                timestamp,
                signature_text(
                    secret,
                    query_message(instruction@, params@, timestamp, SIGNING_WINDOW_MS),
                ),
            ),
        },
{
    match generate_signature(config, instruction, params, timestamp) {
        None => None,
        Some(pair) => {
            let mut headers: Vec<(String, String)> = Vec::new();
            headers.push((String::from_str("X-API-Key"), config.api_key.clone()));
            headers.push((String::from_str("X-Timestamp"), pair.0));
            headers.push(
                (String::from_str("X-Window"), from_chars(&decimal_chars(SIGNING_WINDOW_MS))),
            );
            headers.push((String::from_str("X-Signature"), pair.1));
            assert(headers_view(headers@) =~= query_headers(
                config.api_key@,
                timestamp,
                headers@[3].1@,
            ));
            Some(headers)
        },
    }
}

/// A mark-price event as the exchange sends it.
#[derive(Debug, Clone)]
pub struct MarkPrice {
    /// The kind of event.
    pub e: String,
    /// The time of the event.
    pub event_time: u64,
    /// The market.
    pub s: String,
    /// The mark price.
    pub p: String,
    /// The funding rate.
    pub f: String,
    /// The time of the next funding.
    pub n: u64,
}

/// A tick as it is published.
#[derive(Debug, Clone)]
pub struct MarketTick {
    pub exchange: String,
    pub symbol: String,
    pub price: String,
    pub funding_rate: String,
    /// The funding interval in milliseconds.
    pub funding_interval_ms: i64,
    /// The time of the event, divided by a thousand.
    pub timestamp: u64,
    /// The smoothed latency in milliseconds.
    pub latency: u64,
}

/// The subscription parameters for a batch: `markPrice.` and the symbol, for
/// each symbol in order.
pub open spec fn mark_price_channels(symbols: Seq<Seq<char>>) -> Seq<Seq<char>> {
    Seq::new(symbols.len(), |i: int| "markPrice."@ + symbols[i])
}

/// The subscription parameters for a batch.
pub fn subscription_params(symbols: &Vec<String>) -> (params: Vec<String>)
    ensures
        texts(params@) == mark_price_channels(texts(symbols@)),
{
    let mut params: Vec<String> = Vec::new();
    let mut i: usize = 0;
    while i < symbols.len()
        invariant
            i <= symbols@.len(),
            params@.len() == i,
            forall|k: int| 0 <= k < i ==> params@[k]@ == "markPrice."@ + symbols@[k]@,
        decreases symbols@.len() - i,
    {
        let mut channel = String::from_str("markPrice.");
        channel.append(symbols[i].as_str());
        params.push(channel);
        i += 1;
    }
    assert(texts(params@) =~= mark_price_channels(texts(symbols@)));
    params
}

/// The sample that an event at `event_time`, seen at `local_time`, gives.
pub open spec fn sample_at(local_time: u64, event_time: u64) -> u64 {
    if local_time >= event_time / 1000 {
        (local_time - event_time / 1000) as u64
    } else {
        0
    }
}

/// The tick of a mark-price event seen at `local_time`, and the event's
/// latency taken into the table. An event of another kind gives no tick and
/// changes nothing.
pub fn handle_mark_price(
    event: &MarkPrice,
    latency_map: &mut LatencyTable,
    funding_intervals: &FundingIntervalTable,
    local_time: u64,
) -> (r: Option<MarketTick>)
    requires
        old(latency_map).wf(),
        funding_intervals.wf(),
    ensures
        final(latency_map).wf(),
        event.e@ != "markPrice"@ ==> r is None && final(latency_map)@ == old(latency_map)@,
        event.e@ == "markPrice"@ ==> (r matches Some(tick) && {
            &&& tick.exchange@ == "Backpack"@
            &&& tick.symbol@ == display_symbol(event.s@)
            &&& tick.price@ == event.p@
            &&& tick.funding_rate@ == event.f@
            &&& tick.funding_interval_ms == interval_of(funding_intervals@, event.s@)
            &&& tick.timestamp == event.event_time / 1000
            &&& tick.latency == smoothed(
                estimate(old(latency_map)@, event.s@),
                sample_at(local_time, event.event_time),
            )
            &&& final(latency_map)@ == old(latency_map)@.insert(event.s@, tick.latency)
        }),
{
    if !str_eq(event.e.as_str(), "markPrice") {
        return None;
    }
    let sample = latency_sample(local_time, event.event_time);
    let latency = calc_latency(latency_map, event.s.as_str(), sample);
    Some(
        MarketTick {
            exchange: String::from_str("Backpack"),
            symbol: display_symbol_of(event.s.as_str()),
            price: event.p.clone(),
            funding_rate: event.f.clone(),
            funding_interval_ms: funding_interval(funding_intervals, event.s.as_str()),
            timestamp: event.event_time / 1000,
            latency,
        },
    )
}

/// One connection of the mark-price stream, with the latency estimates that
/// belong to it. The estimates do not outlive the connection: a loss clears
/// them.
pub struct MarketDataStream {
    state: StreamState,
    latency: LatencyTable,
}

impl MarketDataStream {
    /// The stream's invariant: that of its latency table.
    pub closed spec fn wf(&self) -> bool {
        self.latency.wf()
    }

    /// Where the connection stands.
    pub closed spec fn spec_state(&self) -> StreamState {
        self.state
    }

    /// The latency estimates of the connection.
    pub closed spec fn spec_latency(&self) -> Map<Seq<char>, u64> {
        self.latency@
    }

    /// A stream that is not connected yet and has seen no event.
    pub fn new() -> (stream: Self)
        ensures
            stream.wf(),
            stream.spec_state() == StreamState::Disconnected,
            stream.spec_latency() == Map::<Seq<char>, u64>::empty(),
    {
        MarketDataStream { state: StreamState::Disconnected, latency: LatencyTable::new() }
    }

    /// Where the connection stands.
    pub fn state(&self) -> (state: StreamState)
        ensures
            state == self.spec_state(),
    {
        self.state
    }

    /// Takes `event` and says what to do next. A loss also clears the
    /// latency estimates; no other event touches them.
    pub fn on_event(&mut self, event: StreamEvent) -> (action: StreamAction)
        requires
            old(self).wf(),
        ensures
            final(self).wf(),
            (final(self).spec_state(), action) == next_step(old(self).spec_state(), event),
            final(self).spec_latency() == if event == StreamEvent::Lost {
                Map::<Seq<char>, u64>::empty()
            } else {
                old(self).spec_latency()
            },
    {
        let (state, action) = step(self.state, event);
        self.state = state;
        if event == StreamEvent::Lost {
            self.latency = LatencyTable::new();
        }
        action
    }

    /// The tick of a mark-price event seen at `local_time`, with the event's
    /// latency taken into the connection's estimates. An event of another
    /// kind gives no tick and changes nothing.
    pub fn on_mark_price(
        &mut self,
        event: &MarkPrice,
        funding_intervals: &FundingIntervalTable,
        local_time: u64,
    ) -> (r: Option<MarketTick>)
        requires
            old(self).wf(),
            funding_intervals.wf(),
        ensures
            final(self).wf(),
            final(self).spec_state() == old(self).spec_state(),
            event.e@ != "markPrice"@ ==> r is None && final(self).spec_latency() == old(
                self,
            ).spec_latency(),
            event.e@ == "markPrice"@ ==> (r matches Some(tick) && {
                &&& tick.exchange@ == "Backpack"@
                &&& tick.symbol@ == display_symbol(event.s@)
                &&& tick.price@ == event.p@
                &&& tick.funding_rate@ == event.f@
                &&& tick.funding_interval_ms == interval_of(funding_intervals@, event.s@)
                &&& tick.timestamp == event.event_time / 1000
                &&& tick.latency == smoothed(
                    estimate(old(self).spec_latency(), event.s@),
                    sample_at(local_time, event.event_time),
                )
                &&& final(self).spec_latency() == old(self).spec_latency().insert(
                    event.s@,
                    tick.latency,
                )
            }),
    {
        handle_mark_price(event, &mut self.latency, funding_intervals, local_time)
    }
}

/// The first tick of a symbol after a loss carries its own sample as the
/// latency: nothing of the estimates before the loss is left in it.
pub proof fn lemma_first_sample_after_loss(symbol: Seq<char>, sample: u64)
    ensures
        smoothed(estimate(Map::<Seq<char>, u64>::empty(), symbol), sample) == sample,
{
}

} // verus!
