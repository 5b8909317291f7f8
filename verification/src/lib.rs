//! Verified core of a Betfair Stream API client: the ladder, runner, market and
//! order caches that incremental stream messages are folded into, the stream
//! state that dispatches those messages, the message framing of the wire
//! protocol, the handshake decisions, the subscription bookkeeping and the
//! state machine of the mock stream server.
pub mod ladder;
pub mod available;
pub mod messages;
pub mod runner_book;
pub mod keyed;
pub mod market_book;
pub mod orderbook;
pub mod clock;
pub mod tracker;
pub mod codec;
pub mod handshake;
pub mod subscriber;
pub mod mock_server;

use vstd::prelude::*;

use crate::market_book::{MarketBookCache, MarketBookView};
use crate::messages::{ChangeType, ConnectionMessage, ResponseMessage, StatusMessage};
use crate::orderbook::{OrderBookCache, OrderBookView};
use crate::tracker::{
    MarketStreamTracker, MarketTrackerView, OrderStreamTracker, OrderTrackerView, StreamState,
    StreamStateView, market_update, order_update,
};

verus! {

/// Variants of messages produced by the cache-based processor.
#[derive(Clone, Debug, PartialEq, Eq)]
pub enum CachedMessage {
    /// A connection handshake message received from the stream; also
    /// returned on heartbeat messages.
    Connection(ConnectionMessage),
    /// The market books changed by a market change message.
    MarketChange(Vec<MarketBookCache>),
    /// The order books changed by an order change message.
    OrderChange(Vec<OrderBookCache>),
    /// A status message from the stream.
    Status(StatusMessage),
}

/// Processing of incoming stream messages into user-defined outputs.
///
/// Implementers can filter or transform messages and control which messages
/// are forwarded to the client sink.
pub trait MessageProcessor {
    /// The processed message type produced by `process_message`
    type Output;

    /// Returns `Some(output)` to forward a processed message, or `None` to drop it.
    fn process_message(&mut self, message: ResponseMessage) -> Option<Self::Output>;
}

/// `MessageProcessor` that maintains market and order caches.
pub struct Cache {
    state: StreamState,
}

/// The connection message that a cache processor returns for a heartbeat
/// change message: it carries the heartbeat's id.
pub open spec fn heartbeat_connection(id: Option<i32>) -> CachedMessage {
    CachedMessage::Connection(ConnectionMessage { id, connection_id: None })
}

/// What a cache processor produces for a message, given its state before (`s`)
/// and after (`s2`): connection and status messages are forwarded unchanged;
/// market and order change messages go to the stream state (see
/// `market_update` and `order_update`); a heartbeat is answered with a
/// connection message (see `heartbeat_connection`), any other change with the
/// changed books, if any.
pub open spec fn cache_step(
    s: StreamStateView,
    message: ResponseMessage,
    s2: StreamStateView,
    r: Option<CachedMessage>,
) -> bool {
    match message {
        ResponseMessage::Connection(c) => s2 == s && r == Some(CachedMessage::Connection(c)),
        ResponseMessage::Status(st) => s2 == s && r == Some(CachedMessage::Status(st)),
        ResponseMessage::MarketChange(m) => {
            let (ns, out) = market_update(s, m, s2.time_updated);
            &&& s2 == ns
            &&& if m.change_type == Some(ChangeType::Heartbeat) {
                r == Some(heartbeat_connection(m.id))
            } else {
                match r {
                None => out.is_none(),
                Some(CachedMessage::MarketChange(v)) => out == Some(
                    v@.map_values(|b: MarketBookCache| b@),
                ),
                Some(_) => false,
                }
            }
        },
        ResponseMessage::OrderChange(m) => {
            let (ns, out) = order_update(s, m, s2.time_updated);
            &&& s2 == ns
            &&& if m.change_type == Some(ChangeType::Heartbeat) {
                r == Some(heartbeat_connection(m.id))
            } else {
                match r {
                None => out.is_none(),
                Some(CachedMessage::OrderChange(v)) => out == Some(
                    v@.map_values(|b: OrderBookCache| b@),
                ),
                Some(_) => false,
                }
            }
        },
    }
}

impl View for Cache {
    type V = StreamStateView;

    closed spec fn view(&self) -> StreamStateView {
        self.state@
    }
}

/// Whether a change type marks a heartbeat.
fn is_heartbeat(change_type: &Option<ChangeType>) -> (r: bool)
    ensures
        r == (*change_type == Some(ChangeType::Heartbeat)),
{
    match change_type {
        Some(ChangeType::Heartbeat) => true,
        _ => false,
    }
}

/// A stream state with empty caches, no clocks and zero times.
fn blank_state() -> (r: StreamState)
    ensures
        r@ == (StreamStateView {
            stream_id: None,
            update_clk: None,
            max_latency_ms: None,
            unique_id: None,
            initial_clock: None,
            time_created: 0,
            time_updated: 0,
            markets: MarketTrackerView { market_state: Seq::empty(), updates_processed: 0 },
            orders: OrderTrackerView { market_state: Seq::empty(), updates_processed: 0 },
        }),
        r.wf(),
{
    StreamState {
        stream_id: None,
        update_clk: None,
        max_latency_ms: None,
        unique_id: None,
        initial_clock: None,
        time_created: 0,
        time_updated: 0,
        market_stream_tracker: MarketStreamTracker::new(),
        order_stream_tracker: OrderStreamTracker::new(),
    }
}

impl Cache {
    #[verifier::type_invariant]
    spec fn inv(self) -> bool {
        self.state.wf()
    }

    /// A cache processor with empty caches.
    pub fn new() -> (r: Self)
        ensures
            r@.markets == (MarketTrackerView { market_state: Seq::empty(), updates_processed: 0 }),
            r@.orders == (OrderTrackerView { market_state: Seq::empty(), updates_processed: 0 }),
            r@.stream_id.is_none() && r@.update_clk.is_none() && r@.max_latency_ms.is_none()
                && r@.unique_id.is_none() && r@.initial_clock.is_none(),
    {
        Cache { state: StreamState::new() }
    }

    /// The stream state behind the cache.
    pub fn state(&self) -> (r: &StreamState)
        ensures
            r@ == self@,
            r.wf(),
    {
        proof {
            use_type_invariant(self);
        }
        &self.state
    }
}

impl MessageProcessor for Cache {
    type Output = CachedMessage;

    fn process_message(&mut self, message: ResponseMessage) -> (r: Option<CachedMessage>)
        ensures
            cache_step(old(self)@, message, final(self)@, r),
    {
        proof {
            use_type_invariant(&*self);
        }
        let mut state = blank_state();
        std::mem::swap(&mut state, &mut self.state);
        let r = match message {
            ResponseMessage::Connection(connection_message) => Some(
                CachedMessage::Connection(connection_message),
            ),
            ResponseMessage::MarketChange(market_change_message) => {
                let heartbeat = is_heartbeat(&market_change_message.change_type);
                let id = market_change_message.id;
                match state.market_change_update(market_change_message) {
                    Some(markets) => Some(CachedMessage::MarketChange(markets)),
                    None => if heartbeat {
                        Some(CachedMessage::Connection(ConnectionMessage { id, connection_id: None }))
                    } else {
                        None
                    },
                }
            },
            ResponseMessage::OrderChange(order_change_message) => {
                let heartbeat = is_heartbeat(&order_change_message.change_type);
                let id = order_change_message.id;
                match state.order_change_update(order_change_message) {
                    Some(orders) => Some(CachedMessage::OrderChange(orders)),
                    None => if heartbeat {
                        Some(CachedMessage::Connection(ConnectionMessage { id, connection_id: None }))
                    } else {
                        None
                    },
                }
            },
            ResponseMessage::Status(status_message) => Some(CachedMessage::Status(status_message)),
        };
        std::mem::swap(&mut state, &mut self.state);
        r
    }
}

/// `MessageProcessor` that forwards raw `ResponseMessage` objects without transformation.
pub struct Forwarder;

impl MessageProcessor for Forwarder {
    type Output = ResponseMessage;

    fn process_message(&mut self, message: ResponseMessage) -> (r: Option<ResponseMessage>)
        ensures
            r == Some(message),
    {
        Some(message)
    }
}

} // verus!
