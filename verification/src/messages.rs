//! The messages of the Stream API, as values of the library: what the server
//! sends (connection, status, market and order changes) and what the client
//! sends (authentication, heartbeat, subscriptions).
use vstd::prelude::*;

use crate::ladder::{Price, Size, UpdateSet2, UpdateSet3};

verus! {

/// A market identifier such as `1.23456789`.
pub type MarketId = String;

/// A runner identifier within a market.
pub type SelectionId = u64;

/// A runner handicap, in hundredths.
pub type Handicap = i64;

/// A bet identifier.
pub type BetId = u64;

/// A customer strategy reference.
pub type CustomerStrategyRef = String;

/// An opaque clock token of the stream.
pub type Clock = String;

/// A point in time, in milliseconds since the Unix epoch.
pub type Timestamp = i64;

/// How a change message relates to the subscription.
#[derive(Clone, Copy, Debug, PartialEq, Eq, Structural)]
pub enum ChangeType {
    SubImage,
    ResubDelta,
    Heartbeat,
}

/// A change message carrying a batch of changes of type `T`.
#[derive(Clone, Debug, PartialEq, Eq)]
pub struct DatasetChangeMessage<T> {
    pub id: Option<i32>,
    pub change_type: Option<ChangeType>,
    pub clock: Option<Clock>,
    pub initial_clock: Option<Clock>,
    pub publish_time: Option<Timestamp>,
    pub conflate_ms: Option<i64>,
    pub heartbeat_ms: Option<i64>,
    pub data: Option<Vec<T>>,
}

pub type MarketChangeMessage = DatasetChangeMessage<MarketChange>;

pub type OrderChangeMessage = DatasetChangeMessage<OrderMarketChange>;

/// The status of a market in its definition.
#[derive(Clone, Copy, Debug, PartialEq, Eq, Structural)]
pub enum StreamMarketDefinitionStatus {
    Inactive,
    Open,
    Suspended,
    Closed,
}

/// The status of a runner in a market definition.
#[derive(Clone, Copy, Debug, PartialEq, Eq, Structural)]
pub enum RunnerStatus {
    Active,
    Winner,
    Loser,
    Placed,
    RemovedVacant,
    Removed,
    Hidden,
}

/// The definition of one runner of a market.
#[derive(Clone, Copy, Debug, PartialEq, Eq, Structural)]
pub struct RunnerDefinition {
    pub id: Option<SelectionId>,
    pub handicap: Option<Handicap>,
    pub status: RunnerStatus,
    pub sort_priority: i32,
    /// The adjustment factor, in hundredths of a percent.
    pub adjustment_factor: Option<u64>,
    /// The starting price, once reconciled.
    pub bsp: Option<Price>,
    /// When the runner was removed.
    pub removal_date: Option<Timestamp>,
}

/// The price ladder a market trades on.
#[derive(Clone, Copy, Debug, PartialEq, Eq, Structural)]
pub enum PriceLadderType {
    Classic,
    Finest,
    LineRange,
}

/// The view of an optional string.
pub open spec fn opt_string(o: Option<String>) -> Option<Seq<char>> {
    match o {
        Some(x) => Some(x@),
        None => None,
    }
}

/// A copy of an optional string.
pub fn copy_opt_string(o: &Option<String>) -> (r: Option<String>)
    ensures
        opt_string(r) == opt_string(*o),
{
    match o {
        Some(x) => Some(x.clone()),
        None => None,
    }
}

/// The definition of a market.
#[derive(Clone, Debug, PartialEq, Eq)]
pub struct MarketDefinition {
    pub status: StreamMarketDefinitionStatus,
    pub bet_delay: i32,
    pub version: i64,
    pub complete: bool,
    pub runners_voidable: bool,
    pub bsp_reconciled: bool,
    pub bsp_market: bool,
    pub cross_matching: bool,
    pub in_play: bool,
    pub turn_in_play_enabled: bool,
    pub number_of_winners: i32,
    pub number_of_active_runners: i32,
    pub runners: Vec<RunnerDefinition>,
    pub event_id: Option<String>,
    pub event_type_id: Option<String>,
    pub event_name: Option<String>,
    pub name: Option<String>,
    pub market_type: Option<String>,
    pub betting_type: Option<BettingType>,
    pub market_time: Option<Timestamp>,
    pub suspend_time: Option<Timestamp>,
    pub open_date: Option<Timestamp>,
    pub settled_time: Option<Timestamp>,
    pub country_code: Option<String>,
    pub timezone: Option<String>,
    pub venue: Option<String>,
    pub race_type: Option<String>,
    pub regulators: Vec<String>,
    pub discount_allowed: bool,
    pub persistence_enabled: bool,
    /// The market base rate, in hundredths of a percent.
    pub market_base_rate: Option<u64>,
    /// The each-way divisor, in hundredths.
    pub each_way_divisor: Option<u64>,
    pub price_ladder_type: Option<PriceLadderType>,
    /// Line markets: the smallest line, in hundredths.
    pub line_min_unit: Option<i64>,
    /// Line markets: the largest line, in hundredths.
    pub line_max_unit: Option<i64>,
    /// Line markets: the step between lines, in hundredths.
    pub line_interval: Option<i64>,
    /// The key line: selection id and handicap of each runner on it.
    pub key_line: Option<Vec<(SelectionId, Option<Handicap>)>>,
}

/// What a market definition holds, as a mathematical value.
pub struct MarketDefinitionView {
    pub status: StreamMarketDefinitionStatus,
    pub bet_delay: i32,
    pub version: i64,
    pub complete: bool,
    pub runners_voidable: bool,
    pub bsp_reconciled: bool,
    pub bsp_market: bool,
    pub cross_matching: bool,
    pub in_play: bool,
    pub turn_in_play_enabled: bool,
    pub number_of_winners: i32,
    pub number_of_active_runners: i32,
    pub runners: Seq<RunnerDefinition>,
    pub event_id: Option<Seq<char>>,
    pub event_type_id: Option<Seq<char>>,
    pub event_name: Option<Seq<char>>,
    pub name: Option<Seq<char>>,
    pub market_type: Option<Seq<char>>,
    pub betting_type: Option<BettingType>,
    pub market_time: Option<Timestamp>,
    pub suspend_time: Option<Timestamp>,
    pub open_date: Option<Timestamp>,
    pub settled_time: Option<Timestamp>,
    pub country_code: Option<Seq<char>>,
    pub timezone: Option<Seq<char>>,
    pub venue: Option<Seq<char>>,
    pub race_type: Option<Seq<char>>,
    pub regulators: Seq<Seq<char>>,
    pub discount_allowed: bool,
    pub persistence_enabled: bool,
    pub market_base_rate: Option<u64>,
    pub each_way_divisor: Option<u64>,
    pub price_ladder_type: Option<PriceLadderType>,
    pub line_min_unit: Option<i64>,
    pub line_max_unit: Option<i64>,
    pub line_interval: Option<i64>,
    pub key_line: Option<Seq<(SelectionId, Option<Handicap>)>>,
}

impl View for MarketDefinition {
    type V = MarketDefinitionView;

    open spec fn view(&self) -> MarketDefinitionView {
        MarketDefinitionView {
            status: self.status,
            bet_delay: self.bet_delay,
            version: self.version,
            complete: self.complete,
            runners_voidable: self.runners_voidable,
            bsp_reconciled: self.bsp_reconciled,
            bsp_market: self.bsp_market,
            cross_matching: self.cross_matching,
            in_play: self.in_play,
            turn_in_play_enabled: self.turn_in_play_enabled,
            number_of_winners: self.number_of_winners,
            number_of_active_runners: self.number_of_active_runners,
            runners: self.runners@,
            event_id: opt_string(self.event_id),
            event_type_id: opt_string(self.event_type_id),
            event_name: opt_string(self.event_name),
            name: opt_string(self.name),
            market_type: opt_string(self.market_type),
            betting_type: self.betting_type,
            market_time: self.market_time,
            suspend_time: self.suspend_time,
            open_date: self.open_date,
            settled_time: self.settled_time,
            country_code: opt_string(self.country_code),
            timezone: opt_string(self.timezone),
            venue: opt_string(self.venue),
            race_type: opt_string(self.race_type),
            regulators: strings_view(self.regulators@),
            discount_allowed: self.discount_allowed,
            persistence_enabled: self.persistence_enabled,
            market_base_rate: self.market_base_rate,
            each_way_divisor: self.each_way_divisor,
            price_ladder_type: self.price_ladder_type,
            line_min_unit: self.line_min_unit,
            line_max_unit: self.line_max_unit,
            line_interval: self.line_interval,
            key_line: opt_seq(self.key_line),
        }
    }
}

impl MarketDefinition {
    /// A copy of the definition.
    pub fn copy(&self) -> (r: Self)
        ensures
            r@ == self@,
    {
        MarketDefinition {
            status: self.status,
            bet_delay: self.bet_delay,
            version: self.version,
            complete: self.complete,
            runners_voidable: self.runners_voidable,
            bsp_reconciled: self.bsp_reconciled,
            bsp_market: self.bsp_market,
            cross_matching: self.cross_matching,
            in_play: self.in_play,
            turn_in_play_enabled: self.turn_in_play_enabled,
            number_of_winners: self.number_of_winners,
            number_of_active_runners: self.number_of_active_runners,
            runners: copy_vec(&self.runners),
            event_id: copy_opt_string(&self.event_id),
            event_type_id: copy_opt_string(&self.event_type_id),
            event_name: copy_opt_string(&self.event_name),
            name: copy_opt_string(&self.name),
            market_type: copy_opt_string(&self.market_type),
            betting_type: self.betting_type,
            market_time: self.market_time,
            suspend_time: self.suspend_time,
            open_date: self.open_date,
            settled_time: self.settled_time,
            country_code: copy_opt_string(&self.country_code),
            timezone: copy_opt_string(&self.timezone),
            venue: copy_opt_string(&self.venue),
            race_type: copy_opt_string(&self.race_type),
            regulators: copy_strings(&self.regulators),
            discount_allowed: self.discount_allowed,
            persistence_enabled: self.persistence_enabled,
            market_base_rate: self.market_base_rate,
            each_way_divisor: self.each_way_divisor,
            price_ladder_type: self.price_ladder_type,
            line_min_unit: self.line_min_unit,
            line_max_unit: self.line_max_unit,
            line_interval: self.line_interval,
            key_line: copy_opt_vec(&self.key_line),
        }
    }
}

impl Default for MarketDefinition {
    fn default() -> (r: Self)
        ensures
            r.status == StreamMarketDefinitionStatus::Inactive,
            r.bet_delay == 0 && r.version == 0 && r.number_of_winners == 0
                && r.number_of_active_runners == 0,
            !r.complete && !r.runners_voidable && !r.bsp_reconciled && !r.bsp_market
                && !r.cross_matching && !r.in_play && !r.turn_in_play_enabled,
            r.runners@ == Seq::<RunnerDefinition>::empty(),
            r.event_id.is_none() && r.event_type_id.is_none() && r.event_name.is_none()
                && r.name.is_none() && r.market_type.is_none() && r.betting_type.is_none(),
            r.market_time.is_none() && r.suspend_time.is_none() && r.open_date.is_none()
                && r.settled_time.is_none(),
            r.country_code.is_none() && r.timezone.is_none() && r.venue.is_none()
                && r.race_type.is_none() && r.regulators@.len() == 0,
            !r.discount_allowed && !r.persistence_enabled && r.market_base_rate.is_none()
                && r.each_way_divisor.is_none() && r.price_ladder_type.is_none(),
            r.line_min_unit.is_none() && r.line_max_unit.is_none() && r.line_interval.is_none()
                && r.key_line.is_none(),
    {
        MarketDefinition {
            status: StreamMarketDefinitionStatus::Inactive,
            bet_delay: 0,
            version: 0,
            complete: false,
            runners_voidable: false,
            bsp_reconciled: false,
            bsp_market: false,
            cross_matching: false,
            in_play: false,
            turn_in_play_enabled: false,
            number_of_winners: 0,
            number_of_active_runners: 0,
            runners: Vec::new(),
            event_id: None,
            event_type_id: None,
            event_name: None,
            name: None,
            market_type: None,
            betting_type: None,
            market_time: None,
            suspend_time: None,
            open_date: None,
            settled_time: None,
            country_code: None,
            timezone: None,
            venue: None,
            race_type: None,
            regulators: Vec::new(),
            discount_allowed: false,
            persistence_enabled: false,
            market_base_rate: None,
            each_way_divisor: None,
            price_ladder_type: None,
            line_min_unit: None,
            line_max_unit: None,
            line_interval: None,
            key_line: None,
        }
    }
}

/// A copy of a vector of plain values.
pub fn copy_vec<T: Copy>(v: &Vec<T>) -> (r: Vec<T>)
    ensures
        r@ == v@,
{
    let mut r: Vec<T> = Vec::new();
    let mut i: usize = 0;
    while i < v.len()
        invariant
            0 <= i <= v@.len(),
            r@ == v@.take(i as int),
        decreases v@.len() - i,
    {
        r.push(v[i]);
        proof {
            assert(v@.take(i + 1) == v@.take(i as int).push(v@[i as int]));
        }
        i = i + 1;
    }
    proof {
        assert(v@.take(v@.len() as int) == v@);
    }
    r
}

/// A copy of an optional vector of plain values.
pub fn copy_opt_vec<T: Copy>(v: &Option<Vec<T>>) -> (r: Option<Vec<T>>)
    ensures
        opt_seq(r) == opt_seq(*v),
{
    match v {
        Some(x) => Some(copy_vec(x)),
        None => None,
    }
}

/// The contents of an optional vector.
pub open spec fn opt_seq<T>(v: Option<Vec<T>>) -> Option<Seq<T>> {
    match v {
        Some(x) => Some(x@),
        None => None,
    }
}

/// The changes of one runner in a market change.
#[derive(Clone, Debug, PartialEq, Eq)]
pub struct RunnerChange {
    pub id: Option<SelectionId>,
    pub handicap: Option<Handicap>,
    pub last_traded_price: Option<Price>,
    pub total_value: Option<Size>,
    pub starting_price_near: Option<Price>,
    pub starting_price_far: Option<Price>,
    pub traded: Option<Vec<UpdateSet2>>,
    pub available_to_back: Option<Vec<UpdateSet2>>,
    pub available_to_lay: Option<Vec<UpdateSet2>>,
    pub starting_price_back: Option<Vec<UpdateSet2>>,
    pub starting_price_lay: Option<Vec<UpdateSet2>>,
    pub best_available_to_back: Option<Vec<UpdateSet3>>,
    pub best_available_to_lay: Option<Vec<UpdateSet3>>,
    pub best_display_available_to_back: Option<Vec<UpdateSet3>>,
    pub best_display_available_to_lay: Option<Vec<UpdateSet3>>,
}

impl Default for RunnerChange {
    fn default() -> (r: Self)
        ensures
            r.id.is_none() && r.handicap.is_none() && r.last_traded_price.is_none()
                && r.total_value.is_none() && r.starting_price_near.is_none()
                && r.starting_price_far.is_none(),
            r.traded.is_none() && r.available_to_back.is_none() && r.available_to_lay.is_none()
                && r.starting_price_back.is_none() && r.starting_price_lay.is_none(),
            r.best_available_to_back.is_none() && r.best_available_to_lay.is_none()
                && r.best_display_available_to_back.is_none()
                && r.best_display_available_to_lay.is_none(),
    {
        RunnerChange {
            id: None,
            handicap: None,
            last_traded_price: None,
            total_value: None,
            starting_price_near: None,
            starting_price_far: None,
            traded: None,
            available_to_back: None,
            available_to_lay: None,
            starting_price_back: None,
            starting_price_lay: None,
            best_available_to_back: None,
            best_available_to_lay: None,
            best_display_available_to_back: None,
            best_display_available_to_lay: None,
        }
    }
}

/// The change of one market in a market change message.
#[derive(Clone, Debug, PartialEq, Eq)]
pub struct MarketChange {
    pub market_id: Option<MarketId>,
    pub full_image: Option<bool>,
    pub conflated: Option<bool>,
    pub total_value: Option<Size>,
    pub market_definition: Option<MarketDefinition>,
    pub runner_change: Option<Vec<RunnerChange>>,
}

impl Default for MarketChange {
    fn default() -> (r: Self)
        ensures
            r.market_id.is_none() && r.full_image.is_none() && r.conflated.is_none()
                && r.total_value.is_none() && r.market_definition.is_none()
                && r.runner_change.is_none(),
    {
        MarketChange {
            market_id: None,
            full_image: None,
            conflated: None,
            total_value: None,
            market_definition: None,
            runner_change: None,
        }
    }
}

/// The side of a bet.
#[derive(Clone, Copy, Debug, PartialEq, Eq, Structural)]
pub enum Side {
    Back,
    Lay,
}

/// The status of an order.
#[derive(Clone, Copy, Debug, PartialEq, Eq, Structural)]
pub enum OrderStatus {
    Executable,
    ExecutionComplete,
}

/// What happens to an unmatched order when the market turns in play.
#[derive(Clone, Copy, Debug, PartialEq, Eq, Structural)]
pub enum PersistenceType {
    Lapse,
    Persist,
    MarketOnClose,
}

/// The type of an order.
#[derive(Clone, Copy, Debug, PartialEq, Eq, Structural)]
pub enum OrderType {
    Limit,
    LimitOnClose,
    MarketOnClose,
}

/// An unmatched (or recently matched) order.
#[derive(Clone, Copy, Debug, PartialEq, Eq, Structural)]
pub struct Order {
    pub id: BetId,
    pub price: Price,
    pub size: Size,
    pub side: Side,
    pub status: OrderStatus,
    pub persistence_type: PersistenceType,
    pub order_type: OrderType,
    pub placed_date: Option<Timestamp>,
    pub matched_date: Option<Timestamp>,
    pub average_price_matched: Option<Price>,
    pub size_matched: Option<Size>,
    pub size_remaining: Option<Size>,
    pub size_lapsed: Option<Size>,
    pub size_cancelled: Option<Size>,
    pub size_voided: Option<Size>,
    /// When the order lapsed.
    pub lapsed_date: Option<Timestamp>,
    /// When the order was cancelled.
    pub cancelled_date: Option<Timestamp>,
    /// The liability of a starting-price order.
    pub bsp_liability: Option<Size>,
}

/// Matched amounts of one strategy on a runner.
#[derive(Clone, Debug, PartialEq, Eq)]
pub struct StrategyMatchChange {
    /// matched lays
    pub ml: Option<Vec<UpdateSet2>>,
    /// matched backs
    pub mb: Option<Vec<UpdateSet2>>,
}

/// What a strategy match change holds, as a mathematical value.
pub struct StrategyMatchChangeView {
    pub ml: Option<Seq<UpdateSet2>>,
    pub mb: Option<Seq<UpdateSet2>>,
}

impl View for StrategyMatchChange {
    type V = StrategyMatchChangeView;

    open spec fn view(&self) -> StrategyMatchChangeView {
        StrategyMatchChangeView { ml: opt_seq(self.ml), mb: opt_seq(self.mb) }
    }
}

/// The order changes of one runner.
#[derive(Clone, Debug, PartialEq, Eq)]
pub struct OrderRunnerChange {
    pub id: SelectionId,
    pub handicap: Option<Handicap>,
    pub full_image: Option<bool>,
    pub matched_lays: Option<Vec<UpdateSet2>>,
    pub matched_backs: Option<Vec<UpdateSet2>>,
    pub unmatched_orders: Option<Vec<Order>>,
    pub strategy_matches: Option<Vec<(CustomerStrategyRef, StrategyMatchChange)>>,
}

/// What an order runner change holds, as a mathematical value.
pub struct OrderRunnerChangeView {
    pub id: SelectionId,
    pub handicap: Option<Handicap>,
    pub full_image: Option<bool>,
    pub matched_lays: Option<Seq<UpdateSet2>>,
    pub matched_backs: Option<Seq<UpdateSet2>>,
    pub unmatched_orders: Option<Seq<Order>>,
    pub strategy_matches: Option<Seq<(Seq<char>, StrategyMatchChangeView)>>,
}

/// The strategy matches of a change, as mathematical values.
pub open spec fn strategy_matches_view(v: Seq<(CustomerStrategyRef, StrategyMatchChange)>) -> Seq<
    (Seq<char>, StrategyMatchChangeView),
> {
    v.map_values(|e: (CustomerStrategyRef, StrategyMatchChange)| (e.0@, e.1@))
}

impl View for OrderRunnerChange {
    type V = OrderRunnerChangeView;

    open spec fn view(&self) -> OrderRunnerChangeView {
        OrderRunnerChangeView {
            id: self.id,
            handicap: self.handicap,
            full_image: self.full_image,
            matched_lays: opt_seq(self.matched_lays),
            matched_backs: opt_seq(self.matched_backs),
            unmatched_orders: opt_seq(self.unmatched_orders),
            strategy_matches: match self.strategy_matches {
                Some(v) => Some(strategy_matches_view(v@)),
                None => None,
            },
        }
    }
}

/// The order changes of one market.
#[derive(Clone, Debug, PartialEq, Eq)]
pub struct OrderMarketChange {
    pub market_id: MarketId,
    pub account_id: Option<i64>,
    pub closed: Option<bool>,
    pub full_image: Option<bool>,
    pub order_runner_change: Option<Vec<OrderRunnerChange>>,
}

/// What an order market change holds, as a mathematical value.
pub struct OrderMarketChangeView {
    pub market_id: Seq<char>,
    pub account_id: Option<i64>,
    pub closed: Option<bool>,
    pub full_image: Option<bool>,
    pub order_runner_change: Option<Seq<OrderRunnerChangeView>>,
}

impl View for OrderMarketChange {
    type V = OrderMarketChangeView;

    open spec fn view(&self) -> OrderMarketChangeView {
        OrderMarketChangeView {
            market_id: self.market_id@,
            account_id: self.account_id,
            closed: self.closed,
            full_image: self.full_image,
            order_runner_change: match self.order_runner_change {
                Some(v) => Some(v@.map_values(|c: OrderRunnerChange| c@)),
                None => None,
            },
        }
    }
}

impl StrategyMatchChange {
    /// A copy of the change.
    pub fn copy(&self) -> (r: Self)
        ensures
            r@ == self@,
    {
        StrategyMatchChange { ml: copy_opt_vec(&self.ml), mb: copy_opt_vec(&self.mb) }
    }
}

impl OrderRunnerChange {
    /// A copy of the change.
    pub fn copy(&self) -> (r: Self)
        ensures
            r@ == self@,
    {
        let strategy_matches = match &self.strategy_matches {
            Some(v) => {
                let mut out: Vec<(CustomerStrategyRef, StrategyMatchChange)> = Vec::new();
                let mut i: usize = 0;
                while i < v.len()
                    invariant
                        0 <= i <= v@.len(),
                        out@.len() == i,
                        forall|j: int|
                            0 <= j < i ==> (#[trigger] out@[j]).0@ == v@[j].0@ && out@[j].1@
                                == v@[j].1@,
                    decreases v@.len() - i,
                {
                    let e = &v[i];
                    out.push((e.0.clone(), e.1.copy()));
                    i = i + 1;
                }
                proof {
                    assert(strategy_matches_view(out@) =~= strategy_matches_view(v@));
                }
                Some(out)
            },
            None => None,
        };
        OrderRunnerChange {
            id: self.id,
            handicap: self.handicap,
            full_image: self.full_image,
            matched_lays: copy_opt_vec(&self.matched_lays),
            matched_backs: copy_opt_vec(&self.matched_backs),
            unmatched_orders: copy_opt_vec(&self.unmatched_orders),
            strategy_matches,
        }
    }
}

impl OrderMarketChange {
    /// A copy of the change.
    pub fn copy(&self) -> (r: Self)
        ensures
            r@ == self@,
    {
        let order_runner_change = match &self.order_runner_change {
            Some(v) => {
                let mut out: Vec<OrderRunnerChange> = Vec::new();
                let mut i: usize = 0;
                while i < v.len()
                    invariant
                        0 <= i <= v@.len(),
                        out@.len() == i,
                        forall|j: int| 0 <= j < i ==> (#[trigger] out@[j])@ == v@[j]@,
                    decreases v@.len() - i,
                {
                    out.push(v[i].copy());
                    i = i + 1;
                }
                proof {
                    assert(out@.map_values(|c: OrderRunnerChange| c@) =~= v@.map_values(
                        |c: OrderRunnerChange| c@,
                    ));
                }
                Some(out)
            },
            None => None,
        };
        OrderMarketChange {
            market_id: self.market_id.clone(),
            account_id: self.account_id,
            closed: self.closed,
            full_image: self.full_image,
            order_runner_change,
        }
    }
}

/// The first message of a connection.
#[derive(Clone, Debug, PartialEq, Eq)]
pub struct ConnectionMessage {
    pub id: Option<i32>,
    pub connection_id: Option<String>,
}

/// Error codes that the stream reports in a failure status.
#[derive(Clone, Copy, Debug, PartialEq, Eq, Structural)]
pub enum ErrorCode {
    NoAppKey,
    InvalidAppKey,
    NoSession,
    InvalidSessionInformation,
    NotAuthorized,
    InvalidInput,
    InvalidClock,
    UnexpectedError,
    Timeout,
    SubscriptionLimitExceeded,
    InvalidRequest,
    ConnectionFailed,
    MaxConnectionLimitExceeded,
    TooManyRequests,
}

/// What a status reply without failure carries.
#[derive(Clone, Debug, PartialEq, Eq)]
pub struct StatusSuccess {
    pub id: Option<i32>,
    pub connection_closed: Option<bool>,
    pub connection_id: Option<String>,
    pub connections_available: Option<i32>,
}

/// A failed status reply.
#[derive(Clone, Debug, PartialEq, Eq)]
pub struct StatusError {
    pub id: Option<i32>,
    pub error_code: ErrorCode,
    pub error_message: String,
    pub connection_closed: Option<bool>,
    pub connection_id: Option<String>,
    pub connections_available: Option<i32>,
}

/// A status reply of the stream.
#[derive(Clone, Debug, PartialEq, Eq)]
pub enum StatusMessage {
    /// A status with the success code.
    Success(StatusSuccess),
    /// A status with the failure code and its error.
    Failure(StatusError),
    /// A status that carries no status code (as a heartbeat reply may).
    WithoutCode(StatusSuccess),
}

/// A message sent by the stream server.
#[derive(Clone, Debug, PartialEq, Eq)]
pub enum ResponseMessage {
    Connection(ConnectionMessage),
    MarketChange(MarketChangeMessage),
    OrderChange(OrderChangeMessage),
    Status(StatusMessage),
}

/// Authenticates the connection.
#[derive(Clone, Debug, PartialEq, Eq)]
pub struct AuthenticationMessage {
    pub id: Option<i32>,
    pub session: String,
    pub app_key: String,
}

/// Keeps the connection alive.
#[derive(Clone, Copy, Debug, PartialEq, Eq, Structural)]
pub struct HeartbeatMessage {
    pub id: Option<i32>,
}

/// Betting types a market filter may name.
#[derive(Clone, Copy, Debug, PartialEq, Eq, Structural)]
pub enum BettingType {
    Odds,
    Line,
    Range,
    AsianHandicapDoubleLine,
    AsianHandicapSingleLine,
}

/// Data fields a market subscription may ask for.
#[derive(Clone, Copy, Debug, PartialEq, Eq, Structural)]
pub enum Fields {
    ExBestOffersDisp,
    ExBestOffers,
    ExAllOffers,
    ExTraded,
    ExTradedVol,
    ExLtp,
    ExMarketDef,
    SpTraded,
    SpProjected,
}

/// The number of ladder levels of depth-based ladders (1 to 10).
#[derive(Clone, Copy, Debug, PartialEq, Eq, Structural)]
pub struct LadderLevel(pub u8);

/// Which markets a subscription covers.
#[derive(Clone, Debug, PartialEq, Eq)]
pub struct MarketFilter {
    pub country_codes: Option<Vec<String>>,
    pub betting_types: Option<Vec<BettingType>>,
    pub turn_in_play_enabled: Option<bool>,
    pub market_types: Option<Vec<String>>,
    pub venues: Option<Vec<String>>,
    pub market_ids: Option<Vec<MarketId>>,
    pub event_type_ids: Option<Vec<String>>,
    pub event_ids: Option<Vec<String>>,
    pub bsp_market: Option<bool>,
    pub race_types: Option<Vec<String>>,
}

/// What a market filter holds, as a mathematical value.
pub struct MarketFilterView {
    pub country_codes: Option<Seq<Seq<char>>>,
    pub betting_types: Option<Seq<BettingType>>,
    pub turn_in_play_enabled: Option<bool>,
    pub market_types: Option<Seq<Seq<char>>>,
    pub venues: Option<Seq<Seq<char>>>,
    pub market_ids: Option<Seq<Seq<char>>>,
    pub event_type_ids: Option<Seq<Seq<char>>>,
    pub event_ids: Option<Seq<Seq<char>>>,
    pub bsp_market: Option<bool>,
    pub race_types: Option<Seq<Seq<char>>>,
}

/// The contents of an optional vector of strings.
pub open spec fn opt_strings(v: Option<Vec<String>>) -> Option<Seq<Seq<char>>> {
    match v {
        Some(x) => Some(strings_view(x@)),
        None => None,
    }
}

/// The contents of a sequence of strings.
pub open spec fn strings_view(v: Seq<String>) -> Seq<Seq<char>> {
    v.map_values(|s: String| s@)
}

/// A copy of a vector of strings.
pub fn copy_strings(v: &Vec<String>) -> (r: Vec<String>)
    ensures
        strings_view(r@) == strings_view(v@),
{
    let mut r: Vec<String> = Vec::new();
    let mut i: usize = 0;
    while i < v.len()
        invariant
            0 <= i <= v@.len(),
            r@.len() == i,
            forall|j: int| 0 <= j < i ==> (#[trigger] r@[j])@ == v@[j]@,
        decreases v@.len() - i,
    {
        r.push(v[i].clone());
        i = i + 1;
    }
    proof {
        assert(strings_view(r@) =~= strings_view(v@));
    }
    r
}

/// A copy of an optional vector of strings.
pub fn copy_opt_strings(v: &Option<Vec<String>>) -> (r: Option<Vec<String>>)
    ensures
        opt_strings(r) == opt_strings(*v),
{
    match v {
        Some(x) => Some(copy_strings(x)),
        None => None,
    }
}

impl View for MarketFilter {
    type V = MarketFilterView;

    open spec fn view(&self) -> MarketFilterView {
        MarketFilterView {
            country_codes: opt_strings(self.country_codes),
            betting_types: opt_seq(self.betting_types),
            turn_in_play_enabled: self.turn_in_play_enabled,
            market_types: opt_strings(self.market_types),
            venues: opt_strings(self.venues),
            market_ids: opt_strings(self.market_ids),
            event_type_ids: opt_strings(self.event_type_ids),
            event_ids: opt_strings(self.event_ids),
            bsp_market: self.bsp_market,
            race_types: opt_strings(self.race_types),
        }
    }
}

impl MarketFilter {
    /// A copy of the filter.
    pub fn copy(&self) -> (r: Self)
        ensures
            r@ == self@,
    {
        MarketFilter {
            country_codes: copy_opt_strings(&self.country_codes),
            betting_types: copy_opt_vec(&self.betting_types),
            turn_in_play_enabled: self.turn_in_play_enabled,
            market_types: copy_opt_strings(&self.market_types),
            venues: copy_opt_strings(&self.venues),
            market_ids: copy_opt_strings(&self.market_ids),
            event_type_ids: copy_opt_strings(&self.event_type_ids),
            event_ids: copy_opt_strings(&self.event_ids),
            bsp_market: self.bsp_market,
            race_types: copy_opt_strings(&self.race_types),
        }
    }
}

impl Default for MarketFilter {
    fn default() -> (r: Self)
        ensures
            r@ == empty_market_filter(),
    {
        MarketFilter {
            country_codes: None,
            betting_types: None,
            turn_in_play_enabled: None,
            market_types: None,
            venues: None,
            market_ids: None,
            event_type_ids: None,
            event_ids: None,
            bsp_market: None,
            race_types: None,
        }
    }
}

/// The filter that restricts nothing.
pub open spec fn empty_market_filter() -> MarketFilterView {
    MarketFilterView {
        country_codes: None,
        betting_types: None,
        turn_in_play_enabled: None,
        market_types: None,
        venues: None,
        market_ids: None,
        event_type_ids: None,
        event_ids: None,
        bsp_market: None,
        race_types: None,
    }
}

/// Which data of the subscribed markets is sent.
#[derive(Clone, Debug, PartialEq, Eq)]
pub struct MarketDataFilter {
    pub ladder_levels: Option<LadderLevel>,
    pub fields: Option<Vec<Fields>>,
}

/// Subscribes to market changes.
#[derive(Clone, Debug, PartialEq, Eq)]
pub struct MarketSubscriptionMessage {
    pub id: Option<i32>,
    pub clk: Option<Clock>,
    pub conflate_ms: Option<i64>,
    pub heartbeat_ms: Option<i64>,
    pub initial_clk: Option<Clock>,
    pub market_filter: Option<MarketFilter>,
    pub market_data_filter: Option<MarketDataFilter>,
    pub segmentation_enabled: Option<bool>,
}

/// Which orders a subscription covers.
#[derive(Clone, Debug, PartialEq, Eq)]
pub struct OrderFilter {
    pub include_overall_position: Option<bool>,
    pub account_ids: Option<Vec<i64>>,
    pub customer_strategy_refs: Option<Vec<CustomerStrategyRef>>,
    pub partition_matched_by_strategy_ref: Option<bool>,
}

/// What an order filter holds, as a mathematical value.
pub struct OrderFilterView {
    pub include_overall_position: Option<bool>,
    pub account_ids: Option<Seq<i64>>,
    pub customer_strategy_refs: Option<Seq<Seq<char>>>,
    pub partition_matched_by_strategy_ref: Option<bool>,
}

impl View for OrderFilter {
    type V = OrderFilterView;

    open spec fn view(&self) -> OrderFilterView {
        OrderFilterView {
            include_overall_position: self.include_overall_position,
            account_ids: opt_seq(self.account_ids),
            customer_strategy_refs: opt_strings(self.customer_strategy_refs),
            partition_matched_by_strategy_ref: self.partition_matched_by_strategy_ref,
        }
    }
}

impl OrderFilter {
    /// A copy of the filter.
    pub fn copy(&self) -> (r: Self)
        ensures
            r@ == self@,
    {
        OrderFilter {
            include_overall_position: self.include_overall_position,
            account_ids: copy_opt_vec(&self.account_ids),
            customer_strategy_refs: copy_opt_strings(&self.customer_strategy_refs),
            partition_matched_by_strategy_ref: self.partition_matched_by_strategy_ref,
        }
    }
}

impl Default for OrderFilter {
    fn default() -> (r: Self)
        ensures
            r@ == empty_order_filter(),
    {
        OrderFilter {
            include_overall_position: None,
            account_ids: None,
            customer_strategy_refs: None,
            partition_matched_by_strategy_ref: None,
        }
    }
}

/// The filter that restricts nothing.
pub open spec fn empty_order_filter() -> OrderFilterView {
    OrderFilterView {
        include_overall_position: None,
        account_ids: None,
        customer_strategy_refs: None,
        partition_matched_by_strategy_ref: None,
    }
}

/// Subscribes to order changes.
#[derive(Clone, Debug, PartialEq, Eq)]
pub struct OrderSubscriptionMessage {
    pub id: Option<i32>,
    pub clk: Option<Clock>,
    pub conflate_ms: Option<i64>,
    pub heartbeat_ms: Option<i64>,
    pub initial_clk: Option<Clock>,
    pub order_filter: Option<OrderFilter>,
    pub segmentation_enabled: Option<bool>,
}

/// A message sent by the client.
#[derive(Clone, Debug, PartialEq, Eq)]
pub enum RequestMessage {
    Authentication(AuthenticationMessage),
    Heartbeat(HeartbeatMessage),
    MarketSubscription(MarketSubscriptionMessage),
    OrderSubscription(OrderSubscriptionMessage),
}

} // verus!
