//! Mapping between engine orders and venue requests.
//!
//! The engine and the venue both number time-in-force, and the numbers collide on the wrong
//! pairs: `IOC` is 2 in the engine and 3 at the venue, `FOK` 3 and 2. Every enum is mapped
//! by name, never by value.
//!
//! `post_only` is a separate flag in the engine but the `GTX` time in force at the venue, and
//! only a resting order can carry it. `quote_quantity` selects the venue's `funds`, accepted
//! only on market buys. Client order ids pass through unchanged or are refused, never
//! rewritten.
use vstd::prelude::*;

use crate::common::enums::{ExecutionType, OrderSide, OrderStatus, OrderType, PositionSide, TimeInForce};
use crate::http::requests::{
    client_order_id_valid, request_error_message, ClientOrderId, OrderItem, RequestError,
};
use crate::http::spot::SpotOrderItem;
use crate::json::push_lit;
use crate::text::{debug_quoted, opt_view, owned, push_str, str_debug};

verus! {

/// The engine's order sides.
#[derive(Debug, Clone, Copy, PartialEq, Eq, Hash, Structural)]
pub enum EngineOrderSide {
    Buy,
    Sell,
}

/// The engine's order types.
#[derive(Debug, Clone, Copy, PartialEq, Eq, Hash, Structural)]
pub enum EngineOrderType {
    Market,
    Limit,
    StopMarket,
    StopLimit,
    MarketToLimit,
    MarketIfTouched,
    LimitIfTouched,
    TrailingStopMarket,
    TrailingStopLimit,
}

impl EngineOrderType {
    pub open spec fn spec_name(self) -> Seq<char> {
        match self {
            EngineOrderType::Market => "Market"@,
            EngineOrderType::Limit => "Limit"@,
            EngineOrderType::StopMarket => "StopMarket"@,
            EngineOrderType::StopLimit => "StopLimit"@,
            EngineOrderType::MarketToLimit => "MarketToLimit"@,
            EngineOrderType::MarketIfTouched => "MarketIfTouched"@,
            EngineOrderType::LimitIfTouched => "LimitIfTouched"@,
            EngineOrderType::TrailingStopMarket => "TrailingStopMarket"@,
            EngineOrderType::TrailingStopLimit => "TrailingStopLimit"@,
        }
    }

    /// The variant's name.
    pub fn name(self) -> (s: &'static str)
        ensures
            s@ == self.spec_name(),
    {
        match self {
            EngineOrderType::Market => "Market",
            EngineOrderType::Limit => "Limit",
            EngineOrderType::StopMarket => "StopMarket",
            EngineOrderType::StopLimit => "StopLimit",
            EngineOrderType::MarketToLimit => "MarketToLimit",
            EngineOrderType::MarketIfTouched => "MarketIfTouched",
            EngineOrderType::LimitIfTouched => "LimitIfTouched",
            EngineOrderType::TrailingStopMarket => "TrailingStopMarket",
            EngineOrderType::TrailingStopLimit => "TrailingStopLimit",
        }
    }
}

/// The engine's time-in-force values.
#[derive(Debug, Clone, Copy, PartialEq, Eq, Hash, Structural)]
pub enum EngineTimeInForce {
    Gtc,
    Ioc,
    Fok,
    Gtd,
    Day,
    AtTheOpen,
    AtTheClose,
}

impl EngineTimeInForce {
    pub open spec fn spec_name(self) -> Seq<char> {
        match self {
            EngineTimeInForce::Gtc => "Gtc"@,
            EngineTimeInForce::Ioc => "Ioc"@,
            EngineTimeInForce::Fok => "Fok"@,
            EngineTimeInForce::Gtd => "Gtd"@,
            EngineTimeInForce::Day => "Day"@,
            EngineTimeInForce::AtTheOpen => "AtTheOpen"@,
            EngineTimeInForce::AtTheClose => "AtTheClose"@,
        }
    }

    /// The variant's name.
    /// The engine's own number for this time in force. It differs from the venue's: the
    /// engine numbers IOC 2 and FOK 3, the venue the other way round, which is why every
    /// mapping here goes by name.
    pub fn engine_number(self) -> (n: u8)
        ensures
            n == (match self {
                EngineTimeInForce::Gtc => 1u8,
                EngineTimeInForce::Ioc => 2u8,
                EngineTimeInForce::Fok => 3u8,
                EngineTimeInForce::Gtd => 4u8,
                EngineTimeInForce::Day => 5u8,
                EngineTimeInForce::AtTheOpen => 6u8,
                EngineTimeInForce::AtTheClose => 7u8,
            }),
    {
        match self {
            EngineTimeInForce::Gtc => 1,
            EngineTimeInForce::Ioc => 2,
            EngineTimeInForce::Fok => 3,
            EngineTimeInForce::Gtd => 4,
            EngineTimeInForce::Day => 5,
            EngineTimeInForce::AtTheOpen => 6,
            EngineTimeInForce::AtTheClose => 7,
        }
    }

    pub fn name(self) -> (s: &'static str)
        ensures
            s@ == self.spec_name(),
    {
        match self {
            EngineTimeInForce::Gtc => "Gtc",
            EngineTimeInForce::Ioc => "Ioc",
            EngineTimeInForce::Fok => "Fok",
            EngineTimeInForce::Gtd => "Gtd",
            EngineTimeInForce::Day => "Day",
            EngineTimeInForce::AtTheOpen => "AtTheOpen",
            EngineTimeInForce::AtTheClose => "AtTheClose",
        }
    }
}

/// The engine's order statuses.
#[derive(Debug, Clone, Copy, PartialEq, Eq, Hash, Structural)]
pub enum EngineOrderStatus {
    Initialized,
    Denied,
    Emulated,
    Released,
    Submitted,
    Accepted,
    Rejected,
    Canceled,
    Expired,
    Triggered,
    PendingUpdate,
    PendingCancel,
    PartiallyFilled,
    Filled,
}

/// The fields of an engine order-initialised event that the venue needs, decimals already
/// rendered as text.
#[derive(Debug, Clone, PartialEq, Eq)]
pub struct OrderInitialized {
    pub client_order_id: String,
    pub order_side: EngineOrderSide,
    pub order_type: EngineOrderType,
    pub time_in_force: EngineTimeInForce,
    pub post_only: bool,
    pub quantity: String,
    pub price: Option<String>,
    pub quote_quantity: bool,
    pub reduce_only: bool,
}

/// Why an engine order cannot be expressed at this venue.
#[derive(Debug, Clone, PartialEq, Eq)]
pub enum OrderConversionError {
    Unsupported { what: String },
    ClientOrderId { id: String, reason: String },
    PostOnlyWithNonResting { tif: EngineTimeInForce },
    QuoteQuantityNotMarketBuy,
    LimitWithoutPrice,
    Request(RequestError),
}

/// What a conversion error says.
pub open spec fn conversion_error_message(e: OrderConversionError) -> Seq<char> {
    match e {
        OrderConversionError::Unsupported { what } => what@ + " is not supported by SoDEX"@,
        OrderConversionError::ClientOrderId { id, reason } => "client order id "@ + str_debug(id@)
            + " is not accepted: "@ + reason@,
        OrderConversionError::PostOnlyWithNonResting { tif } => "post-only requires a resting order; it cannot be combined with "@
            + tif.spec_name(),
        OrderConversionError::QuoteQuantityNotMarketBuy => "quote-denominated size is only valid for market buy orders"@,
        OrderConversionError::LimitWithoutPrice => "a limit order requires a price"@,
        OrderConversionError::Request(r) => request_error_message(r),
    }
}

impl OrderConversionError {
    /// The error as text.
    pub fn message(&self) -> (s: String)
        ensures
            s@ == conversion_error_message(*self),
    {
        match self {
            OrderConversionError::Unsupported { what } => {
                let mut s = owned(what.as_str());
                push_str(&mut s, " is not supported by SoDEX");
                s
            },
            OrderConversionError::ClientOrderId { id, reason } => {
                let mut s = owned("client order id ");
                let quoted = debug_quoted(id.as_str());
                push_str(&mut s, quoted.as_str());
                push_str(&mut s, " is not accepted: ");
                push_str(&mut s, reason.as_str());
                s
            },
            OrderConversionError::PostOnlyWithNonResting { tif } => {
                let mut s = owned("post-only requires a resting order; it cannot be combined with ");
                push_str(&mut s, tif.name());
                s
            },
            OrderConversionError::QuoteQuantityNotMarketBuy => owned(
                "quote-denominated size is only valid for market buy orders",
            ),
            OrderConversionError::LimitWithoutPrice => owned("a limit order requires a price"),
            OrderConversionError::Request(r) => r.message(),
        }
    }
}

/// Maps an order side, by name.
pub fn map_side(side: EngineOrderSide) -> (s: OrderSide)
    ensures
        s == (match side {
            EngineOrderSide::Buy => OrderSide::Buy,
            EngineOrderSide::Sell => OrderSide::Sell,
        }),
{
    match side {
        EngineOrderSide::Buy => OrderSide::Buy,
        EngineOrderSide::Sell => OrderSide::Sell,
    }
}

/// Maps an order type. The venue offers only market and limit; stop and trailing types are
/// refused rather than flattened into a limit that would execute at once.
pub fn map_order_type(order_type: EngineOrderType) -> (t: Option<OrderType>)
    ensures
        t == (match order_type {
            EngineOrderType::Market => Some(OrderType::Market),
            EngineOrderType::Limit => Some(OrderType::Limit),
            _ => None,
        }),
{
    match order_type {
        EngineOrderType::Market => Some(OrderType::Market),
        EngineOrderType::Limit => Some(OrderType::Limit),
        _ => None,
    }
}

/// What mapping a time in force yields.
pub open spec fn time_in_force_outcome(tif: EngineTimeInForce, post_only: bool) -> Option<
    TimeInForce,
> {
    if post_only {
        if tif == EngineTimeInForce::Gtc {
            Some(TimeInForce::Gtx)
        } else {
            None
        }
    } else {
        match tif {
            EngineTimeInForce::Gtc => Some(TimeInForce::Gtc),
            EngineTimeInForce::Ioc => Some(TimeInForce::Ioc),
            _ => None,
        }
    }
}

/// Maps time in force, resolving `post_only` into the venue's `GTX`. Post-only with a
/// non-resting time in force, and any time in force the venue does not accept, are refused.
pub fn map_time_in_force(tif: EngineTimeInForce, post_only: bool) -> (r: Result<
    TimeInForce,
    OrderConversionError,
>)
    ensures
        time_in_force_outcome(tif, post_only) matches Some(t) ==> r == Ok::<
            TimeInForce,
            OrderConversionError,
        >(t),
        time_in_force_outcome(tif, post_only) is None && post_only ==> r == Err::<
            TimeInForce,
            OrderConversionError,
        >(OrderConversionError::PostOnlyWithNonResting { tif }),
        time_in_force_outcome(tif, post_only) is None && !post_only ==> (r matches Err(
            OrderConversionError::Unsupported { what },
        ) && what@ == tif.spec_name() + " time in force"@),
{
    if post_only {
        return match tif {
            EngineTimeInForce::Gtc => Ok(TimeInForce::Gtx),
            other => Err(OrderConversionError::PostOnlyWithNonResting { tif: other }),
        };
    }
    match tif {
        EngineTimeInForce::Gtc => Ok(TimeInForce::Gtc),
        EngineTimeInForce::Ioc => Ok(TimeInForce::Ioc),
        other => {
            let mut what = owned(other.name());
            push_lit(&mut what, " time in force");
            Err(OrderConversionError::Unsupported { what })
        },
    }
}

/// What the refusal of a client order id outside the venue's pattern says.
pub open spec fn id_refusal_message(id: Seq<char>) -> Seq<char> {
    "client order id "@ + str_debug(id) + " is not accepted: "@
        + "client order id must match ^[0-9a-zA-Z_-]{1,36}$, got "@ + str_debug(id)
}

/// Carries over a client order id, refusing one outside the venue's pattern.
pub fn map_client_order_id(id: &str) -> (r: Result<ClientOrderId, OrderConversionError>)
    ensures
        client_order_id_valid(id@) ==> (r matches Ok(c) && c@ == id@),
        !client_order_id_valid(id@) ==> (r matches Err(
            OrderConversionError::ClientOrderId { id: i, reason },
        ) && i@ == id@ && reason@ == request_error_message(RequestError::ClientOrderId(i))
            && conversion_error_message(OrderConversionError::ClientOrderId { id: i, reason })
            == id_refusal_message(id@)),
{
    match ClientOrderId::parse(id) {
        Ok(c) => Ok(c),
        Err(e) => Err(OrderConversionError::ClientOrderId { id: owned(id), reason: e.message() }),
    }
}

/// The venue-shaped essentials of an order.
#[derive(Debug, Clone, PartialEq, Eq)]
pub struct OrderSpec {
    pub cl_ord_id: ClientOrderId,
    pub side: OrderSide,
    pub order_type: OrderType,
    pub time_in_force: TimeInForce,
    /// Decimal string, as the venue expects.
    pub quantity: String,
    /// Limit price, or a slippage bound on a market order.
    pub price: Option<String>,
    /// Size is denominated in the quote asset (the venue's `funds`).
    pub quote_quantity: bool,
    pub reduce_only: bool,
}

impl OrderSpec {
    /// Extracts the venue-relevant fields from an order event: the type is checked first,
    /// then the client order id, then the time in force.
    pub fn from_initialized(init: &OrderInitialized) -> (r: Result<Self, OrderConversionError>)
        ensures
            (init.order_type != EngineOrderType::Market && init.order_type != EngineOrderType::Limit) ==> (r matches Err(
                OrderConversionError::Unsupported { what },
            ) && what@ == init.order_type.spec_name() + " orders"@),
            (init.order_type == EngineOrderType::Market || init.order_type == EngineOrderType::Limit)
                && !client_order_id_valid(init.client_order_id@) ==> (r matches Err(
                OrderConversionError::ClientOrderId { .. },
            )),
            (init.order_type == EngineOrderType::Market || init.order_type == EngineOrderType::Limit)
                && client_order_id_valid(init.client_order_id@) && time_in_force_outcome(
                init.time_in_force,
                init.post_only,
            ) is None ==> r is Err,
            r matches Ok(s) ==> spec_matches(s, *init),
            match initialized_refusal(*init) {
                Some(m) => r matches Err(e) && conversion_error_message(e) == m,
                None => r is Ok,
            },
            (init.order_type == EngineOrderType::Market || init.order_type == EngineOrderType::Limit)
                && client_order_id_valid(init.client_order_id@) && time_in_force_outcome(
                init.time_in_force,
                init.post_only,
            ) is Some ==> r is Ok,
    {
        let order_type = match map_order_type(init.order_type) {
            Some(t) => t,
            None => {
                let mut what = owned(init.order_type.name());
                push_lit(&mut what, " orders");
                return Err(OrderConversionError::Unsupported { what });
            },
        };
        let cl_ord_id = match map_client_order_id(init.client_order_id.as_str()) {
            Ok(c) => c,
            Err(e) => return Err(e),
        };
        let time_in_force = match map_time_in_force(init.time_in_force, init.post_only) {
            Ok(t) => t,
            Err(e) => return Err(e),
        };
        let price = match &init.price {
            Some(p) => Some(owned(p.as_str())),
            None => None,
        };
        Ok(OrderSpec {
            cl_ord_id,
            side: map_side(init.order_side),
            order_type,
            time_in_force,
            quantity: owned(init.quantity.as_str()),
            price,
            quote_quantity: init.quote_quantity,
            reduce_only: init.reduce_only,
        })
    }
}

/// Why an order event cannot become an order at this venue, as text; `None` when it can.
/// The type is checked first, then the client order id, then the time in force.
pub open spec fn initialized_refusal(init: OrderInitialized) -> Option<Seq<char>> {
    if init.order_type != EngineOrderType::Market && init.order_type != EngineOrderType::Limit {
        Some(init.order_type.spec_name() + " orders"@ + " is not supported by SoDEX"@)
    } else if !client_order_id_valid(init.client_order_id@) {
        Some(id_refusal_message(init.client_order_id@))
    } else if time_in_force_outcome(init.time_in_force, init.post_only) is None {
        if init.post_only {
            Some(
                "post-only requires a resting order; it cannot be combined with "@
                    + init.time_in_force.spec_name(),
            )
        } else {
            Some(init.time_in_force.spec_name() + " time in force"@ + " is not supported by SoDEX"@)
        }
    } else {
        None
    }
}

/// Whether `s` carries exactly what the order event says.
pub open spec fn spec_matches(s: OrderSpec, init: OrderInitialized) -> bool {
    &&& s.cl_ord_id@ == init.client_order_id@
    &&& s.side == map_side_spec(init.order_side)
    &&& (init.order_type == EngineOrderType::Market ==> s.order_type == OrderType::Market)
    &&& (init.order_type == EngineOrderType::Limit ==> s.order_type == OrderType::Limit)
    &&& Some(s.time_in_force) == time_in_force_outcome(init.time_in_force, init.post_only)
    &&& s.quantity@ == init.quantity@
    &&& opt_view(s.price) == opt_view(init.price)
    &&& s.quote_quantity == init.quote_quantity
    &&& s.reduce_only == init.reduce_only
}

pub open spec fn map_side_spec(side: EngineOrderSide) -> OrderSide {
    match side {
        EngineOrderSide::Buy => OrderSide::Buy,
        EngineOrderSide::Sell => OrderSide::Sell,
    }
}

fn copy_opt(o: &Option<String>) -> (r: Option<String>)
    ensures
        opt_view(r) == opt_view(*o),
{
    match o {
        Some(s) => Some(owned(s.as_str())),
        None => None,
    }
}

/// Reason given when a spot order asks to be reduce-only.
pub const REDUCE_ONLY_ON_SPOT: &'static str = "reduce-only on spot";

/// The spot item an order becomes, its text fields taken by value.
pub open spec fn spot_item_matches(item: SpotOrderItem, spec: OrderSpec, symbol_id: u64) -> bool {
    &&& item.symbol_id == symbol_id
    &&& item.cl_ord_id == spec.cl_ord_id
    &&& item.side == spec.side
    &&& item.order_type == spec.order_type
    &&& item.time_in_force == spec.time_in_force
    &&& if spec.quote_quantity {
        item.price is None && item.quantity is None && opt_view(item.funds) == Some(spec.quantity@)
    } else {
        opt_view(item.price) == opt_view(spec.price) && opt_view(item.quantity) == Some(
            spec.quantity@,
        ) && item.funds is None
    }
}

/// Builds a spot order item. Reduce-only is refused, since spot has no positions; a
/// quote-denominated size must be a market buy and becomes `funds`; a limit needs a price,
/// and a market order keeps any price as a slippage bound.
pub fn to_spot_order(spec: &OrderSpec, symbol_id: u64) -> (r: Result<
    SpotOrderItem,
    OrderConversionError,
>)
    ensures
        spec.reduce_only ==> (r matches Err(OrderConversionError::Unsupported { what })
            && what@ == REDUCE_ONLY_ON_SPOT@),
        !spec.reduce_only && spec.quote_quantity && (spec.order_type != OrderType::Market
            || spec.side != OrderSide::Buy) ==> r == Err::<SpotOrderItem, OrderConversionError>(
            OrderConversionError::QuoteQuantityNotMarketBuy,
        ),
        !spec.reduce_only && !spec.quote_quantity && spec.order_type == OrderType::Limit
            && spec.price is None ==> r == Err::<SpotOrderItem, OrderConversionError>(
            OrderConversionError::LimitWithoutPrice,
        ),
        r is Ok <==> !spec.reduce_only && (if spec.quote_quantity {
            spec.order_type == OrderType::Market && spec.side == OrderSide::Buy
        } else {
            !(spec.order_type == OrderType::Limit && spec.price is None)
        }),
        r matches Ok(item) ==> spot_item_matches(item, *spec, symbol_id),
{
    if spec.reduce_only {
        return Err(OrderConversionError::Unsupported { what: owned(REDUCE_ONLY_ON_SPOT) });
    }
    if spec.quote_quantity {
        if spec.order_type != OrderType::Market || spec.side != OrderSide::Buy {
            return Err(OrderConversionError::QuoteQuantityNotMarketBuy);
        }
        return Ok(
            SpotOrderItem {
                symbol_id,
                cl_ord_id: spec.cl_ord_id.duplicate(),
                side: spec.side,
                order_type: spec.order_type,
                time_in_force: spec.time_in_force,
                price: None,
                quantity: None,
                funds: Some(owned(spec.quantity.as_str())),
            },
        );
    }
    let price = match spec.order_type {
        OrderType::Limit => {
            if spec.price.is_none() {
                return Err(OrderConversionError::LimitWithoutPrice);
            }
            copy_opt(&spec.price)
        },
        OrderType::Market => copy_opt(&spec.price),
    };
    Ok(
        SpotOrderItem {
            symbol_id,
            cl_ord_id: spec.cl_ord_id.duplicate(),
            side: spec.side,
            order_type: spec.order_type,
            time_in_force: spec.time_in_force,
            price,
            quantity: Some(owned(spec.quantity.as_str())),
            funds: None,
        },
    )
}

/// The perps item an order becomes, before validation: a limit keeps its time in force, a
/// market order is IOC; a quote-denominated market buy carries `funds` and no price; the
/// position side is always one-way.
pub open spec fn perps_shape(spec: OrderSpec) -> OrderItem {
    let funds = spec.order_type == OrderType::Market && spec.quote_quantity;
    OrderItem {
        cl_ord_id: spec.cl_ord_id,
        modifier: crate::common::enums::OrderModifier::Normal,
        side: if funds {
            OrderSide::Buy
        } else {
            spec.side
        },
        order_type: spec.order_type,
        time_in_force: if spec.order_type == OrderType::Limit {
            spec.time_in_force
        } else {
            TimeInForce::Ioc
        },
        price: if funds {
            None
        } else {
            spec.price
        },
        quantity: if funds {
            None
        } else {
            Some(spec.quantity)
        },
        funds: if funds {
            Some(spec.quantity)
        } else {
            None
        },
        stop_price: None,
        stop_type: None,
        trigger_type: None,
        reduce_only: spec.reduce_only,
        position_side: PositionSide::Both,
    }
}

/// Two items agree field for field, text fields by value.
pub open spec fn same_item(a: OrderItem, b: OrderItem) -> bool {
    &&& a.cl_ord_id@ == b.cl_ord_id@
    &&& a.modifier == b.modifier
    &&& a.side == b.side
    &&& a.order_type == b.order_type
    &&& a.time_in_force == b.time_in_force
    &&& opt_view(a.price) == opt_view(b.price)
    &&& opt_view(a.quantity) == opt_view(b.quantity)
    &&& opt_view(a.funds) == opt_view(b.funds)
    &&& opt_view(a.stop_price) == opt_view(b.stop_price)
    &&& a.stop_type == b.stop_type
    &&& a.trigger_type == b.trigger_type
    &&& a.reduce_only == b.reduce_only
    &&& a.position_side == b.position_side
}

/// The error a perps conversion reports before validation, if any.
pub open spec fn perps_precheck(spec: OrderSpec) -> Option<OrderConversionError> {
    if spec.order_type == OrderType::Limit && spec.price is None {
        Some(OrderConversionError::LimitWithoutPrice)
    } else if spec.order_type == OrderType::Market && spec.quote_quantity && spec.side
        != OrderSide::Buy {
        Some(OrderConversionError::QuoteQuantityNotMarketBuy)
    } else {
        None
    }
}

/// Builds a perps order item and validates it against the venue's placement rules.
pub fn to_perps_order(spec: &OrderSpec) -> (r: Result<OrderItem, OrderConversionError>)
    ensures
        perps_precheck(*spec) matches Some(e) ==> r == Err::<OrderItem, OrderConversionError>(e),
        perps_precheck(*spec) is None && perps_shape(*spec).spec_validate() is Err ==> r == Err::<
            OrderItem,
            OrderConversionError,
        >(OrderConversionError::Request(perps_shape(*spec).spec_validate()->Err_0)),
        perps_precheck(*spec) is None && perps_shape(*spec).spec_validate() is Ok ==> (r matches Ok(
            item,
        ) && same_item(item, perps_shape(*spec))),
{
    let cl_ord_id = spec.cl_ord_id.duplicate();
    let mut item = match spec.order_type {
        OrderType::Limit => {
            let price = match &spec.price {
                Some(p) => p,
                None => return Err(OrderConversionError::LimitWithoutPrice),
            };
            match OrderItem::limit(
                cl_ord_id,
                spec.side,
                spec.time_in_force,
                price.as_str(),
                spec.quantity.as_str(),
            ) {
                Ok(item) => item,
                Err(e) => return Err(OrderConversionError::Request(e)),
            }
        },
        OrderType::Market => {
            if spec.quote_quantity {
                if spec.side != OrderSide::Buy {
                    return Err(OrderConversionError::QuoteQuantityNotMarketBuy);
                }
                OrderItem::market_buy_with_funds(cl_ord_id, spec.quantity.as_str())
            } else {
                let market = OrderItem::market(cl_ord_id, spec.side, spec.quantity.as_str());
                match &spec.price {
                    Some(p) => market.with_price_bound(p.as_str()),
                    None => market,
                }
            }
        },
    };
    if spec.reduce_only {
        item = item.reduce_only();
    }
    item.position_side = PositionSide::Both;
    match item.validate() {
        Ok(()) => Ok(item),
        Err(e) => Err(OrderConversionError::Request(e)),
    }
}

/// Maps a venue order status onto the engine's. `TRIGGERED` has no counterpart: a triggered
/// stop becomes an ordinary working order there, so the caller decides what to emit.
pub fn map_order_status(status: OrderStatus) -> (s: Option<EngineOrderStatus>)
    ensures
        s == (match status {
            OrderStatus::New => Some(EngineOrderStatus::Accepted),
            OrderStatus::PartiallyFilled => Some(EngineOrderStatus::PartiallyFilled),
            OrderStatus::Filled => Some(EngineOrderStatus::Filled),
            OrderStatus::Canceled => Some(EngineOrderStatus::Canceled),
            OrderStatus::Rejected => Some(EngineOrderStatus::Rejected),
            OrderStatus::Expired => Some(EngineOrderStatus::Expired),
            OrderStatus::Triggered => None,
        }),
{
    match status {
        OrderStatus::New => Some(EngineOrderStatus::Accepted),
        OrderStatus::PartiallyFilled => Some(EngineOrderStatus::PartiallyFilled),
        OrderStatus::Filled => Some(EngineOrderStatus::Filled),
        OrderStatus::Canceled => Some(EngineOrderStatus::Canceled),
        OrderStatus::Rejected => Some(EngineOrderStatus::Rejected),
        OrderStatus::Expired => Some(EngineOrderStatus::Expired),
        OrderStatus::Triggered => None,
    }
}

/// Whether an execution report represents a fill.
pub fn is_fill(execution_type: ExecutionType) -> (b: bool)
    ensures
        b == (execution_type == ExecutionType::PartiallyFilled || execution_type
            == ExecutionType::Filled),
{
    matches!(execution_type, ExecutionType::PartiallyFilled | ExecutionType::Filled)
}

} // verus!
