//! Signed perps trading request payloads.
//!
//! Field order is part of the wire contract: the signature commits to `keccak256` over the
//! compact JSON, and the gateway re-marshals the body through its own structs to verify.
//! Each `json` spec below states the exact bytes, in the venue's schema order.
//!
//! Constructors enforce the venue's placement rules up front: market orders are IOC,
//! `funds` is market-buy only, a cancel names an order one way or the other.
use vstd::prelude::*;

use crate::common::enums::{
    OrderModifier, OrderSide, OrderType, PositionSide, StopType, TimeInForce, TriggerType,
};
use crate::json::{
    json_array, json_bool, json_items, lemma_array_contains, lemma_occurs_between,
    lemma_occurs_extended, lemma_occurs_transitive, occurs_in, opt_decimal, opt_json_string, opt_member, push_array,
    push_bool, push_lit, push_opt_string, push_opt_u64, push_u64, ToJson,
};
use crate::text::{
    all_id_chars, chars_of, check_id_chars, debug_quoted, decimal, json_string, opt_view, owned,
    push_json_string, push_str, str_debug, string_from_chars, u64_decimal,
};

verus! {

/// Largest batch the venue accepts for orders, cancels and replaces.
pub const MAX_BATCH: usize = 100;

/// Errors raised while building a request.
#[derive(Debug, Clone, PartialEq, Eq)]
pub enum RequestError {
    /// The id does not match `^[0-9a-zA-Z_-]{1,36}$`; carries the id.
    ClientOrderId(String),
    /// A batch outside `1..=MAX_BATCH`; carries its length.
    BatchSize(usize),
    /// A market order whose time in force is not IOC.
    MarketTimeInForce(TimeInForce),
    /// A value the venue documents but does not accept for placement.
    Unsupported(&'static str),
    /// `funds` on anything but a market buy.
    FundsOnMarketBuyOnly,
    /// A cancel naming its order both ways or neither.
    CancelIdentification,
}

/// What a request error says.
pub open spec fn request_error_message(e: RequestError) -> Seq<char> {
    match e {
        RequestError::ClientOrderId(id) => "client order id must match ^[0-9a-zA-Z_-]{1,36}$, got "@
            + str_debug(id@),
        RequestError::BatchSize(n) => "batch must contain between 1 and 100 items, got "@ + decimal(
            n as nat,
        ),
        RequestError::MarketTimeInForce(t) => "market orders must use IOC time in force, got "@
            + t.wire_text(),
        RequestError::Unsupported(what) => what@ + " is not accepted by the venue for order placement"@,
        RequestError::FundsOnMarketBuyOnly => "funds is only valid for market buy orders"@,
        RequestError::CancelIdentification => "a cancel must name the order by exactly one of order id or client order id"@,
    }
}

impl RequestError {
    /// The error as text.
    pub fn message(&self) -> (s: String)
        ensures
            s@ == request_error_message(*self),
    {
        match self {
            RequestError::ClientOrderId(id) => {
                let mut s = owned("client order id must match ^[0-9a-zA-Z_-]{1,36}$, got ");
                let quoted = debug_quoted(id.as_str());
                push_str(&mut s, quoted.as_str());
                s
            },
            RequestError::BatchSize(n) => {
                let mut s = owned("batch must contain between 1 and 100 items, got ");
                let digits = u64_decimal(*n as u64);
                push_str(&mut s, digits.as_str());
                s
            },
            RequestError::MarketTimeInForce(t) => {
                let mut s = owned("market orders must use IOC time in force, got ");
                push_str(&mut s, t.as_str());
                s
            },
            RequestError::Unsupported(what) => {
                let mut s = owned(what);
                push_str(&mut s, " is not accepted by the venue for order placement");
                s
            },
            RequestError::FundsOnMarketBuyOnly => owned("funds is only valid for market buy orders"),
            RequestError::CancelIdentification => owned(
                "a cancel must name the order by exactly one of order id or client order id",
            ),
        }
    }
}

/// Whether a text is acceptable as a client order id: 1 to 36 characters from
/// `[0-9a-zA-Z_-]`.
pub open spec fn client_order_id_valid(s: Seq<char>) -> bool {
    1 <= s.len() <= 36 && all_id_chars(s)
}

/// A client-assigned order identifier, validated on construction because the venue rejects
/// the whole batch on a malformed id.
#[derive(Debug, Clone, PartialEq, Eq, Hash)]
pub struct ClientOrderId(String);

impl View for ClientOrderId {
    type V = Seq<char>;

    closed spec fn view(&self) -> Seq<char> {
        self.0@
    }
}

impl ClientOrderId {
    /// Accepts 1 to 36 characters from `[0-9a-zA-Z_-]`.
    pub fn parse(raw: &str) -> (r: Result<Self, RequestError>)
        ensures
            client_order_id_valid(raw@) ==> (r matches Ok(id) && id@ == raw@),
            !client_order_id_valid(raw@) ==> (r matches Err(RequestError::ClientOrderId(s))
                && s@ == raw@),
    {
        let chars = chars_of(raw);
        let valid_len = 1 <= chars.len() && chars.len() <= 36;
        let valid_chars = check_id_chars(&chars);
        if valid_len && valid_chars {
            Ok(ClientOrderId(string_from_chars(&chars)))
        } else {
            Err(RequestError::ClientOrderId(string_from_chars(&chars)))
        }
    }

    pub fn as_str(&self) -> (s: &str)
        ensures
            s@ == self@,
    {
        self.0.as_str()
    }

    /// An identical copy.
    pub fn duplicate(&self) -> (c: Self)
        ensures
            c == *self,
    {
        ClientOrderId(self.0.clone())
    }
}

/// Builder fee attached to a request.
#[derive(Debug, Clone, Copy, PartialEq, Eq)]
pub struct BuilderParams {
    /// Builder account id. Must be non-zero.
    pub id: u64,
    /// Fee rate in tenths of a basis point: `10` is 1 bp.
    pub fee: u64,
}

impl ToJson for BuilderParams {
    open spec fn json(&self) -> Seq<char> {
        "{\"id\":"@ + decimal(self.id as nat) + ",\"fee\":"@ + decimal(self.fee as nat) + "}"@
    }

    fn write_json(&self, out: &mut String) {
        push_lit(out, "{\"id\":");
        push_u64(out, self.id);
        push_lit(out, ",\"fee\":");
        push_u64(out, self.fee);
        push_lit(out, "}");
        proof {
            assert(out@ =~= old(out)@ + self.json());
        }
    }
}

/// An optional builder as an optional encoding.
pub open spec fn opt_builder_json(b: Option<BuilderParams>) -> Option<Seq<char>> {
    match b {
        Some(p) => Some(p.json()),
        None => None,
    }
}

/// Appends `,"builder":{...}` when a builder is attached.
pub fn push_opt_builder(out: &mut String, b: &Option<BuilderParams>)
    ensures
        final(out)@ == old(out)@ + opt_member(",\"builder\":"@, opt_builder_json(*b)),
{
    match b {
        Some(p) => {
            let ghost start = out@;
            push_lit(out, ",\"builder\":");
            p.write_json(out);
            proof {
                assert(out@ =~= start + (",\"builder\":"@ + p.json()));
            }
        },
        None => {
            proof {
                assert(out@ =~= old(out)@ + Seq::<char>::empty());
            }
        },
    }
}

/// The integer form of an optional stop type.
pub open spec fn opt_stop_type_int(t: Option<StopType>) -> Option<u64> {
    match t {
        Some(v) => Some(v.wire_int() as u64),
        None => None,
    }
}

/// The integer form of an optional trigger type.
pub open spec fn opt_trigger_type_int(t: Option<TriggerType>) -> Option<u64> {
    match t {
        Some(v) => Some(v.wire_int() as u64),
        None => None,
    }
}

/// The first error in a batch, checking items front to back.
pub open spec fn first_error<T>(
    items: Seq<T>,
    check: spec_fn(T) -> Result<(), RequestError>,
) -> Result<(), RequestError>
    decreases items.len(),
{
    if items.len() == 0 {
        Ok(())
    } else if check(items[0]) is Err {
        check(items[0])
    } else {
        first_error(items.drop_first(), check)
    }
}

/// What building a batch yields: a size error, the first item error, or success.
pub open spec fn batch_outcome<T>(
    items: Seq<T>,
    check: spec_fn(T) -> Result<(), RequestError>,
) -> Result<(), RequestError> {
    if items.len() == 0 || items.len() > MAX_BATCH {
        Err(RequestError::BatchSize(items.len() as usize))
    } else {
        first_error(items, check)
    }
}

/// A batch of one fails exactly as its item does.
pub proof fn lemma_single_batch<T>(item: T, check: spec_fn(T) -> Result<(), RequestError>)
    ensures
        first_error(seq![item], check) == check(item),
        batch_outcome(seq![item], check) == check(item),
{
    assert(seq![item].drop_first() =~= Seq::<T>::empty());
    assert(seq![item][0] == item);
    if check(item) is Ok {
        assert(first_error(Seq::<T>::empty(), check) == Ok::<(), RequestError>(()));
        let u: () = check(item)->Ok_0;
        assert(check(item) == Ok::<(), RequestError>(u));
    }
}

/// Skipping a valid item leaves the first error unchanged.
pub proof fn lemma_first_error_skip<T>(
    items: Seq<T>,
    check: spec_fn(T) -> Result<(), RequestError>,
    i: int,
)
    requires
        0 <= i < items.len(),
    ensures
        first_error(items.skip(i), check) == if check(items[i]) is Err {
            check(items[i])
        } else {
            first_error(items.skip(i + 1), check)
        },
{
    assert(items.skip(i).drop_first() == items.skip(i + 1));
    assert(items.skip(i)[0] == items[i]);
}

/// Whether a placement error is reported for an item, given its fields.
pub open spec fn placement_outcome(
    side: OrderSide,
    order_type: OrderType,
    time_in_force: TimeInForce,
    has_funds: bool,
) -> Result<(), RequestError> {
    if order_type == OrderType::Market && time_in_force != TimeInForce::Ioc {
        Err(RequestError::MarketTimeInForce(time_in_force))
    } else if has_funds && !(order_type == OrderType::Market && side == OrderSide::Buy) {
        Err(RequestError::FundsOnMarketBuyOnly)
    } else {
        Ok(())
    }
}

/// One order in a perps batch. Prefer the constructors, which encode which fields may
/// appear together.
#[derive(Debug, Clone, PartialEq, Eq)]
pub struct OrderItem {
    pub cl_ord_id: ClientOrderId,
    pub modifier: OrderModifier,
    pub side: OrderSide,
    pub order_type: OrderType,
    pub time_in_force: TimeInForce,
    pub price: Option<String>,
    pub quantity: Option<String>,
    /// Quote-denominated size. Market buy orders only.
    pub funds: Option<String>,
    pub stop_price: Option<String>,
    pub stop_type: Option<StopType>,
    pub trigger_type: Option<TriggerType>,
    pub reduce_only: bool,
    pub position_side: PositionSide,
}

impl OrderItem {
    /// The venue's placement rules, in the order they are checked.
    pub open spec fn spec_validate(self) -> Result<(), RequestError> {
        if !self.time_in_force.placeable() {
            Err(RequestError::Unsupported("FOK time in force"))
        } else if !self.position_side.placeable() {
            Err(RequestError::Unsupported("hedge-mode position side"))
        } else if (self.trigger_type matches Some(t) && !t.placeable()) {
            Err(RequestError::Unsupported("last/index price trigger"))
        } else {
            placement_outcome(self.side, self.order_type, self.time_in_force, self.funds is Some)
        }
    }

    /// A plain one-way order with only the sizing fields set.
    pub open spec fn is_plain(self) -> bool {
        &&& self.modifier == OrderModifier::Normal
        &&& self.stop_price is None
        &&& self.stop_type is None
        &&& self.trigger_type is None
        &&& !self.reduce_only
        &&& self.position_side == PositionSide::Both
    }

    /// A limit order.
    pub fn limit(
        cl_ord_id: ClientOrderId,
        side: OrderSide,
        time_in_force: TimeInForce,
        price: &str,
        quantity: &str,
    ) -> (r: Result<Self, RequestError>)
        ensures
            !time_in_force.placeable() ==> r == Err::<Self, RequestError>(
                RequestError::Unsupported("FOK time in force"),
            ),
            time_in_force.placeable() ==> (r matches Ok(o) && o.is_plain() && o.cl_ord_id
                == cl_ord_id && o.side == side && o.order_type == OrderType::Limit
                && o.time_in_force == time_in_force && opt_view(o.price) == Some(price@)
                && opt_view(o.quantity) == Some(quantity@) && o.funds is None),
    {
        if !time_in_force.is_supported_for_placement() {
            return Err(RequestError::Unsupported("FOK time in force"));
        }
        Ok(OrderItem {
            cl_ord_id,
            modifier: OrderModifier::Normal,
            side,
            order_type: OrderType::Limit,
            time_in_force,
            price: Some(owned(price)),
            quantity: Some(owned(quantity)),
            funds: None,
            stop_price: None,
            stop_type: None,
            trigger_type: None,
            reduce_only: false,
            position_side: PositionSide::Both,
        })
    }

    /// A market order sized in the base asset; time in force is fixed to IOC.
    pub fn market(cl_ord_id: ClientOrderId, side: OrderSide, quantity: &str) -> (o: Self)
        ensures
            o.is_plain(),
            o.cl_ord_id == cl_ord_id,
            o.side == side,
            o.order_type == OrderType::Market,
            o.time_in_force == TimeInForce::Ioc,
            o.price is None,
            opt_view(o.quantity) == Some(quantity@),
            o.funds is None,
    {
        OrderItem {
            cl_ord_id,
            modifier: OrderModifier::Normal,
            side,
            order_type: OrderType::Market,
            time_in_force: TimeInForce::Ioc,
            price: None,
            quantity: Some(owned(quantity)),
            funds: None,
            stop_price: None,
            stop_type: None,
            trigger_type: None,
            reduce_only: false,
            position_side: PositionSide::Both,
        }
    }

    /// A market buy sized in the quote asset.
    pub fn market_buy_with_funds(cl_ord_id: ClientOrderId, funds: &str) -> (o: Self)
        ensures
            o.is_plain(),
            o.cl_ord_id == cl_ord_id,
            o.side == OrderSide::Buy,
            o.order_type == OrderType::Market,
            o.time_in_force == TimeInForce::Ioc,
            o.price is None,
            o.quantity is None,
            opt_view(o.funds) == Some(funds@),
    {
        OrderItem {
            cl_ord_id,
            modifier: OrderModifier::Normal,
            side: OrderSide::Buy,
            order_type: OrderType::Market,
            time_in_force: TimeInForce::Ioc,
            price: None,
            quantity: None,
            funds: Some(owned(funds)),
            stop_price: None,
            stop_type: None,
            trigger_type: None,
            reduce_only: false,
            position_side: PositionSide::Both,
        }
    }

    /// Marks the order reduce-only.
    pub fn reduce_only(self) -> (o: Self)
        ensures
            o == (OrderItem { reduce_only: true, ..self }),
    {
        let mut o = self;
        o.reduce_only = true;
        o
    }

    /// Adds a price bound to a market order for slippage protection.
    pub fn with_price_bound(self, price: &str) -> (o: Self)
        ensures
            opt_view(o.price) == Some(price@),
            o == (OrderItem { price: o.price, ..self }),
    {
        let mut o = self;
        o.price = Some(owned(price));
        o
    }

    /// Checks the combination against the venue's documented placement rules, reporting
    /// the first rule violated.
    pub fn validate(&self) -> (r: Result<(), RequestError>)
        ensures
            r == self.spec_validate(),
    {
        if !self.time_in_force.is_supported_for_placement() {
            return Err(RequestError::Unsupported("FOK time in force"));
        }
        if !self.position_side.is_supported_for_placement() {
            return Err(RequestError::Unsupported("hedge-mode position side"));
        }
        match self.trigger_type {
            Some(t) => {
                if !t.is_supported_for_placement() {
                    return Err(RequestError::Unsupported("last/index price trigger"));
                }
            },
            None => {},
        }
        if self.order_type == OrderType::Market && self.time_in_force != TimeInForce::Ioc {
            return Err(RequestError::MarketTimeInForce(self.time_in_force));
        }
        if self.funds.is_some() && !(self.order_type == OrderType::Market && self.side
            == OrderSide::Buy) {
            return Err(RequestError::FundsOnMarketBuyOnly);
        }
        Ok(())
    }
}

impl ToJson for OrderItem {
    open spec fn json(&self) -> Seq<char> {
        "{\"clOrdID\":"@ + json_string(self.cl_ord_id@) + ",\"modifier\":"@ + decimal(
            self.modifier.wire_int() as nat,
        ) + ",\"side\":"@ + decimal(self.side.wire_int() as nat) + ",\"type\":"@ + decimal(
            self.order_type.wire_int() as nat,
        ) + ",\"timeInForce\":"@ + decimal(self.time_in_force.wire_int() as nat) + opt_member(
            ",\"price\":"@,
            opt_json_string(self.price),
        ) + opt_member(",\"quantity\":"@, opt_json_string(self.quantity)) + opt_member(
            ",\"funds\":"@,
            opt_json_string(self.funds),
        ) + opt_member(",\"stopPrice\":"@, opt_json_string(self.stop_price)) + opt_member(
            ",\"stopType\":"@,
            opt_decimal(opt_stop_type_int(self.stop_type)),
        ) + opt_member(",\"triggerType\":"@, opt_decimal(opt_trigger_type_int(self.trigger_type)))
            + ",\"reduceOnly\":"@ + json_bool(self.reduce_only) + ",\"positionSide\":"@ + decimal(
            self.position_side.wire_int() as nat,
        ) + "}"@
    }

    fn write_json(&self, out: &mut String) {
        let s = self.encode();
        push_str(out, s.as_str());
    }
}

impl OrderItem {
    /// The encoding, built from scratch.
    fn encode(&self) -> (out: String)
        ensures
            out@ == self.json(),
    {
        let mut out = owned("{\"clOrdID\":");
        push_json_string(&mut out, self.cl_ord_id.as_str());
        push_lit(&mut out, ",\"modifier\":");
        push_u64(&mut out, self.modifier.as_int() as u64);
        push_lit(&mut out, ",\"side\":");
        push_u64(&mut out, self.side.as_int() as u64);
        push_lit(&mut out, ",\"type\":");
        push_u64(&mut out, self.order_type.as_int() as u64);
        push_lit(&mut out, ",\"timeInForce\":");
        push_u64(&mut out, self.time_in_force.as_int() as u64);
        push_opt_string(&mut out, ",\"price\":", &self.price);
        push_opt_string(&mut out, ",\"quantity\":", &self.quantity);
        push_opt_string(&mut out, ",\"funds\":", &self.funds);
        push_opt_string(&mut out, ",\"stopPrice\":", &self.stop_price);
        let stop_type: Option<u64> = match self.stop_type {
            Some(t) => Some(t.as_int() as u64),
            None => None,
        };
        push_opt_u64(&mut out, ",\"stopType\":", stop_type);
        let trigger_type: Option<u64> = match self.trigger_type {
            Some(t) => Some(t.as_int() as u64),
            None => None,
        };
        push_opt_u64(&mut out, ",\"triggerType\":", trigger_type);
        push_lit(&mut out, ",\"reduceOnly\":");
        push_bool(&mut out, self.reduce_only);
        push_lit(&mut out, ",\"positionSide\":");
        push_u64(&mut out, self.position_side.as_int() as u64);
        push_lit(&mut out, "}");
        out
    }
}

/// Body of the perps `POST /trade/orders`.
#[derive(Debug, Clone, PartialEq, Eq)]
pub struct NewOrderRequest {
    pub account_id: u64,
    pub symbol_id: u64,
    pub orders: Vec<OrderItem>,
    pub builder: Option<BuilderParams>,
}

impl NewOrderRequest {
    /// Path this request is posted to.
    pub const ENDPOINT: &'static str = "/trade/orders";

    /// Action name for the signing payload.
    pub const ACTION: &'static str = "newOrder";

    /// The validation every item of a batch goes through.
    pub open spec fn item_check() -> spec_fn(OrderItem) -> Result<(), RequestError> {
        |o: OrderItem| o.spec_validate()
    }

    /// Builds a batch, validating its size and then every order front to back.
    pub fn new(account_id: u64, symbol_id: u64, orders: Vec<OrderItem>) -> (r: Result<
        Self,
        RequestError,
    >)
        ensures
            batch_outcome(orders@, Self::item_check()) is Err ==> r == Err::<Self, RequestError>(
                batch_outcome(orders@, Self::item_check())->Err_0,
            ),
            batch_outcome(orders@, Self::item_check()) is Ok ==> r == Ok::<Self, RequestError>(
                NewOrderRequest { account_id, symbol_id, orders, builder: None },
            ),
    {
        if orders.len() == 0 || orders.len() > MAX_BATCH {
            return Err(RequestError::BatchSize(orders.len()));
        }
        let mut i: usize = 0;
        proof {
            assert(orders@.skip(0) == orders@);
        }
        while i < orders.len()
            invariant
                i <= orders.len(),
                0 < orders.len() <= MAX_BATCH,
                first_error(orders@, Self::item_check()) == first_error(
                    orders@.skip(i as int),
                    Self::item_check(),
                ),
            decreases orders.len() - i,
        {
            proof {
                lemma_first_error_skip(orders@, Self::item_check(), i as int);
            }
            match orders[i].validate() {
                Err(e) => {
                    proof {
                        assert((Self::item_check())(orders@[i as int]) == orders@[i as int].spec_validate());
                    }
                    return Err(e);
                },
                Ok(()) => {},
            }
            i = i + 1;
        }
        proof {
            assert(orders@.skip(orders.len() as int) == Seq::<OrderItem>::empty());
        }
        Ok(NewOrderRequest { account_id, symbol_id, orders, builder: None })
    }

    /// Attaches a builder fee to every order in the batch.
    pub fn with_builder(self, builder: BuilderParams) -> (r: Self)
        ensures
            r == (NewOrderRequest { builder: Some(builder), ..self }),
    {
        let mut r = self;
        r.builder = Some(builder);
        r
    }

    /// The client order ids in submission order, for aligning the response.
    pub fn client_order_ids(&self) -> (ids: Vec<String>)
        ensures
            ids@.len() == self.orders@.len(),
            forall|i: int| 0 <= i < ids@.len() ==> #[trigger] ids@[i]@ == self.orders@[i].cl_ord_id@,
    {
        let mut ids: Vec<String> = Vec::new();
        let mut i: usize = 0;
        while i < self.orders.len()
            invariant
                i <= self.orders.len(),
                ids@.len() == i,
                forall|j: int| 0 <= j < i ==> #[trigger] ids@[j]@ == self.orders@[j].cl_ord_id@,
            decreases self.orders.len() - i,
        {
            ids.push(owned(self.orders[i].cl_ord_id.as_str()));
            i = i + 1;
        }
        ids
    }

    /// The exact body sent and hashed.
    pub fn to_json(&self) -> (s: String)
        ensures
            s@ == self.json(),
    {
        let mut out = String::new();
        self.write_json(&mut out);
        proof {
            assert(out@ =~= self.json());
        }
        out
    }
}

impl ToJson for NewOrderRequest {
    open spec fn json(&self) -> Seq<char> {
        "{\"accountID\":"@ + decimal(self.account_id as nat) + ",\"symbolID\":"@ + decimal(
            self.symbol_id as nat,
        ) + ",\"orders\":"@ + json_array(json_items(self.orders@)) + opt_member(
            ",\"builder\":"@,
            opt_builder_json(self.builder),
        ) + "}"@
    }

    fn write_json(&self, out: &mut String) {
        let ghost start = out@;
        push_lit(out, "{\"accountID\":");
        push_u64(out, self.account_id);
        push_lit(out, ",\"symbolID\":");
        push_u64(out, self.symbol_id);
        push_lit(out, ",\"orders\":");
        push_array(out, &self.orders);
        push_opt_builder(out, &self.builder);
        push_lit(out, "}");
        proof {
            assert(out@ =~= start + self.json());
        }
    }
}

/// One cancel in a perps batch.
#[derive(Debug, Clone, PartialEq, Eq)]
pub struct CancelItem {
    pub symbol_id: u64,
    pub order_id: Option<u64>,
    pub cl_ord_id: Option<ClientOrderId>,
}

/// An optional client order id as an optional string literal.
pub open spec fn opt_id_json(id: Option<ClientOrderId>) -> Option<Seq<char>> {
    match id {
        Some(c) => Some(json_string(c@)),
        None => None,
    }
}

/// Appends `key` and the id's string literal when present.
pub fn push_opt_id(out: &mut String, key: &str, id: &Option<ClientOrderId>)
    ensures
        final(out)@ == old(out)@ + opt_member(key@, opt_id_json(*id)),
{
    match id {
        Some(c) => {
            let ghost start = out@;
            push_lit(out, key);
            push_json_string(out, c.as_str());
            proof {
                assert(out@ =~= start + (key@ + json_string(c@)));
            }
        },
        None => {
            proof {
                assert(out@ =~= old(out)@ + Seq::<char>::empty());
            }
        },
    }
}

/// A cancel names its target one way: exactly one of the two identifiers is present.
pub open spec fn exactly_one(a: bool, b: bool) -> Result<(), RequestError> {
    if a != b {
        Ok(())
    } else {
        Err(RequestError::CancelIdentification)
    }
}

impl CancelItem {
    pub open spec fn spec_validate(self) -> Result<(), RequestError> {
        exactly_one(self.order_id is Some, self.cl_ord_id is Some)
    }

    /// Cancels by venue order id.
    pub fn by_order_id(symbol_id: u64, order_id: u64) -> (c: Self)
        ensures
            c == (CancelItem { symbol_id, order_id: Some(order_id), cl_ord_id: None }),
    {
        CancelItem { symbol_id, order_id: Some(order_id), cl_ord_id: None }
    }

    /// Cancels by client order id.
    pub fn by_client_order_id(symbol_id: u64, cl_ord_id: ClientOrderId) -> (c: Self)
        ensures
            c == (CancelItem { symbol_id, order_id: None, cl_ord_id: Some(cl_ord_id) }),
    {
        CancelItem { symbol_id, order_id: None, cl_ord_id: Some(cl_ord_id) }
    }

    /// Checks that exactly one identifier is present.
    pub fn validate(&self) -> (r: Result<(), RequestError>)
        ensures
            r == self.spec_validate(),
    {
        if self.order_id.is_some() != self.cl_ord_id.is_some() {
            Ok(())
        } else {
            Err(RequestError::CancelIdentification)
        }
    }
}

impl ToJson for CancelItem {
    open spec fn json(&self) -> Seq<char> {
        "{\"symbolID\":"@ + decimal(self.symbol_id as nat) + opt_member(
            ",\"orderID\":"@,
            opt_decimal(self.order_id),
        ) + opt_member(",\"clOrdID\":"@, opt_id_json(self.cl_ord_id)) + "}"@
    }

    fn write_json(&self, out: &mut String) {
        let ghost start = out@;
        push_lit(out, "{\"symbolID\":");
        push_u64(out, self.symbol_id);
        push_opt_u64(out, ",\"orderID\":", self.order_id);
        push_opt_id(out, ",\"clOrdID\":", &self.cl_ord_id);
        push_lit(out, "}");
        proof {
            assert(out@ =~= start + self.json());
        }
    }
}

/// Body of the perps `DELETE /trade/orders`.
#[derive(Debug, Clone, PartialEq, Eq)]
pub struct CancelOrderRequest {
    pub account_id: u64,
    pub cancels: Vec<CancelItem>,
}

impl CancelOrderRequest {
    /// Path this request is sent to, with `DELETE`.
    pub const ENDPOINT: &'static str = "/trade/orders";

    /// Action name for the signing payload.
    pub const ACTION: &'static str = "cancelOrder";

    pub open spec fn item_check() -> spec_fn(CancelItem) -> Result<(), RequestError> {
        |c: CancelItem| c.spec_validate()
    }

    /// Builds a cancel batch, validating its size and then every item front to back.
    pub fn new(account_id: u64, cancels: Vec<CancelItem>) -> (r: Result<Self, RequestError>)
        ensures
            batch_outcome(cancels@, Self::item_check()) is Err ==> r == Err::<
                Self,
                RequestError,
            >(batch_outcome(cancels@, Self::item_check())->Err_0),
            batch_outcome(cancels@, Self::item_check()) is Ok ==> r == Ok::<Self, RequestError>(
                CancelOrderRequest { account_id, cancels },
            ),
    {
        if cancels.len() == 0 || cancels.len() > MAX_BATCH {
            return Err(RequestError::BatchSize(cancels.len()));
        }
        let mut i: usize = 0;
        proof {
            assert(cancels@.skip(0) == cancels@);
        }
        while i < cancels.len()
            invariant
                i <= cancels.len(),
                0 < cancels.len() <= MAX_BATCH,
                first_error(cancels@, Self::item_check()) == first_error(
                    cancels@.skip(i as int),
                    Self::item_check(),
                ),
            decreases cancels.len() - i,
        {
            proof {
                lemma_first_error_skip(cancels@, Self::item_check(), i as int);
            }
            match cancels[i].validate() {
                Err(e) => {
                    proof {
                        assert((Self::item_check())(cancels@[i as int]) == cancels@[i as int].spec_validate());
                    }
                    return Err(e);
                },
                Ok(()) => {},
            }
            i = i + 1;
        }
        proof {
            assert(cancels@.skip(cancels.len() as int) == Seq::<CancelItem>::empty());
        }
        Ok(CancelOrderRequest { account_id, cancels })
    }

    /// The exact body sent and hashed.
    pub fn to_json(&self) -> (s: String)
        ensures
            s@ == self.json(),
    {
        let mut out = String::new();
        self.write_json(&mut out);
        proof {
            assert(out@ =~= self.json());
        }
        out
    }
}

impl ToJson for CancelOrderRequest {
    open spec fn json(&self) -> Seq<char> {
        "{\"accountID\":"@ + decimal(self.account_id as nat) + ",\"cancels\":"@ + json_array(
            json_items(self.cancels@),
        ) + "}"@
    }

    fn write_json(&self, out: &mut String) {
        let ghost start = out@;
        push_lit(out, "{\"accountID\":");
        push_u64(out, self.account_id);
        push_lit(out, ",\"cancels\":");
        push_array(out, &self.cancels);
        push_lit(out, "}");
        proof {
            assert(out@ =~= start + self.json());
        }
    }
}

/// An order's sizes travel under their own names: a quote-denominated size is sent as
/// `"funds"` and a base size as `"quantity"`, each with its text quoted, so the venue never
/// reads one as the other.
pub proof fn lemma_item_sizes_keep_their_names(item: OrderItem)
    ensures
        item.funds matches Some(f) ==> occurs_in(",\"funds\":"@ + json_string(f@), item.json()),
        item.quantity matches Some(q) ==> occurs_in(",\"quantity\":"@ + json_string(q@), item.json()),
{
    let head = "{\"clOrdID\":"@ + json_string(item.cl_ord_id@) + ",\"modifier\":"@ + decimal(
        item.modifier.wire_int() as nat,
    ) + ",\"side\":"@ + decimal(item.side.wire_int() as nat) + ",\"type\":"@ + decimal(
        item.order_type.wire_int() as nat,
    ) + ",\"timeInForce\":"@ + decimal(item.time_in_force.wire_int() as nat) + opt_member(
        ",\"price\":"@,
        opt_json_string(item.price),
    );
    let quantity = opt_member(",\"quantity\":"@, opt_json_string(item.quantity));
    let funds = opt_member(",\"funds\":"@, opt_json_string(item.funds));
    let a1 = opt_member(",\"stopPrice\":"@, opt_json_string(item.stop_price));
    let a2 = opt_member(",\"stopType\":"@, opt_decimal(opt_stop_type_int(item.stop_type)));
    let a3 = opt_member(",\"triggerType\":"@, opt_decimal(opt_trigger_type_int(item.trigger_type)));
    let a4 = ",\"reduceOnly\":"@;
    let a5 = json_bool(item.reduce_only);
    let a6 = ",\"positionSide\":"@;
    let a7 = decimal(item.position_side.wire_int() as nat);
    let a8 = "}"@;
    assert(item.json() == head + quantity + funds + a1 + a2 + a3 + a4 + a5 + a6 + a7 + a8);
    assert forall|part: Seq<char>| occurs_in(part, head + quantity + funds) implies occurs_in(
        part,
        item.json(),
    ) by {
        lemma_occurs_extended(part, head + quantity + funds, a1);
        lemma_occurs_extended(part, head + quantity + funds + a1, a2);
        lemma_occurs_extended(part, head + quantity + funds + a1 + a2, a3);
        lemma_occurs_extended(part, head + quantity + funds + a1 + a2 + a3, a4);
        lemma_occurs_extended(part, head + quantity + funds + a1 + a2 + a3 + a4, a5);
        lemma_occurs_extended(part, head + quantity + funds + a1 + a2 + a3 + a4 + a5, a6);
        lemma_occurs_extended(part, head + quantity + funds + a1 + a2 + a3 + a4 + a5 + a6, a7);
        lemma_occurs_extended(part, head + quantity + funds + a1 + a2 + a3 + a4 + a5 + a6 + a7, a8);
    }
    lemma_occurs_between(head + quantity, funds, seq![]);
    assert(head + quantity + funds + Seq::<char>::empty() =~= head + quantity + funds);
    lemma_occurs_between(head, quantity, seq![]);
    assert(head + quantity + Seq::<char>::empty() =~= head + quantity);
    if item.quantity is Some {
        lemma_occurs_extended(quantity, head + quantity, funds);
    }
}

/// A perps order request carries each of its orders whole, so each order's funds and
/// quantity reach the venue under their own names.
pub proof fn lemma_request_carries_each_order(request: NewOrderRequest, i: int)
    requires
        0 <= i < request.orders@.len(),
    ensures
        occurs_in(request.orders@[i].json(), request.json()),
        request.orders@[i].funds matches Some(f) ==> occurs_in(
            ",\"funds\":"@ + json_string(f@),
            request.json(),
        ),
        request.orders@[i].quantity matches Some(q) ==> occurs_in(
            ",\"quantity\":"@ + json_string(q@),
            request.json(),
        ),
{
    let items = json_items(request.orders@);
    assert(items[i] == request.orders@[i].json());
    lemma_array_contains(items, i);
    let before = "{\"accountID\":"@ + decimal(request.account_id as nat) + ",\"symbolID\":"@
        + decimal(request.symbol_id as nat) + ",\"orders\":"@;
    let after = opt_member(",\"builder\":"@, opt_builder_json(request.builder)) + "}"@;
    assert(request.json() =~= before + json_array(items) + after);
    lemma_occurs_between(before, json_array(items), after);
    lemma_occurs_transitive(items[i], json_array(items), request.json());
    lemma_item_sizes_keep_their_names(request.orders@[i]);
    let item = request.orders@[i];
    if let Some(f) = item.funds {
        lemma_occurs_transitive(",\"funds\":"@ + json_string(f@), item.json(), request.json());
    }
    if let Some(q) = item.quantity {
        lemma_occurs_transitive(",\"quantity\":"@ + json_string(q@), item.json(), request.json());
    }
}

} // verus!
