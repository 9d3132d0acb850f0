//! Spot trading request payloads.
//!
//! Spot and perps differ in ways that both serialize cleanly:
//!
//! - `symbolID` lives on the order item, not on the request, so a spot batch can span
//!   symbols.
//! - A spot cancel carries two client order ids: `clOrdID` labels the cancellation itself
//!   and `origClOrdID` names the order being cancelled.
//! - Spot batches go to `/trade/orders/batch`; spot's `/trade/orders` is a single-order
//!   endpoint.
//!
//! Spot items have no modifier, stop, trigger, reduce-only or position side.
use vstd::prelude::*;

use super::requests::{
    batch_outcome, exactly_one, first_error, lemma_first_error_skip, opt_builder_json,
    placement_outcome, push_opt_builder, BuilderParams, ClientOrderId, RequestError, MAX_BATCH,
};
use crate::common::enums::{OrderSide, OrderType, TimeInForce};
use crate::json::{
    json_array, json_items, lemma_array_contains, lemma_occurs_between, lemma_occurs_extended,
    lemma_occurs_transitive, occurs_in, opt_decimal, opt_json_string, opt_member, push_array,
    push_lit, push_opt_string, push_opt_u64, push_u64, ToJson,
};
use crate::text::{decimal, json_string, opt_view, owned, push_json_string, push_str};

verus! {

/// One spot order. The venue calls this `BatchNewOrderItem`.
#[derive(Debug, Clone, PartialEq, Eq)]
pub struct SpotOrderItem {
    pub symbol_id: u64,
    pub cl_ord_id: ClientOrderId,
    pub side: OrderSide,
    pub order_type: OrderType,
    pub time_in_force: TimeInForce,
    pub price: Option<String>,
    pub quantity: Option<String>,
    /// Quote-denominated size. Market buy orders only.
    pub funds: Option<String>,
}

impl SpotOrderItem {
    /// The venue's placement rules, in the order they are checked.
    pub open spec fn spec_validate(self) -> Result<(), RequestError> {
        if !self.time_in_force.placeable() {
            Err(RequestError::Unsupported("FOK time in force"))
        } else {
            placement_outcome(self.side, self.order_type, self.time_in_force, self.funds is Some)
        }
    }

    /// A limit order.
    pub fn limit(
        symbol_id: u64,
        cl_ord_id: ClientOrderId,
        side: OrderSide,
        time_in_force: TimeInForce,
        price: &str,
        quantity: &str,
    ) -> (r: Result<Self, RequestError>)
        ensures
            !time_in_force.placeable() ==> r == Err::<Self, RequestError>(
                RequestError::Unsupported("FOK time in force"),
            ),
            time_in_force.placeable() ==> (r matches Ok(o) && o.symbol_id == symbol_id
                && o.cl_ord_id == cl_ord_id && o.side == side && o.order_type == OrderType::Limit
                && o.time_in_force == time_in_force && opt_view(o.price) == Some(price@)
                && opt_view(o.quantity) == Some(quantity@) && o.funds is None),
    {
        if !time_in_force.is_supported_for_placement() {
            return Err(RequestError::Unsupported("FOK time in force"));
        }
        Ok(SpotOrderItem {
            symbol_id,
            cl_ord_id,
            side,
            order_type: OrderType::Limit,
            time_in_force,
            price: Some(owned(price)),
            quantity: Some(owned(quantity)),
            funds: None,
        })
    }

    /// A market order sized in the base asset; time in force is fixed to IOC.
    pub fn market(symbol_id: u64, cl_ord_id: ClientOrderId, side: OrderSide, quantity: &str) -> (o:
        Self)
        ensures
            o.symbol_id == symbol_id,
            o.cl_ord_id == cl_ord_id,
            o.side == side,
            o.order_type == OrderType::Market,
            o.time_in_force == TimeInForce::Ioc,
            o.price is None,
            opt_view(o.quantity) == Some(quantity@),
            o.funds is None,
    {
        SpotOrderItem {
            symbol_id,
            cl_ord_id,
            side,
            order_type: OrderType::Market,
            time_in_force: TimeInForce::Ioc,
            price: None,
            quantity: Some(owned(quantity)),
            funds: None,
        }
    }

    /// Checks the combination against the venue's placement rules, reporting the first
    /// rule violated.
    pub fn validate(&self) -> (r: Result<(), RequestError>)
        ensures
            r == self.spec_validate(),
    {
        if !self.time_in_force.is_supported_for_placement() {
            return Err(RequestError::Unsupported("FOK time in force"));
        }
        if self.order_type == OrderType::Market && self.time_in_force != TimeInForce::Ioc {
            return Err(RequestError::MarketTimeInForce(self.time_in_force));
        }
        if self.funds.is_some() && !(self.order_type == OrderType::Market && self.side
            == OrderSide::Buy) {
            return Err(RequestError::FundsOnMarketBuyOnly);
        }
        Ok(())
    }

    /// The encoding, built from scratch.
    fn encode(&self) -> (out: String)
        ensures
            out@ == self.json(),
    {
        let mut out = owned("{\"symbolID\":");
        push_u64(&mut out, self.symbol_id);
        push_lit(&mut out, ",\"clOrdID\":");
        push_json_string(&mut out, self.cl_ord_id.as_str());
        push_lit(&mut out, ",\"side\":");
        push_u64(&mut out, self.side.as_int() as u64);
        push_lit(&mut out, ",\"type\":");
        push_u64(&mut out, self.order_type.as_int() as u64);
        push_lit(&mut out, ",\"timeInForce\":");
        push_u64(&mut out, self.time_in_force.as_int() as u64);
        push_opt_string(&mut out, ",\"price\":", &self.price);
        push_opt_string(&mut out, ",\"quantity\":", &self.quantity);
        push_opt_string(&mut out, ",\"funds\":", &self.funds);
        push_lit(&mut out, "}");
        out
    }

    /// The exact JSON of this item.
    pub fn to_json(&self) -> (s: String)
        ensures
            s@ == self.json(),
    {
        self.encode()
    }
}

impl ToJson for SpotOrderItem {
    open spec fn json(&self) -> Seq<char> {
        "{\"symbolID\":"@ + decimal(self.symbol_id as nat) + ",\"clOrdID\":"@ + json_string(
            self.cl_ord_id@,
        ) + ",\"side\":"@ + decimal(self.side.wire_int() as nat) + ",\"type\":"@ + decimal(
            self.order_type.wire_int() as nat,
        ) + ",\"timeInForce\":"@ + decimal(self.time_in_force.wire_int() as nat) + opt_member(
            ",\"price\":"@,
            opt_json_string(self.price),
        ) + opt_member(",\"quantity\":"@, opt_json_string(self.quantity)) + opt_member(
            ",\"funds\":"@,
            opt_json_string(self.funds),
        ) + "}"@
    }

    fn write_json(&self, out: &mut String) {
        let s = self.encode();
        push_str(out, s.as_str());
    }
}

/// Body of the spot batch order request. The venue calls this `BatchNewOrderRequest`; each
/// order names its own symbol.
#[derive(Debug, Clone, PartialEq, Eq)]
pub struct SpotNewOrderRequest {
    pub account_id: u64,
    pub orders: Vec<SpotOrderItem>,
    pub builder: Option<BuilderParams>,
}

impl SpotNewOrderRequest {
    /// Path this request must be posted to. Not `/trade/orders`, spot's single-order
    /// endpoint, which rejects a batch.
    pub const ENDPOINT: &'static str = "/trade/orders/batch";

    /// Action name for the signing payload.
    pub const ACTION: &'static str = "batchNewOrder";

    pub open spec fn item_check() -> spec_fn(SpotOrderItem) -> Result<(), RequestError> {
        |o: SpotOrderItem| o.spec_validate()
    }

    /// Builds a batch, validating its size and then every order front to back.
    pub fn new(account_id: u64, orders: Vec<SpotOrderItem>) -> (r: Result<Self, RequestError>)
        ensures
            batch_outcome(orders@, Self::item_check()) is Err ==> r == Err::<Self, RequestError>(
                batch_outcome(orders@, Self::item_check())->Err_0,
            ),
            batch_outcome(orders@, Self::item_check()) is Ok ==> r == Ok::<Self, RequestError>(
                SpotNewOrderRequest { account_id, orders, builder: None },
            ),
    {
        if orders.len() == 0 || orders.len() > MAX_BATCH {
            return Err(RequestError::BatchSize(orders.len()));
        }
        let mut i: usize = 0;
        proof {
            assert(orders@.skip(0) == orders@);
        }
        while i < orders.len()
            invariant
                i <= orders.len(),
                0 < orders.len() <= MAX_BATCH,
                first_error(orders@, Self::item_check()) == first_error(
                    orders@.skip(i as int),
                    Self::item_check(),
                ),
            decreases orders.len() - i,
        {
            proof {
                lemma_first_error_skip(orders@, Self::item_check(), i as int);
            }
            match orders[i].validate() {
                Err(e) => {
                    proof {
                        assert((Self::item_check())(orders@[i as int]) == orders@[
                            i as int
                        ].spec_validate());
                    }
                    return Err(e);
                },
                Ok(()) => {},
            }
            i = i + 1;
        }
        proof {
            assert(orders@.skip(orders.len() as int) == Seq::<SpotOrderItem>::empty());
        }
        Ok(SpotNewOrderRequest { account_id, orders, builder: None })
    }

    /// The client order ids in submission order, for aligning the response.
    pub fn client_order_ids(&self) -> (ids: Vec<String>)
        ensures
            ids@.len() == self.orders@.len(),
            forall|i: int| 0 <= i < ids@.len() ==> #[trigger] ids@[i]@ == self.orders@[i].cl_ord_id@,
    {
        let mut ids: Vec<String> = Vec::new();
        let mut i: usize = 0;
        while i < self.orders.len()
            invariant
                i <= self.orders.len(),
                ids@.len() == i,
                forall|j: int| 0 <= j < i ==> #[trigger] ids@[j]@ == self.orders@[j].cl_ord_id@,
            decreases self.orders.len() - i,
        {
            ids.push(owned(self.orders[i].cl_ord_id.as_str()));
            i = i + 1;
        }
        ids
    }

    /// The exact body sent and hashed.
    pub fn to_json(&self) -> (s: String)
        ensures
            s@ == self.json(),
    {
        let mut out = String::new();
        self.write_json(&mut out);
        proof {
            assert(out@ =~= self.json());
        }
        out
    }
}

impl ToJson for SpotNewOrderRequest {
    open spec fn json(&self) -> Seq<char> {
        "{\"accountID\":"@ + decimal(self.account_id as nat) + ",\"orders\":"@ + json_array(
            json_items(self.orders@),
        ) + opt_member(",\"builder\":"@, opt_builder_json(self.builder)) + "}"@
    }

    fn write_json(&self, out: &mut String) {
        let ghost start = out@;
        push_lit(out, "{\"accountID\":");
        push_u64(out, self.account_id);
        push_lit(out, ",\"orders\":");
        push_array(out, &self.orders);
        push_opt_builder(out, &self.builder);
        push_lit(out, "}");
        proof {
            assert(out@ =~= start + self.json());
        }
    }
}

/// One spot cancellation. The venue calls this `BatchCancelOrderItem`: `cl_ord_id` labels
/// this cancellation, `orig_cl_ord_id` names the order to cancel.
#[derive(Debug, Clone, PartialEq, Eq)]
pub struct SpotCancelItem {
    pub symbol_id: u64,
    /// Identifier for this cancellation request. Required.
    pub cl_ord_id: ClientOrderId,
    /// Venue order id to cancel.
    pub order_id: Option<u64>,
    /// Client order id of the order to cancel.
    pub orig_cl_ord_id: Option<ClientOrderId>,
}

impl SpotCancelItem {
    pub open spec fn spec_validate(self) -> Result<(), RequestError> {
        exactly_one(self.order_id is Some, self.orig_cl_ord_id is Some)
    }

    /// Cancels by venue order id.
    pub fn by_order_id(symbol_id: u64, request_id: ClientOrderId, order_id: u64) -> (c: Self)
        ensures
            c == (SpotCancelItem {
                symbol_id,
                cl_ord_id: request_id,
                order_id: Some(order_id),
                orig_cl_ord_id: None,
            }),
    {
        SpotCancelItem {
            symbol_id,
            cl_ord_id: request_id,
            order_id: Some(order_id),
            orig_cl_ord_id: None,
        }
    }

    /// Cancels by the client order id of the order to cancel.
    pub fn by_client_order_id(
        symbol_id: u64,
        request_id: ClientOrderId,
        target: ClientOrderId,
    ) -> (c: Self)
        ensures
            c == (SpotCancelItem {
                symbol_id,
                cl_ord_id: request_id,
                order_id: None,
                orig_cl_ord_id: Some(target),
            }),
    {
        SpotCancelItem { symbol_id, cl_ord_id: request_id, order_id: None, orig_cl_ord_id: Some(target) }
    }

    /// Checks that exactly one target identifier is present.
    pub fn validate(&self) -> (r: Result<(), RequestError>)
        ensures
            r == self.spec_validate(),
    {
        if self.order_id.is_some() != self.orig_cl_ord_id.is_some() {
            Ok(())
        } else {
            Err(RequestError::CancelIdentification)
        }
    }

    /// The encoding, built from scratch.
    fn encode(&self) -> (out: String)
        ensures
            out@ == self.json(),
    {
        let mut out = owned("{\"symbolID\":");
        push_u64(&mut out, self.symbol_id);
        push_lit(&mut out, ",\"clOrdID\":");
        push_json_string(&mut out, self.cl_ord_id.as_str());
        push_opt_u64(&mut out, ",\"orderID\":", self.order_id);
        super::requests::push_opt_id(&mut out, ",\"origClOrdID\":", &self.orig_cl_ord_id);
        push_lit(&mut out, "}");
        out
    }

    /// The exact JSON of this cancellation.
    pub fn to_json(&self) -> (s: String)
        ensures
            s@ == self.json(),
    {
        self.encode()
    }
}

impl ToJson for SpotCancelItem {
    open spec fn json(&self) -> Seq<char> {
        "{\"symbolID\":"@ + decimal(self.symbol_id as nat) + ",\"clOrdID\":"@ + json_string(
            self.cl_ord_id@,
        ) + opt_member(",\"orderID\":"@, opt_decimal(self.order_id)) + opt_member(
            ",\"origClOrdID\":"@,
            super::requests::opt_id_json(self.orig_cl_ord_id),
        ) + "}"@
    }

    fn write_json(&self, out: &mut String) {
        let s = self.encode();
        push_str(out, s.as_str());
    }
}

/// Body of the spot batch cancel request.
#[derive(Debug, Clone, PartialEq, Eq)]
pub struct SpotCancelOrderRequest {
    pub account_id: u64,
    pub cancels: Vec<SpotCancelItem>,
}

impl SpotCancelOrderRequest {
    /// Path this request must be sent to, with `DELETE`.
    pub const ENDPOINT: &'static str = "/trade/orders/batch";

    /// Action name for the signing payload.
    pub const ACTION: &'static str = "cancelOrder";

    pub open spec fn item_check() -> spec_fn(SpotCancelItem) -> Result<(), RequestError> {
        |c: SpotCancelItem| c.spec_validate()
    }

    /// Builds a cancel batch, validating its size and then every item front to back.
    pub fn new(account_id: u64, cancels: Vec<SpotCancelItem>) -> (r: Result<Self, RequestError>)
        ensures
            batch_outcome(cancels@, Self::item_check()) is Err ==> r == Err::<
                Self,
                RequestError,
            >(batch_outcome(cancels@, Self::item_check())->Err_0),
            batch_outcome(cancels@, Self::item_check()) is Ok ==> r == Ok::<Self, RequestError>(
                SpotCancelOrderRequest { account_id, cancels },
            ),
    {
        if cancels.len() == 0 || cancels.len() > MAX_BATCH {
            return Err(RequestError::BatchSize(cancels.len()));
        }
        let mut i: usize = 0;
        proof {
            assert(cancels@.skip(0) == cancels@);
        }
        while i < cancels.len()
            invariant
                i <= cancels.len(),
                0 < cancels.len() <= MAX_BATCH,
                first_error(cancels@, Self::item_check()) == first_error(
                    cancels@.skip(i as int),
                    Self::item_check(),
                ),
            decreases cancels.len() - i,
        {
            proof {
                lemma_first_error_skip(cancels@, Self::item_check(), i as int);
            }
            match cancels[i].validate() {
                Err(e) => {
                    proof {
                        assert((Self::item_check())(cancels@[i as int]) == cancels@[
                            i as int
                        ].spec_validate());
                    }
                    return Err(e);
                },
                Ok(()) => {},
            }
            i = i + 1;
        }
        proof {
            assert(cancels@.skip(cancels.len() as int) == Seq::<SpotCancelItem>::empty());
        }
        Ok(SpotCancelOrderRequest { account_id, cancels })
    }

    /// The exact body sent and hashed.
    pub fn to_json(&self) -> (s: String)
        ensures
            s@ == self.json(),
    {
        let mut out = String::new();
        self.write_json(&mut out);
        proof {
            assert(out@ =~= self.json());
        }
        out
    }
}

impl ToJson for SpotCancelOrderRequest {
    open spec fn json(&self) -> Seq<char> {
        "{\"accountID\":"@ + decimal(self.account_id as nat) + ",\"cancels\":"@ + json_array(
            json_items(self.cancels@),
        ) + "}"@
    }

    fn write_json(&self, out: &mut String) {
        let ghost start = out@;
        push_lit(out, "{\"accountID\":");
        push_u64(out, self.account_id);
        push_lit(out, ",\"cancels\":");
        push_array(out, &self.cancels);
        push_lit(out, "}");
        proof {
            assert(out@ =~= start + self.json());
        }
    }
}

/// A spot order's sizes travel under their own names: a quote-denominated size is sent as
/// `"funds"` and a base size as `"quantity"`, each with its text quoted.
pub proof fn lemma_spot_item_sizes_keep_their_names(item: SpotOrderItem)
    ensures
        item.funds matches Some(f) ==> occurs_in(",\"funds\":"@ + json_string(f@), item.json()),
        item.quantity matches Some(q) ==> occurs_in(",\"quantity\":"@ + json_string(q@), item.json()),
{
    let head = "{\"symbolID\":"@ + decimal(item.symbol_id as nat) + ",\"clOrdID\":"@ + json_string(
        item.cl_ord_id@,
    ) + ",\"side\":"@ + decimal(item.side.wire_int() as nat) + ",\"type\":"@ + decimal(
        item.order_type.wire_int() as nat,
    ) + ",\"timeInForce\":"@ + decimal(item.time_in_force.wire_int() as nat) + opt_member(
        ",\"price\":"@,
        opt_json_string(item.price),
    );
    let quantity = opt_member(",\"quantity\":"@, opt_json_string(item.quantity));
    let funds = opt_member(",\"funds\":"@, opt_json_string(item.funds));
    let close = "}"@;
    assert(item.json() == head + quantity + funds + close);
    lemma_occurs_between(head + quantity, funds, close);
    lemma_occurs_between(head, quantity, seq![]);
    assert(head + quantity + Seq::<char>::empty() =~= head + quantity);
    if item.quantity is Some {
        lemma_occurs_extended(quantity, head + quantity, funds);
        lemma_occurs_extended(quantity, head + quantity + funds, close);
    }
}

/// A spot batch request carries each of its orders whole, so each order's funds and
/// quantity reach the venue under their own names.
pub proof fn lemma_spot_request_carries_each_order(request: SpotNewOrderRequest, i: int)
    requires
        0 <= i < request.orders@.len(),
    ensures
        occurs_in(request.orders@[i].json(), request.json()),
        request.orders@[i].funds matches Some(f) ==> occurs_in(
            ",\"funds\":"@ + json_string(f@),
            request.json(),
        ),
        request.orders@[i].quantity matches Some(q) ==> occurs_in(
            ",\"quantity\":"@ + json_string(q@),
            request.json(),
        ),
{
    let items = json_items(request.orders@);
    assert(items[i] == request.orders@[i].json());
    lemma_array_contains(items, i);
    let before = "{\"accountID\":"@ + decimal(request.account_id as nat) + ",\"orders\":"@;
    let after = opt_member(",\"builder\":"@, opt_builder_json(request.builder)) + "}"@;
    assert(request.json() =~= before + json_array(items) + after);
    lemma_occurs_between(before, json_array(items), after);
    lemma_occurs_transitive(items[i], json_array(items), request.json());
    lemma_spot_item_sizes_keep_their_names(request.orders@[i]);
    let item = request.orders@[i];
    if let Some(f) = item.funds {
        lemma_occurs_transitive(",\"funds\":"@ + json_string(f@), item.json(), request.json());
    }
    if let Some(q) = item.quantity {
        lemma_occurs_transitive(",\"quantity\":"@ + json_string(q@), item.json(), request.json());
    }
}

} // verus!
