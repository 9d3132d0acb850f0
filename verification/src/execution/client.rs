//! The decisions of the execution client: which request a submission or cancellation
//! becomes on each engine, how a cancellation is labelled, and what an acknowledgement
//! means for the order.
use vstd::prelude::*;

use super::parse::{
    conversion_error_message, id_refusal_message, initialized_refusal, spec_matches,
    to_perps_order, to_spot_order, OrderConversionError, OrderInitialized, OrderSpec,
};
use crate::data::parse::{instrument_text, InstrumentId};
use crate::common::Market;
use crate::http::requests::{
    client_order_id_valid, request_error_message, CancelItem, CancelOrderRequest, ClientOrderId,
    NewOrderRequest, RequestError,
};
use crate::http::spot::{SpotCancelItem, SpotCancelOrderRequest, SpotNewOrderRequest};
use crate::json::push_lit;
use crate::text::{
    all_id_chars, chars_of, decimal, id_char, is_ascii_digit, is_id_char, owned, push_char,
    string_from_chars, u64_decimal,
};

verus! {

/// The venue's answer for one order of a batch.
#[derive(Debug, Clone, PartialEq, Eq)]
pub struct OrderAck {
    /// The venue's id for the order, when it assigned one.
    pub order_id: Option<u64>,
    /// Whether the venue accepted the order or cancel.
    pub success: bool,
    /// The venue's reason for a refusal.
    pub error: Option<String>,
}

impl OrderAck {
    pub fn is_success(&self) -> (b: bool)
        ensures
            b == self.success,
    {
        self.success
    }
}

/// Why an order could not be turned into a request.
#[derive(Debug, Clone, PartialEq, Eq)]
pub enum BuildError {
    Conversion(OrderConversionError),
    Request(RequestError),
}

/// A submission prepared for one engine.
#[derive(Debug)]
pub enum Submission {
    Spot(SpotNewOrderRequest),
    Perps(NewOrderRequest),
}

/// Why `spec` cannot be submitted on `market`, as text; `None` when it can. On spot the
/// conversion is checked first (reduce-only, quote-denominated size, a limit's price), then
/// the placement rules of the item; on perps the price and size first, then the placement
/// rules.
pub open spec fn submission_refusal(spec: OrderSpec, market: Market) -> Option<Seq<char>> {
    match market {
        Market::Spot => if spec.reduce_only {
            Some(crate::execution::parse::REDUCE_ONLY_ON_SPOT@ + " is not supported by SoDEX"@)
        } else if spec.quote_quantity && !(spec.order_type == crate::common::enums::OrderType::Market
            && spec.side == crate::common::enums::OrderSide::Buy) {
            Some(conversion_error_message(OrderConversionError::QuoteQuantityNotMarketBuy))
        } else if !spec.quote_quantity && spec.order_type == crate::common::enums::OrderType::Limit
            && spec.price is None {
            Some(conversion_error_message(OrderConversionError::LimitWithoutPrice))
        } else if !spec.time_in_force.placeable() {
            Some(request_error_message(RequestError::Unsupported("FOK time in force")))
        } else {
            match crate::http::requests::placement_outcome(
                spec.side,
                spec.order_type,
                spec.time_in_force,
                spec.quote_quantity,
            ) {
                Err(e) => Some(request_error_message(e)),
                Ok(_) => None,
            }
        },
        Market::Perps => match crate::execution::parse::perps_precheck(spec) {
            Some(e) => Some(conversion_error_message(e)),
            None => match crate::execution::parse::perps_shape(spec).spec_validate() {
                Err(e) => Some(request_error_message(e)),
                Ok(_) => None,
            },
        },
    }
}

/// Whether a submission is the one-order request for `market` built from `spec`: on spot
/// the symbol on the item, on perps once on the request.
pub open spec fn submission_matches(
    sub: Submission,
    spec: OrderSpec,
    market: Market,
    account_id: u64,
    symbol_id: u64,
) -> bool {
    match sub {
        Submission::Spot(req) => {
            &&& market == Market::Spot
            &&& req.account_id == account_id
            &&& req.orders@.len() == 1
            &&& crate::execution::parse::spot_item_matches(req.orders@[0], spec, symbol_id)
            &&& req.builder is None
        },
        Submission::Perps(req) => {
            &&& market == Market::Perps
            &&& req.account_id == account_id
            &&& req.symbol_id == symbol_id
            &&& req.orders@.len() == 1
            &&& crate::execution::parse::same_item(
                req.orders@[0],
                crate::execution::parse::perps_shape(spec),
            )
            &&& req.builder is None
        },
    }
}

impl Submission {
    /// A one-order batch for the engine: on spot the symbol travels on the item, on perps
    /// once on the request.
    pub fn build(spec: &OrderSpec, market: Market, account_id: u64, symbol_id: u64) -> (r: Result<
        Self,
        BuildError,
    >)
        ensures
            r matches Ok(sub) ==> submission_matches(sub, *spec, market, account_id, symbol_id),
            match submission_refusal(*spec, market) {
                Some(m) => r matches Err(e) && build_error_message(e) == m,
                None => r is Ok,
            },
    {
        match market {
            Market::Spot => {
                let item = match to_spot_order(spec, symbol_id) {
                    Ok(i) => i,
                    Err(e) => return Err(BuildError::Conversion(e)),
                };
                proof {
                    crate::http::requests::lemma_single_batch(item, SpotNewOrderRequest::item_check());
                    assert((SpotNewOrderRequest::item_check())(item) == item.spec_validate());
                }
                let mut items = Vec::new();
                items.push(item);
                proof {
                    assert(items@ =~= seq![item]);
                }
                match SpotNewOrderRequest::new(account_id, items) {
                    Ok(req) => Ok(Submission::Spot(req)),
                    Err(e) => Err(BuildError::Request(e)),
                }
            },
            Market::Perps => {
                let item = match to_perps_order(spec) {
                    Ok(i) => i,
                    Err(e) => return Err(BuildError::Conversion(e)),
                };
                proof {
                    crate::http::requests::lemma_single_batch(item, NewOrderRequest::item_check());
                    assert((NewOrderRequest::item_check())(item) == item.spec_validate());
                }
                let mut items = Vec::new();
                items.push(item);
                proof {
                    assert(items@ =~= seq![item]);
                }
                match NewOrderRequest::new(account_id, symbol_id, items) {
                    Ok(req) => Ok(Submission::Perps(req)),
                    Err(e) => Err(BuildError::Request(e)),
                }
            },
        }
    }

    /// The client order ids in submission order, by which the venue's answers can be matched
    /// to the orders.
    pub fn client_order_ids(&self) -> (ids: Vec<String>)
        ensures
            match self {
                Submission::Spot(req) => ids@.len() == req.orders@.len() && forall|i: int|
                    0 <= i < ids@.len() ==> #[trigger] ids@[i]@ == req.orders@[i].cl_ord_id@,
                Submission::Perps(req) => ids@.len() == req.orders@.len() && forall|i: int|
                    0 <= i < ids@.len() ==> #[trigger] ids@[i]@ == req.orders@[i].cl_ord_id@,
            },
    {
        match self {
            Submission::Spot(req) => req.client_order_ids(),
            Submission::Perps(req) => req.client_order_ids(),
        }
    }

    /// The path, signing action and exact body of the request.
    pub fn wire(&self) -> (w: (&'static str, &'static str, String))
        ensures
            match self {
                Submission::Spot(req) => w.0@ == SpotNewOrderRequest::ENDPOINT@ && w.1@
                    == SpotNewOrderRequest::ACTION@ && w.2@ == crate::json::ToJson::json(req),
                Submission::Perps(req) => w.0@ == NewOrderRequest::ENDPOINT@ && w.1@
                    == NewOrderRequest::ACTION@ && w.2@ == crate::json::ToJson::json(req),
            },
    {
        match self {
            Submission::Spot(req) => (
                SpotNewOrderRequest::ENDPOINT,
                SpotNewOrderRequest::ACTION,
                req.to_json(),
            ),
            Submission::Perps(req) => (NewOrderRequest::ENDPOINT, NewOrderRequest::ACTION, req.to_json()),
        }
    }
}

/// Whether a spot conversion succeeds.
pub open spec fn to_spot_order_ok(spec: OrderSpec) -> bool {
    !spec.reduce_only && (if spec.quote_quantity {
        spec.order_type == crate::common::enums::OrderType::Market && spec.side
            == crate::common::enums::OrderSide::Buy
    } else {
        !(spec.order_type == crate::common::enums::OrderType::Limit && spec.price is None)
    })
}

/// How an order to be cancelled is identified.
#[derive(Debug)]
pub enum CancelTarget {
    VenueOrderId(u64),
    ClientOrderId(ClientOrderId),
}

/// A cancellation prepared for one engine.
#[derive(Debug)]
pub enum Cancellation {
    Spot(SpotCancelOrderRequest),
    Perps(CancelOrderRequest),
}

impl Cancellation {
    /// A cancel for one order. Spot cancels carry two client order ids, the label naming
    /// the cancellation itself and the target's; perps cancels name only the target.
    pub fn build(
        market: Market,
        account_id: u64,
        symbol_id: u64,
        target: CancelTarget,
        label: ClientOrderId,
    ) -> (r: Cancellation)
        ensures
            market == Market::Spot ==> (r matches Cancellation::Spot(req) && req.account_id
                == account_id && req.cancels@.len() == 1 && req.cancels@[0] == (match target {
                CancelTarget::VenueOrderId(id) => SpotCancelItem {
                    symbol_id,
                    cl_ord_id: label,
                    order_id: Some(id),
                    orig_cl_ord_id: None,
                },
                CancelTarget::ClientOrderId(c) => SpotCancelItem {
                    symbol_id,
                    cl_ord_id: label,
                    order_id: None,
                    orig_cl_ord_id: Some(c),
                },
            })),
            market == Market::Perps ==> (r matches Cancellation::Perps(req) && req.account_id
                == account_id && req.cancels@.len() == 1 && req.cancels@[0] == (match target {
                CancelTarget::VenueOrderId(id) => CancelItem {
                    symbol_id,
                    order_id: Some(id),
                    cl_ord_id: None,
                },
                CancelTarget::ClientOrderId(c) => CancelItem {
                    symbol_id,
                    order_id: None,
                    cl_ord_id: Some(c),
                },
            })),
    {
        match market {
            Market::Spot => {
                let item = match target {
                    CancelTarget::VenueOrderId(order_id) => SpotCancelItem::by_order_id(
                        symbol_id,
                        label,
                        order_id,
                    ),
                    CancelTarget::ClientOrderId(id) => SpotCancelItem::by_client_order_id(
                        symbol_id,
                        label,
                        id,
                    ),
                };
                let ghost it = item;
                proof {
                    assert(it.spec_validate() is Ok);
                    crate::http::requests::lemma_single_batch(it, SpotCancelOrderRequest::item_check());
                    assert((SpotCancelOrderRequest::item_check())(it) == it.spec_validate());
                }
                let mut items = Vec::new();
                items.push(item);
                proof {
                    assert(items@ =~= seq![it]);
                }
                Cancellation::Spot(SpotCancelOrderRequest::new(account_id, items).unwrap())
            },
            Market::Perps => {
                let item = match target {
                    CancelTarget::VenueOrderId(order_id) => CancelItem::by_order_id(symbol_id, order_id),
                    CancelTarget::ClientOrderId(id) => CancelItem::by_client_order_id(symbol_id, id),
                };
                let ghost it = item;
                proof {
                    assert(it.spec_validate() is Ok);
                    crate::http::requests::lemma_single_batch(it, CancelOrderRequest::item_check());
                    assert((CancelOrderRequest::item_check())(it) == it.spec_validate());
                }
                let mut items = Vec::new();
                items.push(item);
                proof {
                    assert(items@ =~= seq![it]);
                }
                Cancellation::Perps(CancelOrderRequest::new(account_id, items).unwrap())
            },
        }
    }

    /// The path, signing action and exact body of the request, sent with `DELETE`.
    pub fn wire(&self) -> (w: (&'static str, &'static str, String))
        ensures
            match self {
                Cancellation::Spot(req) => w.0@ == SpotCancelOrderRequest::ENDPOINT@ && w.1@
                    == SpotCancelOrderRequest::ACTION@ && w.2@ == crate::json::ToJson::json(req),
                Cancellation::Perps(req) => w.0@ == CancelOrderRequest::ENDPOINT@ && w.1@
                    == CancelOrderRequest::ACTION@ && w.2@ == crate::json::ToJson::json(req),
            },
    {
        match self {
            Cancellation::Spot(req) => (
                SpotCancelOrderRequest::ENDPOINT,
                SpotCancelOrderRequest::ACTION,
                req.to_json(),
            ),
            Cancellation::Perps(req) => (
                CancelOrderRequest::ENDPOINT,
                CancelOrderRequest::ACTION,
                req.to_json(),
            ),
        }
    }
}

// ---------------------------------------------------------------------------------------
// Cancellation labels
// ---------------------------------------------------------------------------------------
/// Longest client order id the venue accepts.
pub const MAX_CLIENT_ORDER_ID_LEN: usize = 36;

/// The characters of `s` in the identifier alphabet, in order.
pub open spec fn id_chars_only(s: Seq<char>) -> Seq<char>
    decreases s.len(),
{
    if s.len() == 0 {
        s
    } else if is_id_char(s.last()) {
        id_chars_only(s.drop_last()).push(s.last())
    } else {
        id_chars_only(s.drop_last())
    }
}

/// The label of a cancellation of `target` requested at `ts`: the target's permitted
/// characters, cut from the end to fit, then `-` and the timestamp, which is what makes it
/// unique.
pub open spec fn spec_cancel_label(target: Seq<char>, ts: u64) -> Seq<char> {
    let suffix = seq!['-'] + decimal(ts as nat);
    let budget = if suffix.len() >= MAX_CLIENT_ORDER_ID_LEN {
        0
    } else {
        MAX_CLIENT_ORDER_ID_LEN - suffix.len()
    };
    let head = id_chars_only(target);
    (if head.len() <= budget {
        head
    } else {
        head.take(budget as int)
    }) + suffix
}

proof fn lemma_id_chars_only(s: Seq<char>)
    ensures
        all_id_chars(id_chars_only(s)),
        id_chars_only(s).len() <= s.len(),
    decreases s.len(),
{
    if s.len() > 0 {
        lemma_id_chars_only(s.drop_last());
    }
}

/// Decimal digits, and at most twenty of them for a `u64`.
pub proof fn lemma_decimal_digits(n: nat)
    ensures
        forall|i: int| 0 <= i < decimal(n).len() ==> is_ascii_digit(#[trigger] decimal(n)[i]),
        1 <= decimal(n).len(),
        n < 10 <==> decimal(n).len() == 1,
        n <= u64::MAX ==> decimal(n).len() <= 20,
    decreases n,
{
    if n >= 10 {
        lemma_decimal_digits(n / 10);
        let d = decimal(n / 10);
        assert forall|i: int| 0 <= i < decimal(n).len() implies is_ascii_digit(
            #[trigger] decimal(n)[i],
        ) by {
            if i < d.len() {
                assert(decimal(n)[i] == d[i]);
            }
        }
    }
    if n <= u64::MAX {
        assert(crate::common::decimal::pow10(20) == 100000000000000000000) by {
            reveal_with_fuel(crate::common::decimal::pow10, 21);
        }
        lemma_decimal_len_pow(n, 20);
    }
}

proof fn lemma_decimal_len_pow(n: nat, k: nat)
    requires
        n < crate::common::decimal::pow10(k),
        k >= 1,
    ensures
        decimal(n).len() <= k,
    decreases k,
{
    reveal_with_fuel(crate::common::decimal::pow10, 2);
    if n >= 10 {
        assert(crate::common::decimal::pow10(k) == 10 * crate::common::decimal::pow10((k - 1) as nat));
        if k == 1 {
            assert(false);
        } else {
            lemma_decimal_len_pow(n / 10, (k - 1) as nat);
        }
    }
}

proof fn lemma_digit_char_injective(a: nat, b: nat)
    requires
        a < 10,
        b < 10,
        crate::text::digit_char(a) == crate::text::digit_char(b),
    ensures
        a == b,
{
    assert(crate::text::digit_char(a) as u32 == a + 48);
    assert(crate::text::digit_char(b) as u32 == b + 48);
}

/// Decimal rendering is injective.
pub proof fn lemma_decimal_injective(a: nat, b: nat)
    requires
        decimal(a) == decimal(b),
    ensures
        a == b,
    decreases a,
{
    lemma_decimal_digits(a);
    lemma_decimal_digits(b);
    if a >= 10 && b >= 10 {
        assert(decimal(a).drop_last() == decimal(a / 10));
        assert(decimal(b).drop_last() == decimal(b / 10));
        lemma_decimal_injective(a / 10, b / 10);
        assert(decimal(a).last() == crate::text::digit_char(a % 10));
        assert(decimal(b).last() == crate::text::digit_char(b % 10));
        lemma_digit_char_injective(a % 10, b % 10);
    } else if a < 10 && b < 10 {
        assert(decimal(a)[0] == crate::text::digit_char(a));
        assert(decimal(b)[0] == crate::text::digit_char(b));
        lemma_digit_char_injective(a, b);
    }
}

/// Names a cancellation request on spot, where it needs an id of its own. Always a valid
/// client order id.
pub fn cancel_label(target: &str, ts: u64) -> (label: ClientOrderId)
    ensures
        label@ == spec_cancel_label(target@, ts),
        client_order_id_valid(label@),
{
    let digits = u64_decimal(ts);
    let mut suffix = owned("-");
    crate::text::push_str(&mut suffix, digits.as_str());
    let suffix_chars = chars_of(suffix.as_str());
    proof {
        reveal_strlit("-");
        lemma_decimal_digits(ts as nat);
        assert(suffix_chars@ =~= seq!['-'] + decimal(ts as nat));
    }
    let budget = MAX_CLIENT_ORDER_ID_LEN - suffix_chars.len();
    let chars = chars_of(target);
    let mut head: Vec<char> = Vec::new();
    let mut i: usize = 0;
    while i < chars.len()
        invariant
            i <= chars.len(),
            head@ == id_chars_only(chars@.take(i as int)),
        decreases chars.len() - i,
    {
        proof {
            assert(chars@.take(i + 1).drop_last() == chars@.take(i as int));
        }
        if id_char(chars[i]) {
            head.push(chars[i]);
        }
        i = i + 1;
    }
    proof {
        assert(chars@.take(chars.len() as int) == chars@);
        lemma_id_chars_only(chars@);
    }
    let mut out: Vec<char> = Vec::new();
    let keep = if head.len() <= budget {
        head.len()
    } else {
        budget
    };
    let mut j: usize = 0;
    while j < keep
        invariant
            j <= keep <= head.len(),
            out@ == head@.take(j as int),
        decreases keep - j,
    {
        out.push(head[j]);
        proof {
            assert(head@.take(j + 1) == head@.take(j as int).push(head@[j as int]));
        }
        j = j + 1;
    }
    let mut k: usize = 0;
    let ghost kept = out@;
    while k < suffix_chars.len()
        invariant
            k <= suffix_chars.len(),
            out@ == kept + suffix_chars@.take(k as int),
        decreases suffix_chars.len() - k,
    {
        out.push(suffix_chars[k]);
        proof {
            assert(suffix_chars@.take(k + 1) == suffix_chars@.take(k as int).push(suffix_chars@[k as int]));
        }
        k = k + 1;
    }
    proof {
        assert(suffix_chars@.take(suffix_chars.len() as int) == suffix_chars@);
        if head.len() <= budget {
            assert(head@.take(head.len() as int) == head@);
        }
        assert(out@ == spec_cancel_label(target@, ts));
        assert forall|x: int| 0 <= x < out@.len() implies #[trigger] is_id_char(out@[x]) by {
            if x < kept.len() {
                assert(out@[x] == head@[x]);
            } else {
                let y = x - kept.len();
                if y > 0 {
                    assert(out@[x] == decimal(ts as nat)[y - 1]);
                }
            }
        }
    }
    let text = string_from_chars(&out);
    ClientOrderId::parse(text.as_str()).unwrap()
}

/// Two cancellations of one order requested at different times get different labels.
pub proof fn lemma_cancel_labels_distinct(target: Seq<char>, t1: u64, t2: u64)
    requires
        t1 != t2,
    ensures
        spec_cancel_label(target, t1) != spec_cancel_label(target, t2),
{
    let d1 = decimal(t1 as nat);
    let d2 = decimal(t2 as nat);
    lemma_decimal_digits(t1 as nat);
    lemma_decimal_digits(t2 as nat);
    let l1 = spec_cancel_label(target, t1);
    let l2 = spec_cancel_label(target, t2);
    if l1 == l2 {
        let n = l1.len();
        if d1.len() == d2.len() {
            assert(d1 =~= l1.skip(n - d1.len()));
            assert(d2 =~= l2.skip(n - d2.len()));
            lemma_decimal_injective(t1 as nat, t2 as nat);
        } else if d1.len() < d2.len() {
            assert(l1[n - d1.len() - 1] == '-');
            assert(l2[n - d1.len() - 1] == d2[d2.len() - d1.len() - 1]);
            assert(is_ascii_digit(d2[d2.len() - d1.len() - 1]));
        } else {
            assert(l2[n - d2.len() - 1] == '-');
            assert(l1[n - d2.len() - 1] == d1[d1.len() - d2.len() - 1]);
            assert(is_ascii_digit(d1[d1.len() - d2.len() - 1]));
        }
    }
}

// ---------------------------------------------------------------------------------------
// Acknowledgements
// ---------------------------------------------------------------------------------------
/// What the engine is told about a submitted order.
#[derive(Debug, Clone, PartialEq, Eq)]
pub enum SubmissionOutcome {
    /// Accepted under the venue's order id.
    Accepted { venue_order_id: u64 },
    /// Rejected, with the reason.
    Rejected { reason: String },
}

/// Reason for an acceptance that carried no order id: it could not be cancelled by id later.
pub const ACCEPTED_WITHOUT_ID: &'static str = "venue accepted the order without returning an order id";

/// Reason for a refusal the venue gave no reason for.
pub const ORDER_REJECTED: &'static str = "venue rejected the order";

/// Reason for a submission the venue did not answer.
pub const NO_ORDER_ACK: &'static str = "venue returned no acknowledgement for the order";

/// Turns one acknowledgement into the engine's view of the order.
pub fn report_submission(ack: Option<&OrderAck>) -> (o: SubmissionOutcome)
    ensures
        match ack {
            Some(a) => if a.success {
                match a.order_id {
                    Some(id) => o == SubmissionOutcome::Accepted { venue_order_id: id },
                    None => o matches SubmissionOutcome::Rejected { reason } && reason@
                        == ACCEPTED_WITHOUT_ID@,
                }
            } else {
                o matches SubmissionOutcome::Rejected { reason } && reason@ == (match a.error {
                    Some(e) => e@,
                    None => ORDER_REJECTED@,
                })
            },
            None => o matches SubmissionOutcome::Rejected { reason } && reason@ == NO_ORDER_ACK@,
        },
{
    match ack {
        Some(a) => {
            if a.is_success() {
                match a.order_id {
                    Some(id) => SubmissionOutcome::Accepted { venue_order_id: id },
                    None => SubmissionOutcome::Rejected { reason: owned(ACCEPTED_WITHOUT_ID) },
                }
            } else {
                match &a.error {
                    Some(e) => SubmissionOutcome::Rejected { reason: owned(e.as_str()) },
                    None => SubmissionOutcome::Rejected { reason: owned(ORDER_REJECTED) },
                }
            }
        },
        None => SubmissionOutcome::Rejected { reason: owned(NO_ORDER_ACK) },
    }
}

/// Reason for a cancel refusal the venue gave no reason for.
pub const CANCEL_REJECTED: &'static str = "venue rejected the cancel";

/// Reason for a cancel the venue did not answer.
pub const NO_CANCEL_ACK: &'static str = "venue returned no acknowledgement for the cancel";

/// What the engine is told about a cancel: `None` when the order was cancelled, otherwise
/// why the cancel was rejected. Silence is never an option: a missing acknowledgement is a
/// rejection.
pub fn report_cancel(ack: Option<&OrderAck>) -> (r: Option<String>)
    ensures
        match ack {
            Some(a) => if a.success {
                r is None
            } else {
                r matches Some(reason) && reason@ == (match a.error {
                    Some(e) => e@,
                    None => CANCEL_REJECTED@,
                })
            },
            None => r matches Some(reason) && reason@ == NO_CANCEL_ACK@,
        },
{
    match ack {
        Some(a) => {
            if a.is_success() {
                None
            } else {
                match &a.error {
                    Some(e) => Some(owned(e.as_str())),
                    None => Some(owned(CANCEL_REJECTED)),
                }
            }
        },
        None => Some(owned(NO_CANCEL_ACK)),
    }
}

/// The engine's contingency relations between orders.
#[derive(Debug, Clone, Copy, PartialEq, Eq, Structural)]
pub enum ContingencyType {
    NoContingency,
    Oco,
    Oto,
    Ouo,
}

impl ContingencyType {
    pub open spec fn spec_name(self) -> Seq<char> {
        match self {
            ContingencyType::NoContingency => "NoContingency"@,
            ContingencyType::Oco => "Oco"@,
            ContingencyType::Oto => "Oto"@,
            ContingencyType::Ouo => "Ouo"@,
        }
    }

    pub fn name(self) -> (s: &'static str)
        ensures
            s@ == self.spec_name(),
    {
        match self {
            ContingencyType::NoContingency => "NoContingency",
            ContingencyType::Oco => "Oco",
            ContingencyType::Oto => "Oto",
            ContingencyType::Ouo => "Ouo",
        }
    }
}

/// The denial for an order carrying a contingency, which the venue cannot enforce; `None`
/// for an order without one.
pub fn contingency_denial(contingency: Option<ContingencyType>) -> (r: Option<String>)
    ensures
        contingency is None ==> r is None,
        contingency matches Some(c) ==> (r matches Some(reason) && reason@ == "SoDEX cannot enforce "@
            + c.spec_name() + " contingency between orders"@),
{
    match contingency {
        None => None,
        Some(c) => {
            let mut reason = owned("SoDEX cannot enforce ");
            crate::text::push_str(&mut reason, c.name());
            push_lit(&mut reason, " contingency between orders");
            Some(reason)
        },
    }
}

/// Whether a text is a `u64` as `str::parse` reads it: an optional `+`, then one or more
/// decimal digits, the value fitting in 64 bits.
pub open spec fn digits_value(s: Seq<char>) -> nat
    decreases s.len(),
{
    if s.len() == 0 {
        0
    } else {
        (10 * digits_value(s.drop_last()) + (s.last() as int - 48)) as nat
    }
}

pub open spec fn all_digits(s: Seq<char>) -> bool {
    forall|i: int| 0 <= i < s.len() ==> #[trigger] is_ascii_digit(s[i])
}

/// The value `str::parse::<u64>` gives a text, if any.
pub open spec fn spec_parse_u64(s: Seq<char>) -> Option<u64> {
    let body = if s.len() > 0 && s[0] == '+' {
        s.drop_first()
    } else {
        s
    };
    if body.len() > 0 && all_digits(body) && digits_value(body) <= u64::MAX {
        Some(digits_value(body) as u64)
    } else {
        None
    }
}

/// Parses a venue order id.
pub fn parse_u64(s: &str) -> (r: Option<u64>)
    ensures
        r == spec_parse_u64(s@),
{
    let chars = chars_of(s);
    let start: usize = if chars.len() > 0 && chars[0] == '+' {
        1
    } else {
        0
    };
    let ghost body = if s@.len() > 0 && s@[0] == '+' {
        s@.drop_first()
    } else {
        s@
    };
    proof {
        assert(chars@.skip(start as int) == body);
    }
    if start >= chars.len() {
        return None;
    }
    let mut value: u64 = 0;
    let mut i: usize = start;
    while i < chars.len()
        invariant
            start <= i <= chars.len(),
            chars@ == s@,
            start == (if s@.len() > 0 && s@[0] == '+' { 1int } else { 0int }),
            body == (if s@.len() > 0 && s@[0] == '+' { s@.drop_first() } else { s@ }),
            chars@.skip(start as int) == body,
            all_digits(chars@.subrange(start as int, i as int)),
            value == digits_value(chars@.subrange(start as int, i as int)),
        decreases chars.len() - i,
    {
        let c = chars[i];
        proof {
            assert(chars@.subrange(start as int, i + 1).drop_last() == chars@.subrange(
                start as int,
                i as int,
            ));
        }
        if !('0' <= c && c <= '9') {
            proof {
                assert(chars@.skip(start as int)[i - start] == chars@[i as int]);
                assert(body[i - start] == c);
                assert(!is_ascii_digit(body[i - start]));
                assert(!all_digits(body));
            }
            return None;
        }
        let d = (c as u32 - 48) as u64;
        proof {
            assert(chars@.subrange(start as int, i + 1).last() == c);
        }
        if value > (u64::MAX - d) / 10 {
            proof {
                assert(value * 10 + d > u64::MAX) by (nonlinear_arith)
                    requires
                        value > (u64::MAX - d) / 10,
                        d <= 9,
                ;
                assert(is_ascii_digit(c));
                assert(all_digits(chars@.subrange(start as int, i + 1)));
                assert(digits_value(chars@.subrange(start as int, i + 1)) == 10 * value + d);
                lemma_digits_value_prefix(body, (i + 1 - start) as int);
                assert(chars@.subrange(start as int, i + 1) == body.take((i + 1 - start) as int));
            }
            return None;
        }
        value = value * 10 + d;
        i = i + 1;
    }
    proof {
        assert(chars@.subrange(start as int, chars.len() as int) == body);
    }
    Some(value)
}

proof fn lemma_digits_value_prefix(s: Seq<char>, k: int)
    requires
        0 <= k <= s.len(),
        all_digits(s.take(k)),
    ensures
        all_digits(s) ==> digits_value(s.take(k)) <= digits_value(s),
    decreases s.len(),
{
    if k < s.len() {
        assert(s.drop_last().take(k) == s.take(k));
        lemma_digits_value_prefix(s.drop_last(), k);
        if all_digits(s) {
            assert(all_digits(s.drop_last()));
            assert(is_ascii_digit(s[s.len() - 1]));
        }
    } else {
        assert(s.take(k) == s);
    }
}

/// How a cancellation names its order: by the venue's id when the engine knows it, since a
/// client order id is unique only among live orders; otherwise by the client order id.
/// Returns the reason when neither can be used.
pub fn cancel_target(venue_order_id: Option<&str>, client_order_id: &str) -> (r: Result<
    CancelTarget,
    String,
>)
    ensures
        venue_order_id matches Some(v) ==> match spec_parse_u64(v@) {
            Some(id) => r matches Ok(CancelTarget::VenueOrderId(x)) && x == id,
            None => r matches Err(reason) && reason@ == "venue order id "@ + v@ + " is not numeric"@,
        },
        venue_order_id is None ==> if client_order_id_valid(client_order_id@) {
            r matches Ok(CancelTarget::ClientOrderId(c)) && c@ == client_order_id@
        } else {
            r matches Err(reason) && reason@ == crate::execution::parse::id_refusal_message(
                client_order_id@,
            )
        },
{
    match venue_order_id {
        Some(v) => match parse_u64(v) {
            Some(id) => Ok(CancelTarget::VenueOrderId(id)),
            None => {
                let mut reason = owned("venue order id ");
                crate::text::push_str(&mut reason, v);
                push_lit(&mut reason, " is not numeric");
                Err(reason)
            },
        },
        None => match crate::execution::parse::map_client_order_id(client_order_id) {
            Ok(c) => Ok(CancelTarget::ClientOrderId(c)),
            Err(e) => Err(e.message()),
        },
    }
}

/// What a build error says.
pub open spec fn build_error_message(e: BuildError) -> Seq<char> {
    match e {
        BuildError::Conversion(c) => conversion_error_message(c),
        BuildError::Request(r) => request_error_message(r),
    }
}

impl BuildError {
    /// The error as text.
    pub fn message(&self) -> (s: String)
        ensures
            s@ == build_error_message(*self),
    {
        match self {
            BuildError::Conversion(c) => c.message(),
            BuildError::Request(r) => r.message(),
        }
    }
}

/// The refusal of an order or cancel for an instrument whose symbol id is not known.
pub open spec fn no_symbol_id_message(instrument_id: InstrumentId) -> Seq<char> {
    "no venue symbol id for "@ + instrument_text(instrument_id) + "; instruments have not been loaded"@
}

fn no_symbol_id(instrument_id: &InstrumentId) -> (s: String)
    ensures
        s@ == no_symbol_id_message(*instrument_id),
{
    let mut s = owned("no venue symbol id for ");
    let text = instrument_id.to_text();
    crate::text::push_str(&mut s, text.as_str());
    push_lit(&mut s, "; instruments have not been loaded");
    s
}

/// Whether a cancellation is the one-item request for `market` naming the order by
/// `order_id` or `target_id` (one of them), labelled `label` on spot.
pub open spec fn cancellation_matches(
    c: Cancellation,
    market: Market,
    account_id: u64,
    symbol_id: u64,
    order_id: Option<u64>,
    target_id: Option<Seq<char>>,
    label: Seq<char>,
) -> bool {
    match c {
        Cancellation::Spot(req) => {
            &&& market == Market::Spot
            &&& req.account_id == account_id
            &&& req.cancels@.len() == 1
            &&& req.cancels@[0].symbol_id == symbol_id
            &&& req.cancels@[0].cl_ord_id@ == label
            &&& req.cancels@[0].order_id == order_id
            &&& match req.cancels@[0].orig_cl_ord_id {
                Some(t) => target_id == Some(t@),
                None => target_id is None,
            }
        },
        Cancellation::Perps(req) => {
            &&& market == Market::Perps
            &&& req.account_id == account_id
            &&& req.cancels@.len() == 1
            &&& req.cancels@[0].symbol_id == symbol_id
            &&& req.cancels@[0].order_id == order_id
            &&& match req.cancels@[0].cl_ord_id {
                Some(t) => target_id == Some(t@),
                None => target_id is None,
            }
        },
    }
}

/// Decides a cancel command: the request to send, or why it is rejected before reaching
/// the venue. The symbol id must be known; the venue's order id is preferred as the target,
/// since a client order id is unique only among live orders; on spot the request carries
/// its own label, made from the client order id and the time `now_ns`.
pub fn plan_cancel(
    market: Market,
    account_id: u64,
    instrument_id: &InstrumentId,
    symbol_id: Option<u64>,
    venue_order_id: Option<&str>,
    client_order_id: &str,
    now_ns: u64,
) -> (r: Result<Cancellation, String>)
    ensures
        match symbol_id {
            None => r matches Err(m) && m@ == no_symbol_id_message(*instrument_id),
            Some(sid) => match venue_order_id {
                Some(v) => match spec_parse_u64(v@) {
                    Some(id) => r matches Ok(c) && cancellation_matches(
                        c,
                        market,
                        account_id,
                        sid,
                        Some(id),
                        None,
                        spec_cancel_label(client_order_id@, now_ns),
                    ),
                    None => r matches Err(m) && m@ == "venue order id "@ + v@ + " is not numeric"@,
                },
                None => if client_order_id_valid(client_order_id@) {
                    r matches Ok(c) && cancellation_matches(
                        c,
                        market,
                        account_id,
                        sid,
                        None,
                        Some(client_order_id@),
                        spec_cancel_label(client_order_id@, now_ns),
                    )
                } else {
                    r matches Err(m) && m@ == id_refusal_message(client_order_id@)
                },
            },
        },
{
    let sid = match symbol_id {
        Some(s) => s,
        None => return Err(no_symbol_id(instrument_id)),
    };
    let target = match cancel_target(venue_order_id, client_order_id) {
        Ok(t) => t,
        Err(reason) => return Err(reason),
    };
    let label = cancel_label(client_order_id, now_ns);
    Ok(Cancellation::build(market, account_id, sid, target, label))
}

/// Decides a submit command: the request to send, or why the order is denied before
/// reaching the venue. A contingent order is denied first, since the venue cannot enforce
/// the contingency; then an order the venue cannot express; then one whose symbol id is not
/// known; then one the request rules refuse.
pub fn plan_submission(
    contingency: Option<ContingencyType>,
    init: &OrderInitialized,
    instrument_id: &InstrumentId,
    symbol_id: Option<u64>,
    market: Market,
    account_id: u64,
) -> (r: Result<Submission, String>)
    ensures
        contingency matches Some(c) ==> (r matches Err(m) && m@ == "SoDEX cannot enforce "@
            + c.spec_name() + " contingency between orders"@),
        contingency is None ==> match initialized_refusal(*init) {
            Some(m) => r matches Err(e) && e@ == m,
            None => match symbol_id {
                None => r matches Err(m) && m@ == no_symbol_id_message(*instrument_id),
                Some(sid) => {
                    &&& (r matches Ok(sub) ==> exists|s: OrderSpec|
                        spec_matches(s, *init) && #[trigger] submission_matches(
                            sub,
                            s,
                            market,
                            account_id,
                            sid,
                        ))
                    &&& forall|s: OrderSpec| #[trigger]
                        spec_matches(s, *init) ==> match submission_refusal(s, market) {
                            Some(m) => r matches Err(e) && e@ == m,
                            None => r is Ok,
                        }
                },
            },
        },
{
    match contingency_denial(contingency) {
        Some(reason) => return Err(reason),
        None => {},
    }
    let spec = match OrderSpec::from_initialized(init) {
        Ok(s) => s,
        Err(e) => return Err(e.message()),
    };
    let sid = match symbol_id {
        Some(s) => s,
        None => return Err(no_symbol_id(instrument_id)),
    };
    proof {
        assert forall|t: OrderSpec| #[trigger] spec_matches(t, *init) implies submission_refusal(t, market)
            == submission_refusal(spec, market) by {
            lemma_refusal_by_event(t, spec, *init, market);
        }
    }
    match Submission::build(&spec, market, account_id, sid) {
        Ok(sub) => {
            proof {
                assert(submission_matches(sub, spec, market, account_id, sid));
            }
            Ok(sub)
        },
        Err(e) => Err(e.message()),
    }
}

/// Why an execution client cannot be set up.
#[derive(Debug)]
pub enum SetupError {
    /// A credential is missing or malformed in the configuration and the environment.
    Config(crate::config::ConfigError),
    /// The API key name or private key is not acceptable.
    Credential(crate::common::credential::CredentialError),
    /// The signed client could not be built from the key.
    Client(crate::http::client::ClientError),
}

/// What an execution client works with: the venue account id, a signing REST client, and
/// the instrument provider for its engine.
#[derive(Debug)]
pub struct ExecutionSetup {
    pub venue_account_id: u64,
    pub http: crate::http::client::SodexHttpClient,
    pub provider: crate::providers::SodexInstrumentProvider,
}

/// A configured value, else the cleaned environment value.
pub open spec fn configured_or_env(configured: Option<Seq<char>>, env: Option<&str>) -> Option<Seq<char>> {
    match configured {
        Some(v) => Some(v),
        None => crate::config::spec_env_value(crate::config::opt_str_view(env)),
    }
}

/// The venue account id a configuration resolves to.
pub open spec fn resolved_account(config: crate::config::SodexExecClientConfig, env: Option<&str>) -> Option<u64> {
    match config.account_id {
        Some(id) => Some(id),
        None => match crate::config::spec_env_value(crate::config::opt_str_view(env)) {
            Some(v) => spec_parse_u64(v),
            None => None,
        },
    }
}

/// Sets up an execution client, resolving every credential before the first order so that
/// a misconfiguration fails at startup rather than as a rejected trade: the account id,
/// the key name and the private key, each from the configuration or else from the
/// environment value given; then the name and key are checked, and the signer built.
pub fn execution_setup(
    config: &crate::config::SodexExecClientConfig,
    env_account_id: Option<&str>,
    env_api_key_name: Option<&str>,
    env_api_private_key: Option<&str>,
) -> (r: Result<ExecutionSetup, SetupError>)
    ensures
        ({
            let account = resolved_account(*config, env_account_id);
            let name = configured_or_env(
                match config.api_key_name {
                    Some(n) => Some(n@),
                    None => None,
                },
                env_api_key_name,
            );
            let key = configured_or_env(
                match config.api_private_key {
                    Some(k) => Some(k@),
                    None => None,
                },
                env_api_private_key,
            );
            if account is None {
                r matches Err(SetupError::Config(_))
            } else if name is None || key is None {
                r matches Err(SetupError::Config(crate::config::ConfigError::Missing { .. }))
            } else if !crate::common::credential::key_name_valid(name->0) {
                r matches Err(SetupError::Credential(crate::common::credential::CredentialError::KeyName(_)))
            } else if crate::common::credential::private_key_outcome(key->0) is Err {
                r matches Err(SetupError::Credential(e)) && Err::<Seq<char>, _>(e)
                    == crate::common::credential::private_key_outcome(key->0)
            } else if crate::signing::signers::secp256k1_address(
                crate::common::credential::private_key_outcome(key->0)->Ok_0,
            ) is None {
                r matches Err(SetupError::Client(_))
            } else {
                r matches Ok(s) && (Some(s.venue_account_id) == account && s.http@.network
                    == config.network && s.http@.market == config.market && s.provider@.network
                    == config.network && s.provider@.market == config.market
                    && s.provider@.names.len() == 0 && (s.http@.credentials matches Some(c)
                    && c.key_name == name->0 && c.key_hex
                    == crate::common::credential::private_key_outcome(key->0)->Ok_0))
            }
        }),
{
    let venue_account_id = match config.resolve_account_id(env_account_id) {
        Ok(id) => id,
        Err(e) => return Err(SetupError::Config(e)),
    };
    let key_name = match config.resolve_api_key_name(env_api_key_name) {
        Ok(n) => n,
        Err(e) => return Err(SetupError::Config(e)),
    };
    let private_key = match config.resolve_api_private_key(env_api_private_key) {
        Ok(k) => k,
        Err(e) => return Err(SetupError::Config(e)),
    };
    let name = match crate::common::credential::ApiKeyName::parse(key_name.as_str()) {
        Ok(n) => n,
        Err(e) => return Err(SetupError::Credential(e)),
    };
    let key = match crate::common::credential::ApiPrivateKey::parse(private_key.expose()) {
        Ok(k) => k,
        Err(e) => return Err(SetupError::Credential(e)),
    };
    let http = match crate::http::client::SodexHttpClient::with_credentials(
        config.network,
        config.market,
        name,
        &key,
    ) {
        Ok(h) => h,
        Err(e) => return Err(SetupError::Client(e)),
    };
    let provider = crate::providers::SodexInstrumentProvider::new(config.network, config.market).unwrap();
    Ok(ExecutionSetup { venue_account_id, http, provider })
}

/// Two order specs carrying what one order event says are refused alike: the refusal reads
/// only the fields the event fixes.
proof fn lemma_refusal_by_event(a: OrderSpec, b: OrderSpec, init: OrderInitialized, market: Market)
    requires
        spec_matches(a, init),
        spec_matches(b, init),
        init.order_type == crate::execution::parse::EngineOrderType::Market || init.order_type
            == crate::execution::parse::EngineOrderType::Limit,
    ensures
        submission_refusal(a, market) == submission_refusal(b, market),
{
    assert(a.order_type == b.order_type);
    assert(a.price is Some <==> b.price is Some) by {
        assert(crate::text::opt_view(a.price) == crate::text::opt_view(b.price));
    }
    assert(crate::execution::parse::perps_precheck(a) == crate::execution::parse::perps_precheck(b));
    assert(crate::execution::parse::perps_shape(a).spec_validate() == crate::execution::parse::perps_shape(
        b,
    ).spec_validate());
}

} // verus!
