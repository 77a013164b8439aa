//! PayPal payment provider
//!
//! A charge creates an order that the buyer has still to approve; a capture collects its funds.
//! PayPal has no customer resource and no payment-method vault.
use crate::clock::{self, now, Timestamp, MAX_SECS};
use crate::crypto::{self, base64_encode};
use crate::error::{Fault, PaymentError, PaymentResult};
use crate::gateway::{
    self, settle, validate_base_url, Body, BodyFields, GatewayReply, GatewayRequest, Method, RequestFields,
};
use crate::json::{self, no_members, object, push_json, push_opt_text, push_text, Json, Tree};
use crate::laws;
use crate::money::{self, Currency, Money};
use crate::processor::PaymentProvider;
use crate::string_map::{self, StringMap};
use crate::text::{self, concat2, concat3, owned, quoted, same, unsigned_text};
use crate::types::{Charge, ChargeRequest, ChargeStatus, Refund, RefundRequest, RefundStatus};
use vstd::prelude::*;
use vstd::utf8::*;

pub use crate::providers::paypal_webhook::{
    PAYPAL_AUTH_ALGO_HEADER, PAYPAL_CERT_URL_HEADER, PAYPAL_TRANSMISSION_ID_HEADER, PAYPAL_TRANSMISSION_SIG_HEADER,
    PAYPAL_TRANSMISSION_TIME_HEADER,
};

verus! {

/// The header by which PayPal recognises a repeated request.
pub const PAYPAL_REQUEST_ID_HEADER: &'static str = "PayPal-Request-Id";

/// The longest custom id that PayPal takes.
pub const MAX_CUSTOM_ID: usize = 127;

/// The longest token lifetime, in seconds, that can be reckoned with.
pub const MAX_EXPIRES_IN: u64 = 9_223_372_036_854_835;

/// The JSON text of an object of texts, or why there is none.
pub uninterp spec fn metadata_text(p: Seq<(Seq<char>, Seq<char>)>) -> Result<Seq<char>, Seq<char>>;

/// `serde::Serializer::collect_map` with `serde_json::Serializer`, which is what
/// `serde_json::to_string` does on a map: the JSON text of an object with the given members, in
/// their order. It depends on the members alone.
#[verifier::external_body]
fn encode_entries(entries: &Vec<(String, String)>) -> (r: Result<String, String>)
    ensures
        match r {
            Ok(s) => metadata_text(string_map::pairs(entries@)) matches Ok(x) && s@ == x,
            Err(s) => metadata_text(string_map::pairs(entries@)) matches Err(x) && s@ == x,
        },
{
    let mut out: Vec<u8> = Vec::new();
    let mut serializer = serde_json::Serializer::new(&mut out);
    let members = entries.iter().map(|e| (&e.0, &e.1));
    serde::Serializer::collect_map(&mut serializer, members).map_err(|e| e.to_string())?;
    String::from_utf8(out).map_err(|e| e.to_string())
}

/// PayPal provider
pub struct PayPalProvider {
    client_id: String,
    client_secret: String,
    webhook_id: Option<String>,
    sandbox: bool,
    base_url_override: Option<String>,
}

/// What a [`PayPalProvider`] is configured with.
pub struct PayPalFields {
    pub client_id: Seq<char>,
    pub client_secret: Seq<char>,
    pub webhook_id: Option<Seq<char>>,
    pub sandbox: bool,
    pub base_url_override: Option<Seq<char>>,
}

impl View for PayPalProvider {
    type V = PayPalFields;

    closed spec fn view(&self) -> PayPalFields {
        PayPalFields {
            client_id: self.client_id@,
            client_secret: self.client_secret@,
            webhook_id: text::opt_text(self.webhook_id),
            sandbox: self.sandbox,
            base_url_override: text::opt_text(self.base_url_override),
        }
    }
}

impl PaymentProvider for PayPalProvider {
    open spec fn provider_name(&self) -> Seq<char> {
        "paypal"@
    }

    open spec fn deduplicates(&self) -> bool {
        true
    }

    fn name(&self) -> (r: &'static str)
        ensures
            r@ == "paypal"@,
    {
        "paypal"
    }

    fn supports_idempotency(&self) -> (r: bool)
        ensures
            r,
    {
        true
    }
}

/// An OAuth access token and the instant from which it is no longer used.
#[derive(Debug, Clone)]
pub struct PayPalToken {
    pub token: String,
    pub expires_at: Timestamp,
}

/// The gateway's answer to a request for a token.
#[derive(Debug)]
pub struct PayPalTokenResponse {
    pub access_token: String,
    pub expires_in: u64,
}

/// How long a token is used: a minute less than it lives, and half a minute at least.
pub open spec fn lifetime(expires_in: u64) -> int {
    if expires_in >= 90 {
        expires_in - 60
    } else {
        30
    }
}

/// How long, in seconds, a freshly issued token is treated as valid.
pub fn token_lifetime(expires_in: u64) -> (r: i64)
    requires
        expires_in <= MAX_EXPIRES_IN,
    ensures
        r == lifetime(expires_in),
        r >= 30,
        expires_in >= 90 ==> r == expires_in - 60,
        expires_in < 90 ==> r == 30,
{
    if expires_in >= 90 {
        (expires_in - 60) as i64
    } else {
        30
    }
}

/// Whether the instant `a` is after `b`.
pub open spec fn after(a: Timestamp, b: Timestamp) -> bool {
    a.secs > b.secs || (a.secs == b.secs && a.nanos > b.nanos)
}

impl PayPalToken {
    /// The token of a response received at `now`.
    pub fn issued(response: PayPalTokenResponse, now: Timestamp) -> (r: Self)
        requires
            response.expires_in <= MAX_EXPIRES_IN,
            now.secs + lifetime(response.expires_in) <= MAX_SECS,
        ensures
            r.token == response.access_token,
            r.expires_at == (Timestamp {
                secs: (now.secs + lifetime(response.expires_in)) as i64,
                nanos: now.nanos,
            }),
    {
        let secs: i64 = now.secs + token_lifetime(response.expires_in);
        PayPalToken { token: response.access_token, expires_at: Timestamp { secs, nanos: now.nanos } }
    }

    /// Whether the token may still be used at `now`.
    pub fn is_valid(&self, now: Timestamp) -> (r: bool)
        ensures
            r == after(self.expires_at, now),
    {
        self.expires_at.secs > now.secs || (self.expires_at.secs == now.secs && self.expires_at.nanos > now.nanos)
    }
}

/// What to do about the access token.
#[derive(Debug)]
pub enum TokenStep {
    /// Use this token.
    Use(String),
    /// Ask for a new one.
    Refresh(GatewayRequest),
}

/// A token that was just issued may be used for half a minute at least.
pub proof fn fresh_token_is_valid(issued: PayPalToken, expires_in: u64, now: Timestamp, later: Timestamp)
    requires
        issued.expires_at == (Timestamp { secs: (now.secs + lifetime(expires_in)) as i64, nanos: now.nanos }),
        now.secs + lifetime(expires_in) <= MAX_SECS,
        later.secs < now.secs + 30,
    ensures
        after(issued.expires_at, later),
{
}

/// The base URL that requests go to.
pub open spec fn base_url_of(p: PayPalFields) -> Seq<char> {
    match p.base_url_override {
        Some(url) => url,
        None => if p.sandbox {
            "https://api-m.sandbox.paypal.com"@
        } else {
            "https://api-m.paypal.com"@
        },
    }
}

/// The request for an access token.
pub open spec fn token_fields() -> RequestFields {
    RequestFields {
        method: Method::Post,
        path: "/v1/oauth2/token"@,
        dedup: None,
        body: BodyFields::Form(Map::empty().insert("grant_type"@, "client_credentials"@)),
    }
}

impl PayPalProvider {
    /// Create a new PayPal provider, pointed at the sandbox.
    pub fn new(client_id: &str, client_secret: &str) -> (r: PaymentResult<Self>)
        ensures
            r matches Ok(p) && p@ == (PayPalFields {
                client_id: client_id@,
                client_secret: client_secret@,
                webhook_id: None,
                sandbox: true,
                base_url_override: None,
            }),
    {
        Ok(
            PayPalProvider {
                client_id: owned(client_id),
                client_secret: owned(client_secret),
                webhook_id: None,
                sandbox: true,
                base_url_override: None,
            },
        )
    }

    /// Use production environment
    pub fn production(self) -> (r: Self)
        ensures
            r@ == (PayPalFields { sandbox: false, ..self@ }),
    {
        let mut r = self;
        r.sandbox = false;
        r
    }

    /// Point the client at an alternate API base URL (a mock or proxy).
    ///
    /// The URL must be `https`, or `http` to this machine: the token exchange sends the client
    /// secret, and this host is asked whether a webhook is authentic.
    pub fn with_base_url(self, base_url: &str) -> (r: PaymentResult<Self>)
        ensures
            match r {
                Ok(p) => gateway::allowed_base_url(base_url@) && p@ == (PayPalFields {
                    base_url_override: Some(text::trim_end_of(base_url@, '/')),
                    ..self@
                }),
                Err(e) => !gateway::allowed_base_url(base_url@) && e@ == Fault::Config(
                    "base URL must be https, or http to a loopback host: "@ + base_url@,
                ),
            },
    {
        match validate_base_url(base_url) {
            Ok(url) => {
                let mut r = self;
                r.base_url_override = Some(url);
                Ok(r)
            },
            Err(e) => Err(e),
        }
    }

    /// Set webhook ID for verification
    pub fn with_webhook_id(self, webhook_id: &str) -> (r: Self)
        ensures
            r@ == (PayPalFields { webhook_id: Some(webhook_id@), ..self@ }),
    {
        let mut r = self;
        r.webhook_id = Some(owned(webhook_id));
        r
    }

    pub(crate) fn webhook_id(&self) -> (r: Option<&String>)
        ensures
            match r {
                Some(id) => self@.webhook_id == Some(id@),
                None => self@.webhook_id is None,
            },
    {
        self.webhook_id.as_ref()
    }

    pub(crate) fn is_sandbox(&self) -> (r: bool)
        ensures
            r == self@.sandbox,
    {
        self.sandbox
    }

    /// Get API base URL
    pub fn base_url(&self) -> (r: &str)
        ensures
            r@ == base_url_of(self@),
    {
        match &self.base_url_override {
            Some(url) => url.as_str(),
            None => if self.sandbox {
                "https://api-m.sandbox.paypal.com"
            } else {
                "https://api-m.paypal.com"
            },
        }
    }

    /// The `Authorization` header of the token exchange.
    pub fn token_credential(&self) -> (r: String)
        ensures
            r@ == "Basic "@ + crypto::base64_text(encode_utf8(self@.client_id + ":"@ + self@.client_secret)),
    {
        let pair = concat3(&self.client_id, ":", &self.client_secret);
        let encoded = base64_encode(pair.as_str().as_bytes());
        concat2("Basic ", &encoded)
    }

    /// The request for an access token.
    pub fn token_request(&self) -> (r: GatewayRequest)
        ensures
            r@ == token_fields(),
    {
        let mut form = StringMap::new();
        form.insert(owned("grant_type"), owned("client_credentials"));
        GatewayRequest::plain(Method::Post, owned("/v1/oauth2/token"), Body::Form(form))
    }

    /// The token to use at `now`: the cached one while it is valid, and otherwise a new one.
    pub fn get_token(&self, cached: &Option<PayPalToken>, now: Timestamp) -> (r: TokenStep)
        ensures
            match *cached {
                Some(t) => if after(t.expires_at, now) {
                    r == TokenStep::Use(t.token)
                } else {
                    r matches TokenStep::Refresh(q) && q@ == token_fields()
                },
                None => r matches TokenStep::Refresh(q) && q@ == token_fields(),
            },
    {
        match cached {
            Some(t) => if t.is_valid(now) {
                TokenStep::Use(t.token.clone())
            } else {
                TokenStep::Refresh(self.token_request())
            },
            None => TokenStep::Refresh(self.token_request()),
        }
    }

    /// What the reply to a request for a token says.
    pub fn token_result(&self, reply: &GatewayReply, decoded: Result<PayPalTokenResponse, String>) -> (r: PaymentResult<
        PayPalTokenResponse,
    >)
        ensures
            gateway::outcome(r) == gateway::settled("paypal"@, *reply, decoded, None),
    {
        settle("paypal", reply, decoded, None)
    }
}

/// An amount on the wire.
#[derive(Debug)]
pub struct PayPalAmount {
    pub currency_code: String,
    pub value: String,
}

/// A purchase unit of an order.
#[derive(Debug)]
pub struct PayPalPurchaseUnit {
    pub amount: PayPalAmount,
}

/// A PayPal order, as the gateway reports it.
#[derive(Debug)]
pub struct PayPalOrder {
    pub id: String,
    pub status: String,
    pub purchase_units: Vec<PayPalPurchaseUnit>,
}

/// A PayPal refund, as the gateway reports it.
#[derive(Debug)]
pub struct PayPalRefund {
    pub id: String,
    pub status: String,
    pub amount: Option<PayPalAmount>,
}

/// The currency that a code names; US dollars where it names none.
pub open spec fn currency_or_usd(code: Seq<char>) -> Currency {
    match money::currency_named(code) {
        Some(c) => c,
        None => Currency::USD,
    }
}

/// The amount that PayPal reported, or the error about one that cannot be read.
pub open spec fn reported_amount(amount: PayPalAmount, context: Seq<char>) -> Result<Money, Fault> {
    match money::gateway_money(amount.value@, currency_or_usd(amount.currency_code@)) {
        Some(m) => Ok(m),
        None => Err(
            Fault::Serialization(
                "PayPal returned an unparseable "@ + context + " amount "@ + text::debug_text(amount.value@)
                    + " (currency "@ + text::debug_text(amount.currency_code@)
                    + "). The operation may well have succeeded — reconcile against PayPal rather than assuming it did not."@,
            ),
        ),
    }
}

/// The amount PayPal reported, parsed exactly. One that cannot be read is an error, never zero.
pub fn paypal_amount(amount: &PayPalAmount, context: &str) -> (r: PaymentResult<Money>)
    ensures
        gateway::outcome(r) == reported_amount(*amount, context@),
{
    let currency = match Currency::from_code(&amount.currency_code) {
        Some(c) => c,
        None => Currency::USD,
    };
    match Money::from_gateway_string(&amount.value, currency) {
        Some(m) => Ok(m),
        None => {
            let value = quoted(&amount.value);
            let code = quoted(&amount.currency_code);
            let mut message = concat3("PayPal returned an unparseable ", context, " amount ");
            message.append(&value);
            message.append(" (currency ");
            message.append(&code);
            message.append("). The operation may well have succeeded — reconcile against PayPal rather than assuming it did not.");
            Err(PaymentError::Serialization(message))
        },
    }
}

/// The charge status that an order status stands for.
pub open spec fn charge_status(status: Seq<char>) -> ChargeStatus {
    if status == "COMPLETED"@ || status == "CAPTURED"@ {
        ChargeStatus::Succeeded
    } else if status == "VOIDED"@ {
        ChargeStatus::Canceled
    } else if status == "DECLINED"@ || status == "FAILED"@ {
        ChargeStatus::Failed
    } else {
        ChargeStatus::Pending
    }
}

/// Map a PayPal order or capture status onto a charge status.
pub fn order_charge_status(status: &str) -> (r: ChargeStatus)
    ensures
        r == charge_status(status@),
        r is Succeeded <==> status@ == "COMPLETED"@ || status@ == "CAPTURED"@,
        r is Canceled <==> status@ == "VOIDED"@,
        r is Failed <==> status@ == "DECLINED"@ || status@ == "FAILED"@,
        r is Succeeded || r is Canceled || r is Failed || r is Pending,
{
    proof {
        laws::paypal::statuses_are_read_as_named(status@);
    }
    if same(status, "COMPLETED") || same(status, "CAPTURED") {
        ChargeStatus::Succeeded
    } else if same(status, "VOIDED") {
        ChargeStatus::Canceled
    } else if same(status, "DECLINED") || same(status, "FAILED") {
        ChargeStatus::Failed
    } else {
        ChargeStatus::Pending
    }
}

/// The refund status that a status stands for.
pub open spec fn refund_status(status: Seq<char>) -> RefundStatus {
    if status == "COMPLETED"@ {
        RefundStatus::Succeeded
    } else if status == "CANCELLED"@ {
        RefundStatus::Canceled
    } else if status == "FAILED"@ {
        RefundStatus::Failed
    } else {
        RefundStatus::Pending
    }
}

/// The document of an amount.
pub open spec fn amount_tree(m: Money) -> Tree {
    Tree::Object(
        seq![
            ("currency_code"@, Tree::Text(m.currency.spec_code())),
            ("value"@, Tree::Text(money::gateway_text(m))),
        ],
    )
}

fn amount_body(m: Money) -> (r: Json)
    ensures
        r.tree() == amount_tree(m),
{
    let value = m.to_gateway_string();
    let mut members = no_members();
    push_text(&mut members, "currency_code", m.currency.code());
    push_text(&mut members, "value", &value);
    proof {
        assert(json::member_trees(members@) =~= amount_tree(m)->Object_0);
    }
    object(members)
}

/// The order that a charge request asks for.
pub open spec fn order_tree(request: ChargeRequest, custom_id: Option<Seq<char>>) -> Tree {
    Tree::Object(
        seq![
            (
                "intent"@,
                Tree::Text(
                    if request.capture {
                        "CAPTURE"@
                    } else {
                        "AUTHORIZE"@
                    },
                ),
            ),
            (
                "purchase_units"@,
                Tree::Array(
                    seq![
                        Tree::Object(
                            seq![("amount"@, amount_tree(request.amount))] + json::opt_member(
                                "description"@,
                                text::opt_text(request.description),
                            ) + json::opt_member("soft_descriptor"@, text::opt_text(request.statement_descriptor))
                                + json::opt_member("custom_id"@, custom_id),
                        ),
                    ],
                ),
            ),
        ],
    )
}

/// The custom id for encoded metadata, or the error about metadata that is too long.
pub open spec fn custom_id_of(encoded: Result<Seq<char>, Seq<char>>) -> Result<Seq<char>, Fault> {
    match encoded {
        Ok(s) => if encode_utf8(s).len() > MAX_CUSTOM_ID {
            Err(
                Fault::Validation(
                    "PayPal custom_id is limited to 127 characters; the encoded metadata is "@ + text::int_text(
                        encode_utf8(s).len() as int,
                    ) + " characters. Store the detail against the returned order id instead."@,
                ),
            )
        } else {
            Ok(s)
        },
        Err(reason) => Err(Fault::Serialization(reason)),
    }
}

/// The custom id for encoded metadata. Metadata that is too long is refused rather than dropped.
pub fn custom_id(encoded: Result<String, String>) -> (r: PaymentResult<String>)
    ensures
        match r {
            Ok(s) => encoded matches Ok(t) && s == t && encode_utf8(t@).len() <= MAX_CUSTOM_ID,
            Err(e) => match encoded {
                Ok(t) => custom_id_of(Ok(t@)) matches Err(fault) && e@ == fault,
                Err(t) => e@ == Fault::Serialization(t@),
            },
        },
{
    match encoded {
        Ok(s) => {
            let length: usize = s.as_str().as_bytes().len();
            if length > MAX_CUSTOM_ID {
                let shown = unsigned_text(length as u64);
                return Err(
                    PaymentError::Validation(
                        concat3(
                            "PayPal custom_id is limited to 127 characters; the encoded metadata is ",
                            &shown,
                            " characters. Store the detail against the returned order id instead.",
                        ),
                    ),
                );
            }
            Ok(s)
        },
        Err(reason) => Err(PaymentError::Serialization(reason)),
    }
}

/// The request that creates an order.
pub open spec fn order_fields(request: ChargeRequest, custom_id: Option<Seq<char>>) -> RequestFields {
    RequestFields {
        method: Method::Post,
        path: "/v2/checkout/orders"@,
        dedup: gateway::dedup_header(PAYPAL_REQUEST_ID_HEADER@, request.idempotency_key),
        body: BodyFields::Json(order_tree(request, custom_id)),
    }
}

/// The request that creates an order with the given custom id.
pub fn order_request(request: &ChargeRequest, custom_id: Option<String>) -> (r: GatewayRequest)
    ensures
        r@ == order_fields(*request, text::opt_text(custom_id)),
{
    let mut unit = no_members();
    push_json(&mut unit, "amount", amount_body(request.amount));
    proof {
        assert(json::member_trees(unit@) =~= seq![("amount"@, amount_tree(request.amount))]);
    }
    push_opt_text(&mut unit, "description", &request.description);
    push_opt_text(&mut unit, "soft_descriptor", &request.statement_descriptor);
    push_opt_text(&mut unit, "custom_id", &custom_id);
    let mut units: Vec<Json> = Vec::new();
    let unit_json = object(unit);
    units.push(unit_json);
    proof {
        json::lemma_array_tree(units);
        assert(json::trees(units@) =~= seq![unit_json.tree()]);
    }
    let intent = if request.capture {
        "CAPTURE"
    } else {
        "AUTHORIZE"
    };
    let mut members = no_members();
    push_text(&mut members, "intent", intent);
    push_json(&mut members, "purchase_units", Json::Array(units));
    proof {
        assert(json::member_trees(members@) =~= order_tree(*request, text::opt_text(custom_id))->Object_0);
    }
    let body = Body::Json(object(members));
    GatewayRequest::keyed(owned("/v2/checkout/orders"), body, PAYPAL_REQUEST_ID_HEADER, &request.idempotency_key)
}

/// The amount of the first purchase unit, or `otherwise` where there is none.
pub open spec fn order_amount(order: PayPalOrder, context: Seq<char>, otherwise: Money) -> Result<Money, Fault> {
    if order.purchase_units@.len() > 0 {
        reported_amount(order.purchase_units@[0].amount, context)
    } else {
        Ok(otherwise)
    }
}

fn first_amount(order: &PayPalOrder, context: &str, otherwise: Money) -> (r: PaymentResult<Money>)
    ensures
        gateway::outcome(r) == order_amount(*order, context@, otherwise),
{
    if order.purchase_units.len() > 0 {
        paypal_amount(&order.purchase_units[0].amount, context)
    } else {
        Ok(otherwise)
    }
}

/// What the reply to the creation of an order says.
pub open spec fn charge_outcome(
    request: ChargeRequest,
    reply: GatewayReply,
    decoded: Result<PayPalOrder, String>,
    now: Timestamp,
) -> Result<Charge, Fault> {
    match gateway::settled("paypal"@, reply, decoded, None) {
        Ok(order) => match order_amount(order, "order"@, request.amount) {
            Ok(amount) => Ok(
                Charge {
                    id: order.id,
                    amount,
                    amount_refunded: Money { amount: 0, currency: amount.currency },
                    status: charge_status(order.status@),
                    customer_id: request.customer_id,
                    payment_method: None,
                    description: request.description,
                    receipt_url: None,
                    failure_reason: None,
                    metadata: request.metadata,
                    created_at: now,
                    captured: order.status@ == "COMPLETED"@,
                    refunded: false,
                    disputed: false,
                },
            ),
            Err(fault) => Err(fault),
        },
        Err(fault) => Err(fault),
    }
}

/// The request that refunds a capture, in full or in part.
pub open spec fn refund_fields(request: RefundRequest) -> RequestFields {
    RequestFields {
        method: Method::Post,
        path: "/v2/payments/captures/"@ + request.charge_id@ + "/refund"@,
        dedup: gateway::dedup_header(PAYPAL_REQUEST_ID_HEADER@, request.idempotency_key),
        body: BodyFields::Json(
            Tree::Object(
                match request.amount {
                    Some(m) => seq![("amount"@, amount_tree(m))],
                    None => Seq::empty(),
                },
            ),
        ),
    }
}

/// What the reply to the creation of an order says, received at `now`.
pub fn charge_result_at(
    request: ChargeRequest,
    reply: &GatewayReply,
    decoded: Result<PayPalOrder, String>,
    now: Timestamp,
) -> (r: PaymentResult<Charge>)
    ensures
        gateway::outcome(r) == charge_outcome(request, *reply, decoded, now),
        r is Ok ==> 200 <= reply.status < 300 && decoded is Ok,
        r matches Ok(charge) ==> (decoded matches Ok(order) && {
            &&& charge.id == order.id
            &&& charge.status is Succeeded <==> order.status@ == "COMPLETED"@ || order.status@ == "CAPTURED"@
            &&& charge.status is Canceled <==> order.status@ == "VOIDED"@
            &&& charge.status is Failed <==> order.status@ == "DECLINED"@ || order.status@ == "FAILED"@
            &&& charge.captured <==> order.status@ == "COMPLETED"@
        }),
{
    proof {
        if decoded is Ok {
            laws::paypal::statuses_are_read_as_named((decoded->Ok_0).status@);
        }
    }
    let order = match settle("paypal", reply, decoded, None) {
        Ok(order) => order,
        Err(e) => return Err(e),
    };
    let amount = match first_amount(&order, "order", request.amount) {
        Ok(m) => m,
        Err(e) => return Err(e),
    };
    let captured: bool = same(&order.status, "COMPLETED");
    let status = order_charge_status(&order.status);
    Ok(
        Charge {
            id: order.id,
            amount,
            amount_refunded: Money::new(0, amount.currency),
            status,
            customer_id: request.customer_id,
            payment_method: None,
            description: request.description,
            receipt_url: None,
            failure_reason: None,
            metadata: request.metadata,
            created_at: now,
            captured,
            refunded: false,
            disputed: false,
        },
    )
}

/// Whether `r` is what the reply to a capture says.
pub open spec fn capture_outcome(
    charge_id: Seq<char>,
    reply: GatewayReply,
    decoded: Result<PayPalOrder, String>,
    now: Timestamp,
    r: PaymentResult<Charge>,
) -> bool {
    match gateway::settled("paypal"@, reply, decoded, Some(Fault::ChargeNotFound(charge_id))) {
        Ok(order) => match order_amount(order, "capture"@, Money { amount: 0, currency: Currency::USD }) {
            Ok(amount) => r matches Ok(c) && c.metadata@ == Map::<Seq<char>, Seq<char>>::empty() && c == (Charge {
                id: order.id,
                amount,
                amount_refunded: Money { amount: 0, currency: amount.currency },
                status: charge_status(order.status@),
                customer_id: None,
                payment_method: None,
                description: None,
                receipt_url: None,
                failure_reason: None,
                metadata: c.metadata,
                created_at: now,
                captured: charge_status(order.status@) == ChargeStatus::Succeeded,
                refunded: false,
                disputed: false,
            }),
            Err(fault) => r matches Err(e) && e@ == fault,
        },
        Err(fault) => r matches Err(e) && e@ == fault,
    }
}

/// What the reply to a capture says, received at `now`.
pub fn capture_result_at(
    charge_id: &str,
    reply: &GatewayReply,
    decoded: Result<PayPalOrder, String>,
    now: Timestamp,
) -> (r: PaymentResult<Charge>)
    ensures
        capture_outcome(charge_id@, *reply, decoded, now, r),
        r is Ok ==> 200 <= reply.status < 300 && decoded is Ok,
        r matches Ok(charge) ==> (decoded matches Ok(order) && {
            &&& charge.id == order.id
            &&& charge.status is Succeeded <==> order.status@ == "COMPLETED"@ || order.status@ == "CAPTURED"@
            &&& charge.status is Canceled <==> order.status@ == "VOIDED"@
            &&& charge.status is Failed <==> order.status@ == "DECLINED"@ || order.status@ == "FAILED"@
            &&& charge.captured <==> order.status@ == "COMPLETED"@ || order.status@ == "CAPTURED"@
        }),
        reply.status == 404 ==> (r matches Err(e) && e@ == Fault::ChargeNotFound(charge_id@)),
{
    proof {
        if decoded is Ok {
            laws::paypal::statuses_are_read_as_named((decoded->Ok_0).status@);
        }
    }
    let not_found = PaymentError::ChargeNotFound(owned(charge_id));
    let order = match settle("paypal", reply, decoded, Some(not_found)) {
        Ok(order) => order,
        Err(e) => return Err(e),
    };
    let amount = match first_amount(&order, "capture", Money::usd(0)) {
        Ok(m) => m,
        Err(e) => return Err(e),
    };
    let status = order_charge_status(&order.status);
    Ok(
        Charge {
            id: order.id,
            amount,
            amount_refunded: Money::new(0, amount.currency),
            status,
            customer_id: None,
            payment_method: None,
            description: None,
            receipt_url: None,
            failure_reason: None,
            metadata: StringMap::new(),
            created_at: now,
            captured: status == ChargeStatus::Succeeded,
            refunded: false,
            disputed: false,
        },
    )
}

/// What the reply to a refund says.
pub open spec fn refund_outcome(
    request: RefundRequest,
    reply: GatewayReply,
    decoded: Result<PayPalRefund, String>,
    now: Timestamp,
) -> Result<Refund, Fault> {
    match gateway::settled("paypal"@, reply, decoded, Some(Fault::ChargeNotFound(request.charge_id@))) {
        Ok(refund) => {
            let amount = match refund.amount {
                Some(a) => reported_amount(a, "refund"@),
                None => Ok(Money { amount: 0, currency: Currency::USD }),
            };
            match amount {
                Ok(m) => Ok(
                    Refund {
                        id: refund.id,
                        charge_id: request.charge_id,
                        amount: m,
                        status: refund_status(refund.status@),
                        reason: request.reason,
                        created_at: now,
                    },
                ),
                Err(fault) => Err(fault),
            }
        },
        Err(fault) => Err(fault),
    }
}

/// What the reply to a refund says, received at `now`.
pub fn refund_result_at(
    request: RefundRequest,
    reply: &GatewayReply,
    decoded: Result<PayPalRefund, String>,
    now: Timestamp,
) -> (r: PaymentResult<Refund>)
    ensures
        gateway::outcome(r) == refund_outcome(request, *reply, decoded, now),
        r is Ok ==> 200 <= reply.status < 300 && decoded is Ok,
        r matches Ok(refund) ==> (decoded matches Ok(sent) && {
            &&& refund.id == sent.id && refund.charge_id == request.charge_id && refund.reason == request.reason
            &&& refund.status is Succeeded <==> sent.status@ == "COMPLETED"@
            &&& refund.status is Canceled <==> sent.status@ == "CANCELLED"@
            &&& refund.status is Failed <==> sent.status@ == "FAILED"@
        }),
        reply.status == 404 ==> (r matches Err(e) && e@ == Fault::ChargeNotFound(request.charge_id@)),
{
    proof {
        if decoded is Ok {
            laws::paypal::statuses_are_read_as_named((decoded->Ok_0).status@);
        }
    }
    let not_found = PaymentError::ChargeNotFound(request.charge_id.clone());
    let refund = match settle("paypal", reply, decoded, Some(not_found)) {
        Ok(refund) => refund,
        Err(e) => return Err(e),
    };
    let amount = match &refund.amount {
        Some(a) => match paypal_amount(a, "refund") {
            Ok(m) => m,
            Err(e) => return Err(e),
        },
        None => Money::usd(0),
    };
    let status = if same(&refund.status, "COMPLETED") {
        RefundStatus::Succeeded
    } else if same(&refund.status, "CANCELLED") {
        RefundStatus::Canceled
    } else if same(&refund.status, "FAILED") {
        RefundStatus::Failed
    } else {
        RefundStatus::Pending
    };
    Ok(
        Refund {
            id: refund.id,
            charge_id: request.charge_id,
            amount,
            status,
            reason: request.reason,
            created_at: now,
        },
    )
}

impl PayPalProvider {
    /// The request that creates an order awaiting the buyer's approval. The metadata travels as the
    /// custom id of the purchase unit.
    pub fn charge_request(&self, request: &ChargeRequest) -> (r: PaymentResult<GatewayRequest>)
        ensures
            if request.metadata@ == Map::<Seq<char>, Seq<char>>::empty() {
                r matches Ok(q) && q@ == order_fields(*request, None)
            } else {
                match custom_id_of(metadata_text(request.metadata.listed())) {
                    Ok(id) => r matches Ok(q) && q@ == order_fields(*request, Some(id)),
                    Err(fault) => r matches Err(e) && e@ == fault,
                }
            },
    {
        if request.metadata.is_empty() {
            return Ok(order_request(request, None));
        }
        let encoded = encode_entries(request.metadata.entries());
        match custom_id(encoded) {
            Ok(id) => Ok(order_request(request, Some(id))),
            Err(e) => Err(e),
        }
    }

    /// What the reply to the creation of an order says.
    pub fn charge_result(
        &self,
        request: ChargeRequest,
        reply: &GatewayReply,
        decoded: Result<PayPalOrder, String>,
    ) -> (r: PaymentResult<Charge>)
        ensures
            exists|now: Timestamp|
                #[trigger] clock::can_be_now(now) && gateway::outcome(r) == charge_outcome(request, *reply, decoded, now),
            r is Ok ==> 200 <= reply.status < 300 && decoded is Ok,
            r matches Ok(charge) ==> (decoded matches Ok(order) && {
                &&& charge.id == order.id
                &&& charge.status is Succeeded <==> order.status@ == "COMPLETED"@ || order.status@ == "CAPTURED"@
                &&& charge.status is Canceled <==> order.status@ == "VOIDED"@
                &&& charge.status is Failed <==> order.status@ == "DECLINED"@ || order.status@ == "FAILED"@
                &&& charge.captured <==> order.status@ == "COMPLETED"@
            }),
    {
        charge_result_at(request, reply, decoded, now())
    }

    /// The request that captures an approved order, in full. PayPal cannot capture a part of it.
    pub fn capture_request(&self, charge_id: &str, amount: Option<Money>) -> (r: PaymentResult<GatewayRequest>)
        ensures
            match amount {
                None => r matches Ok(q) && q@ == (RequestFields {
                    method: Method::Post,
                    path: "/v2/checkout/orders/"@ + charge_id@ + "/capture"@,
                    dedup: None,
                    body: BodyFields::Json(Tree::Object(Seq::empty())),
                }),
                Some(m) => r matches Err(e) && e@ == Fault::Unsupported(
                    "PayPal cannot partially capture order "@ + charge_id@
                        + ": the orders capture endpoint has no amount field, and partial capture ("@
                        + m.currency.spec_symbol() + money::gateway_text(m)
                        + ") requires the authorization id from an AUTHORIZE-intent order via /v2/payments/authorizations/{id}/capture. Capture the full order, or drive the authorization endpoint directly."@,
                ),
            },
    {
        match amount {
            Some(m) => {
                let shown = m.format();
                let mut message = concat3(
                    "PayPal cannot partially capture order ",
                    charge_id,
                    ": the orders capture endpoint has no amount field, and partial capture (",
                );
                message.append(&shown);
                message.append(") requires the authorization id from an AUTHORIZE-intent order via /v2/payments/authorizations/{id}/capture. Capture the full order, or drive the authorization endpoint directly.");
                proof {
                    let a = "PayPal cannot partially capture order "@ + charge_id@
                        + ": the orders capture endpoint has no amount field, and partial capture ("@;
                    assert(a + (m.currency.spec_symbol() + money::gateway_text(m)) =~= a + m.currency.spec_symbol()
                        + money::gateway_text(m));
                }
                Err(PaymentError::Unsupported(message))
            },
            None => {
                let path = concat3("/v2/checkout/orders/", charge_id, "/capture");
                Ok(GatewayRequest::plain(Method::Post, path, Body::Json(object(no_members()))))
            },
        }
    }

    /// What the reply to a capture says.
    pub fn capture_result(&self, charge_id: &str, reply: &GatewayReply, decoded: Result<PayPalOrder, String>) -> (r:
        PaymentResult<Charge>)
        ensures
            exists|now: Timestamp|
                #[trigger] clock::can_be_now(now) && capture_outcome(charge_id@, *reply, decoded, now, r),
            r is Ok ==> 200 <= reply.status < 300 && decoded is Ok,
            r matches Ok(charge) ==> (decoded matches Ok(order) && {
                &&& charge.id == order.id
                &&& charge.status is Succeeded <==> order.status@ == "COMPLETED"@ || order.status@ == "CAPTURED"@
                &&& charge.status is Canceled <==> order.status@ == "VOIDED"@
                &&& charge.status is Failed <==> order.status@ == "DECLINED"@ || order.status@ == "FAILED"@
                &&& charge.captured <==> order.status@ == "COMPLETED"@ || order.status@ == "CAPTURED"@
            }),
            reply.status == 404 ==> (r matches Err(e) && e@ == Fault::ChargeNotFound(charge_id@)),
    {
        capture_result_at(charge_id, reply, decoded, now())
    }

    /// The request that refunds a capture, in full or in part.
    pub fn refund_request(&self, request: &RefundRequest) -> (r: GatewayRequest)
        ensures
            r@ == refund_fields(*request),
    {
        let mut members = no_members();
        match request.amount {
            Some(m) => {
                push_json(&mut members, "amount", amount_body(m));
                proof {
                    assert(json::member_trees(members@) =~= seq![("amount"@, amount_tree(m))]);
                }
            },
            None => {},
        }
        let path = concat3("/v2/payments/captures/", &request.charge_id, "/refund");
        GatewayRequest::keyed(path, Body::Json(object(members)), PAYPAL_REQUEST_ID_HEADER, &request.idempotency_key)
    }

    /// What the reply to a refund says.
    pub fn refund_result(
        &self,
        request: RefundRequest,
        reply: &GatewayReply,
        decoded: Result<PayPalRefund, String>,
    ) -> (r: PaymentResult<Refund>)
        ensures
            exists|now: Timestamp|
                #[trigger] clock::can_be_now(now) && gateway::outcome(r) == refund_outcome(request, *reply, decoded, now),
            r is Ok ==> 200 <= reply.status < 300 && decoded is Ok,
            r matches Ok(refund) ==> (decoded matches Ok(sent) && {
                &&& refund.id == sent.id && refund.charge_id == request.charge_id && refund.reason == request.reason
                &&& refund.status is Succeeded <==> sent.status@ == "COMPLETED"@
                &&& refund.status is Canceled <==> sent.status@ == "CANCELLED"@
                &&& refund.status is Failed <==> sent.status@ == "FAILED"@
            }),
            reply.status == 404 ==> (r matches Err(e) && e@ == Fault::ChargeNotFound(request.charge_id@)),
    {
        refund_result_at(request, reply, decoded, now())
    }
}

/// An order that carries an idempotency key is sent with it.
pub proof fn order_carries_its_key(request: ChargeRequest, custom_id: Option<Seq<char>>, key: String)
    requires
        request.idempotency_key == Some(key),
    ensures
        order_fields(request, custom_id).dedup == Some((PAYPAL_REQUEST_ID_HEADER@, key@)),
{
}

/// A refund that carries an idempotency key is sent with it.
pub proof fn refund_carries_its_key(request: RefundRequest, key: String)
    requires
        request.idempotency_key == Some(key),
    ensures
        refund_fields(request).dedup == Some((PAYPAL_REQUEST_ID_HEADER@, key@)),
{
}

} // verus!
