//! Stripe payment provider
//!
//! Requests are forms, and a repeated request is recognised by its idempotency key.
use crate::clock::{self, now, timestamp_or, Timestamp};
use crate::error::{self, DeclineCode, Fault, PaymentError, PaymentResult};
use crate::gateway::{
    self, classify_status, validate_base_url, Body, BodyFields, GatewayReply, GatewayRequest, Method, RequestFields,
};
use crate::laws;
use crate::money::{self, Currency, Money};
use crate::processor::PaymentProvider;
use crate::redact::{self, sanitize_body};
use crate::string_map::{self, StringMap};
use crate::text::{self, concat3, owned, same, signed_text, to_lowercase};
use crate::types::{
    Charge, ChargeRequest, ChargeStatus, PaymentSource, Refund, RefundReason, RefundRequest, RefundStatus,
};
use vstd::prelude::*;

pub use crate::providers::stripe_webhook::STRIPE_SIGNATURE_HEADER;

verus! {

/// The header by which Stripe recognises a repeated request.
pub const STRIPE_IDEMPOTENCY_HEADER: &'static str = "Idempotency-Key";

/// The age in seconds that a signed webhook may have, unless set otherwise: five minutes.
pub const DEFAULT_TOLERANCE_SECS: i64 = 300;

/// Stripe provider
pub struct StripeProvider {
    api_key: String,
    base_url: String,
    webhook_secret: Option<String>,
    webhook_tolerance: Option<i64>,
}

/// What a [`StripeProvider`] is configured with.
pub struct StripeFields {
    pub api_key: Seq<char>,
    pub base_url: Seq<char>,
    pub webhook_secret: Option<Seq<char>>,
    pub webhook_tolerance: Option<i64>,
}

impl View for StripeProvider {
    type V = StripeFields;

    closed spec fn view(&self) -> StripeFields {
        StripeFields {
            api_key: self.api_key@,
            base_url: self.base_url@,
            webhook_secret: text::opt_text(self.webhook_secret),
            webhook_tolerance: self.webhook_tolerance,
        }
    }
}

impl PaymentProvider for StripeProvider {
    open spec fn provider_name(&self) -> Seq<char> {
        "stripe"@
    }

    open spec fn deduplicates(&self) -> bool {
        true
    }

    fn name(&self) -> (r: &'static str)
        ensures
            r@ == "stripe"@,
    {
        "stripe"
    }

    fn supports_idempotency(&self) -> (r: bool)
        ensures
            r,
    {
        true
    }
}

impl StripeProvider {
    /// Create a new Stripe provider.
    pub fn new(api_key: &str) -> (r: PaymentResult<Self>)
        ensures
            r matches Ok(p) && p@ == (StripeFields {
                api_key: api_key@,
                base_url: "https://api.stripe.com/v1"@,
                webhook_secret: None,
                webhook_tolerance: Some(DEFAULT_TOLERANCE_SECS),
            }),
            r matches Ok(p) && p@.webhook_tolerance == Some(300i64),
    {
        Ok(
            StripeProvider {
                api_key: owned(api_key),
                base_url: owned("https://api.stripe.com/v1"),
                webhook_secret: None,
                webhook_tolerance: Some(DEFAULT_TOLERANCE_SECS),
            },
        )
    }

    /// Point the client at an alternate API base URL (a mock or proxy).
    ///
    /// The URL must be `https`, or `http` to this machine: every request carries the secret API key.
    pub fn with_base_url(self, base_url: &str) -> (r: PaymentResult<Self>)
        ensures
            match r {
                Ok(p) => gateway::allowed_base_url(base_url@) && p@ == (StripeFields {
                    base_url: text::trim_end_of(base_url@, '/'),
                    ..self@
                }),
                Err(e) => !gateway::allowed_base_url(base_url@) && e@ == Fault::Config(
                    "base URL must be https, or http to a loopback host: "@ + base_url@,
                ),
            },
    {
        match validate_base_url(base_url) {
            Ok(url) => {
                let mut r = self;
                r.base_url = url;
                Ok(r)
            },
            Err(e) => Err(e),
        }
    }

    /// Set webhook secret
    pub fn with_webhook_secret(self, secret: &str) -> (r: Self)
        ensures
            r@ == (StripeFields { webhook_secret: Some(secret@), ..self@ }),
    {
        let mut r = self;
        r.webhook_secret = Some(owned(secret));
        r
    }

    /// The age in seconds that a signed webhook may have before it is rejected as a replay.
    pub fn with_webhook_tolerance(self, tolerance_secs: i64) -> (r: Self)
        ensures
            r@ == (StripeFields { webhook_tolerance: Some(tolerance_secs), ..self@ }),
    {
        let mut r = self;
        r.webhook_tolerance = Some(tolerance_secs);
        r
    }

    /// Disable webhook replay protection: a captured webhook stays valid forever.
    pub fn without_webhook_tolerance(self) -> (r: Self)
        ensures
            r@ == (StripeFields { webhook_tolerance: None, ..self@ }),
    {
        let mut r = self;
        r.webhook_tolerance = None;
        r
    }

    /// The API base URL.
    pub fn base_url(&self) -> (r: &str)
        ensures
            r@ == self@.base_url,
    {
        self.base_url.as_str()
    }

    /// The secret API key, sent as a bearer token.
    pub fn api_key(&self) -> (r: &str)
        ensures
            r@ == self@.api_key,
    {
        self.api_key.as_str()
    }

    pub(crate) fn webhook_secret(&self) -> (r: Option<&String>)
        ensures
            match r {
                Some(s) => self@.webhook_secret == Some(s@),
                None => self@.webhook_secret is None,
            },
    {
        self.webhook_secret.as_ref()
    }

    pub(crate) fn webhook_tolerance(&self) -> (r: Option<i64>)
        ensures
            r == self@.webhook_tolerance,
    {
        self.webhook_tolerance
    }
}

/// What Stripe says about an error.
#[derive(Debug)]
pub struct StripeErrorDetail {
    pub message: String,
    pub error_type: Option<String>,
    pub code: Option<String>,
    pub decline_code: Option<String>,
}

/// Stripe's answer to a request.
#[derive(Debug)]
pub struct StripeReply {
    pub reply: GatewayReply,
    /// The error that the body describes, where it describes one.
    pub error: Option<StripeErrorDetail>,
}

/// The code that says why a card was declined, where there is one.
pub open spec fn reason_code(detail: StripeErrorDetail) -> Option<Seq<char>> {
    match detail.decline_code {
        Some(code) => Some(code@),
        None => text::opt_text(detail.code),
    }
}

/// Whether the type of an error is the given one.
pub open spec fn is_type(detail: StripeErrorDetail, name: Seq<char>) -> bool {
    text::opt_text(detail.error_type) == Some(name)
}

/// The error that Stripe describes in a reply with the given status.
pub open spec fn described_fault(status: u16, detail: StripeErrorDetail, retry_after: Option<u32>) -> Fault {
    let decline = match reason_code(detail) {
        Some(code) => error::decline_code(code),
        None => DeclineCode::Unknown,
    };
    let backoff = match retry_after {
        Some(secs) => secs,
        None => 1,
    };
    let message = redact::sanitized(detail.message@);
    if decline == DeclineCode::ExpiredCard {
        Fault::CardExpired
    } else if decline == DeclineCode::InsufficientFunds {
        Fault::InsufficientFunds
    } else if is_type(detail, "card_error"@) {
        Fault::CardDeclined(message)
    } else if is_type(detail, "authentication_error"@) {
        Fault::Authentication(message)
    } else if is_type(detail, "rate_limit_error"@) || status == 429 {
        Fault::RateLimited(backoff)
    } else if status == 401 || status == 403 {
        Fault::Authentication(message)
    } else {
        Fault::Provider(Some(status), message)
    }
}

/// The error that a reply stands for, where it is not a success.
pub open spec fn stripe_fault(reply: StripeReply) -> Fault {
    match reply.error {
        Some(detail) => described_fault(reply.reply.status, detail, reply.reply.retry_after),
        None => gateway::status_fault(
            "Stripe"@,
            reply.reply.status,
            reply.reply.body@,
            reply.reply.retry_after,
        ),
    }
}

fn decline_of(detail: &StripeErrorDetail) -> (r: DeclineCode)
    ensures
        r == (match reason_code(*detail) {
            Some(code) => error::decline_code(code),
            None => DeclineCode::Unknown,
        }),
{
    match &detail.decline_code {
        Some(code) => DeclineCode::from_str(code),
        None => match &detail.code {
            Some(code) => DeclineCode::from_str(code),
            None => DeclineCode::Unknown,
        },
    }
}

fn has_type(detail: &StripeErrorDetail, name: &str) -> (r: bool)
    ensures
        r == is_type(*detail, name@),
{
    match &detail.error_type {
        Some(t) => same(t, name),
        None => false,
    }
}

/// Map a Stripe error onto a typed error. Every message is redacted: Stripe's messages echo what
/// was submitted.
pub fn stripe_error(reply: &StripeReply) -> (r: PaymentError)
    ensures
        r@ == stripe_fault(*reply),
        reply.error is None ==> {
            &&& r is Authentication <==> reply.reply.status == 401 || reply.reply.status == 403
            &&& r is RateLimited <==> reply.reply.status == 429
        },
        reply.error matches Some(detail) ==> {
            let code = if detail.decline_code is Some {
                text::opt_text(detail.decline_code)
            } else {
                text::opt_text(detail.code)
            };
            let kind = text::opt_text(detail.error_type);
            &&& r is CardExpired <==> code is Some && text::lowercase(code->0) == "expired_card"@
            &&& r is InsufficientFunds <==> code is Some && text::lowercase(code->0) == "insufficient_funds"@
            &&& r is CardDeclined <==> kind == Some("card_error"@) && !(r is CardExpired) && !(r is InsufficientFunds)
        },
{
    proof {
        if reply.error is Some {
            laws::stripe::described_errors_are_told_apart(reply.reply.status, reply.error->0, reply.reply.retry_after);
        }
    }
    let status: u16 = reply.reply.status;
    let detail = match &reply.error {
        Some(detail) => detail,
        None => return classify_status("Stripe", status, &reply.reply.body, reply.reply.retry_after),
    };
    let backoff: u32 = match reply.reply.retry_after {
        Some(secs) => secs,
        None => 1,
    };
    match decline_of(detail) {
        DeclineCode::ExpiredCard => return PaymentError::CardExpired,
        DeclineCode::InsufficientFunds => return PaymentError::InsufficientFunds,
        _ => {},
    }
    let message = sanitize_body(&detail.message);
    if has_type(detail, "card_error") {
        PaymentError::CardDeclined(message)
    } else if has_type(detail, "authentication_error") {
        PaymentError::Authentication(message)
    } else if has_type(detail, "rate_limit_error") || status == 429 {
        PaymentError::RateLimited(backoff)
    } else if status == 401 || status == 403 {
        PaymentError::Authentication(message)
    } else {
        PaymentError::provider(Some(status), &message)
    }
}

/// What is decoded from the body of a success, or the error that the reply stands for.
pub open spec fn stripe_settled<T>(
    reply: StripeReply,
    decoded: Result<T, String>,
    not_found: Option<Fault>,
) -> Result<T, Fault> {
    if not_found is Some && reply.reply.status == 404 {
        Err(not_found->0)
    } else if !reply.reply.succeeded() {
        Err(stripe_fault(reply))
    } else {
        match decoded {
            Ok(v) => Ok(v),
            Err(reason) => Err(
                Fault::Serialization(reason@ + " (body: "@ + redact::sanitized(reply.reply.body@) + ")"@),
            ),
        }
    }
}

/// What is decoded from the body of a success, or the error that the reply stands for. `decoded` is
/// the body read as a resource, or why it could not be read as one; `not_found` is what a missing
/// resource means.
pub fn stripe_settle<T>(reply: &StripeReply, decoded: Result<T, String>, not_found: Option<PaymentError>) -> (r:
    PaymentResult<T>)
    ensures
        gateway::outcome(r) == stripe_settled(*reply, decoded, gateway::opt_fault(not_found)),
{
    if reply.reply.status == 404 {
        match not_found {
            Some(e) => return Err(e),
            None => {},
        }
    }
    if !reply.reply.is_success() {
        return Err(stripe_error(reply));
    }
    match decoded {
        Ok(v) => Ok(v),
        Err(reason) => {
            let shown = sanitize_body(&reply.reply.body);
            let mut message = concat3(&reason, " (body: ", &shown);
            message.append(")");
            Err(PaymentError::Serialization(message))
        },
    }
}

/// The form field that a metadata entry travels in.
pub open spec fn metadata_field(key: Seq<char>) -> Seq<char> {
    "metadata["@ + key + "]"@
}

/// Whether a form field is one that a metadata entry travels in.
pub open spec fn is_metadata_field(field: Seq<char>) -> bool {
    field.len() >= 10 && field == metadata_field(field.subrange(9, field.len() - 1))
}

/// A form with the metadata entries put in.
pub open spec fn with_metadata(form: Map<Seq<char>, Seq<char>>, metadata: Map<Seq<char>, Seq<char>>) -> Map<
    Seq<char>,
    Seq<char>,
> {
    let carried = |field: Seq<char>|
        is_metadata_field(field) && metadata.dom().contains(field.subrange(9, field.len() - 1));
    Map::new(
        |field: Seq<char>| form.dom().contains(field) || carried(field),
        |field: Seq<char>|
            if carried(field) {
                metadata[field.subrange(9, field.len() - 1)]
            } else {
                form[field]
            },
    )
}

/// The field of a metadata entry gives the entry's key back.
proof fn lemma_metadata_field(key: Seq<char>)
    ensures
        is_metadata_field(metadata_field(key)),
        metadata_field(key).subrange(9, metadata_field(key).len() - 1) == key,
{
    reveal_strlit("metadata[");
    reveal_strlit("]");
    let field = metadata_field(key);
    assert(field.subrange(9, field.len() - 1) =~= key);
}

/// Every metadata entry reaches the form, and no other field of it changes.
pub proof fn metadata_reaches_the_form(
    form: Map<Seq<char>, Seq<char>>,
    metadata: Map<Seq<char>, Seq<char>>,
    key: Seq<char>,
    field: Seq<char>,
)
    requires
        metadata.dom().contains(key),
        !is_metadata_field(field),
    ensures
        with_metadata(form, metadata).dom().contains(metadata_field(key)),
        with_metadata(form, metadata)[metadata_field(key)] == metadata[key],
        with_metadata(form, metadata).dom().contains(field) == form.dom().contains(field),
        form.dom().contains(field) ==> with_metadata(form, metadata)[field] == form[field],
{
    lemma_metadata_field(key);
}

/// One more metadata entry is one more field.
proof fn lemma_one_more(
    form: Map<Seq<char>, Seq<char>>,
    metadata: Map<Seq<char>, Seq<char>>,
    key: Seq<char>,
    value: Seq<char>,
)
    ensures
        with_metadata(form, metadata.insert(key, value)) == with_metadata(form, metadata).insert(
            metadata_field(key),
            value,
        ),
{
    lemma_metadata_field(key);
    let a = with_metadata(form, metadata.insert(key, value));
    let b = with_metadata(form, metadata).insert(metadata_field(key), value);
    assert forall|field: Seq<char>| a.dom().contains(field) == b.dom().contains(field) && (a.dom().contains(field)
        ==> a[field] == b[field]) by {
        if is_metadata_field(field) && field.subrange(9, field.len() - 1) == key {
            assert(field == metadata_field(key));
        }
    }
    assert(a =~= b);
}

fn put_metadata(form: &mut StringMap, metadata: &StringMap)
    ensures
        final(form)@ == with_metadata(old(form)@, metadata@),
{
    let entries = metadata.entries();
    let ghost p = metadata.listed();
    let ghost base = form@;
    proof {
        assert(p.take(0) =~= Seq::<(Seq<char>, Seq<char>)>::empty());
        assert(with_metadata(base, Map::empty()) =~= base);
    }
    let mut i: usize = 0;
    while i < entries.len()
        invariant
            i <= entries.len(),
            p == string_map::pairs(entries@),
            form@ == with_metadata(base, string_map::map_of(p.take(i as int))),
        decreases entries.len() - i,
    {
        let field = concat3("metadata[", &entries[i].0, "]");
        form.insert(field, entries[i].1.clone());
        proof {
            let q = p.take(i as int + 1);
            assert(q.drop_last() =~= p.take(i as int));
            lemma_one_more(base, string_map::map_of(p.take(i as int)), p[i as int].0, p[i as int].1);
        }
        i += 1;
    }
    proof {
        assert(p.take(entries@.len() as int) =~= p);
    }
}

/// A form with one more field, where there is a value for it.
pub open spec fn with_field(form: Map<Seq<char>, Seq<char>>, name: Seq<char>, value: Option<Seq<char>>) -> Map<
    Seq<char>,
    Seq<char>,
> {
    match value {
        Some(v) => form.insert(name, v),
        None => form,
    }
}

/// Puts a field into a form, where there is a value for it.
pub(crate) fn put_field(form: &mut StringMap, name: &str, value: &Option<String>)
    ensures
        final(form)@ == with_field(old(form)@, name@, text::opt_text(*value)),
{
    match value {
        Some(v) => form.insert(owned(name), v.clone()),
        None => {},
    }
}

/// The form of what a charge and a payment intent share.
pub open spec fn charge_form(request: ChargeRequest) -> Map<Seq<char>, Seq<char>> {
    let money = Map::<Seq<char>, Seq<char>>::empty().insert(
        "amount"@,
        text::int_text(request.amount.amount as int),
    ).insert("currency"@, text::lowercase(request.amount.currency.spec_code()));
    let described = with_field(money, "description"@, text::opt_text(request.description));
    let owner = with_field(described, "customer"@, text::opt_text(request.customer_id));
    with_metadata(
        with_field(owner, "statement_descriptor"@, text::opt_text(request.statement_descriptor)),
        request.metadata@,
    )
}

fn shared_form(request: &ChargeRequest) -> (r: StringMap)
    ensures
        r@ == charge_form(*request),
{
    let mut form = StringMap::new();
    form.insert(owned("amount"), signed_text(request.amount.amount));
    form.insert(owned("currency"), to_lowercase(request.amount.currency.code()));
    put_field(&mut form, "description", &request.description);
    put_field(&mut form, "customer", &request.customer_id);
    put_field(&mut form, "statement_descriptor", &request.statement_descriptor);
    put_metadata(&mut form, &request.metadata);
    form
}

/// The form of a payment intent, or the error about a source that it does not take.
pub open spec fn intent_form(request: ChargeRequest) -> Result<Map<Seq<char>, Seq<char>>, Fault> {
    match request.source {
        PaymentSource::PaymentMethod { id } => {
            let confirmed = charge_form(request).insert("payment_method"@, id@).insert("confirm"@, "true"@);
            Ok(
                if request.capture {
                    confirmed
                } else {
                    confirmed.insert("capture_method"@, "manual"@)
                },
            )
        },
        PaymentSource::Customer { customer_id } => Ok(charge_form(request).insert("customer"@, customer_id@)),
        PaymentSource::Card { token } => Err(
            Fault::Validation(
                "Stripe PaymentIntents do not accept raw card tokens; tokenize the card into a PaymentMethod first and use PaymentSource::PaymentMethod"@,
            ),
        ),
        PaymentSource::Bank { token } => Err(
            Fault::Validation(
                "Stripe PaymentIntents do not accept bank-account tokens directly; create a us_bank_account PaymentMethod and use PaymentSource::PaymentMethod"@,
            ),
        ),
    }
}

/// The request that creates a payment intent, or the error about a source that it does not take.
pub open spec fn intent_fields(request: ChargeRequest) -> Result<RequestFields, Fault> {
    match intent_form(request) {
        Ok(form) => Ok(
            RequestFields {
                method: Method::Post,
                path: "/payment_intents"@,
                dedup: gateway::dedup_header(STRIPE_IDEMPOTENCY_HEADER@, request.idempotency_key),
                body: BodyFields::Form(form),
            },
        ),
        Err(fault) => Err(fault),
    }
}

/// The request that a charge is made with, with the given form.
pub open spec fn posted_charge(request: ChargeRequest, form: Map<Seq<char>, Seq<char>>) -> RequestFields {
    RequestFields {
        method: Method::Post,
        path: "/charges"@,
        dedup: gateway::dedup_header(STRIPE_IDEMPOTENCY_HEADER@, request.idempotency_key),
        body: BodyFields::Form(
            form.insert(
                "capture"@,
                if request.capture {
                    "true"@
                } else {
                    "false"@
                },
            ),
        ),
    }
}

/// The request that a charge is made with. A payment method is charged through a payment intent.
pub open spec fn charge_fields(request: ChargeRequest) -> Result<RequestFields, Fault> {
    let form = charge_form(request);
    match request.source {
        PaymentSource::PaymentMethod { id } => intent_fields(request),
        PaymentSource::Card { token } => Ok(posted_charge(request, form.insert("source"@, token@))),
        PaymentSource::Bank { token } => Ok(posted_charge(request, form.insert("source"@, token@))),
        PaymentSource::Customer { customer_id } => Ok(
            posted_charge(request, form.insert("customer"@, customer_id@)),
        ),
    }
}

/// A request, with its error as what it says.
pub open spec fn request_outcome(r: PaymentResult<GatewayRequest>) -> Result<RequestFields, Fault> {
    match r {
        Ok(q) => Ok(q@),
        Err(e) => Err(e@),
    }
}

/// The name that Stripe has for a reason.
pub open spec fn reason_text(reason: RefundReason) -> Seq<char> {
    match reason {
        RefundReason::Duplicate => "duplicate"@,
        RefundReason::Fraudulent => "fraudulent"@,
        RefundReason::RequestedByCustomer => "requested_by_customer"@,
    }
}

/// The amount of money as text, where there is one.
pub open spec fn amount_text(amount: Option<Money>) -> Option<Seq<char>> {
    match amount {
        Some(m) => Some(text::int_text(m.amount as int)),
        None => None,
    }
}

/// The request that refunds a charge, in full or in part.
pub open spec fn refund_fields(request: RefundRequest) -> RequestFields {
    RequestFields {
        method: Method::Post,
        path: "/refunds"@,
        dedup: gateway::dedup_header(STRIPE_IDEMPOTENCY_HEADER@, request.idempotency_key),
        body: BodyFields::Form(
            with_field(
                with_field(
                    Map::empty().insert("charge"@, request.charge_id@),
                    "amount"@,
                    amount_text(request.amount),
                ),
                "reason"@,
                match request.reason {
                    Some(reason) => Some(reason_text(reason)),
                    None => None,
                },
            ),
        ),
    }
}

fn amount_shown(amount: &Option<Money>) -> (r: Option<String>)
    ensures
        text::opt_text(r) == amount_text(*amount),
{
    match amount {
        Some(m) => Some(signed_text(m.amount)),
        None => None,
    }
}

/// A Stripe charge, as the gateway reports it.
#[derive(Debug)]
pub struct StripeCharge {
    pub id: String,
    pub amount: i64,
    pub currency: String,
    pub status: String,
    pub customer: Option<String>,
    pub payment_method: Option<String>,
    pub description: Option<String>,
    pub receipt_url: Option<String>,
    pub failure_message: Option<String>,
    pub captured: bool,
    pub refunded: bool,
    pub disputed: bool,
    pub created: i64,
    pub metadata: StringMap,
    pub amount_refunded: Option<i64>,
}

/// The currency that a code names, or the given one where it names none.
pub open spec fn currency_or(code: Seq<char>, otherwise: Currency) -> Currency {
    match money::currency_named(code) {
        Some(c) => c,
        None => otherwise,
    }
}

fn read_currency(code: &str, otherwise: Currency) -> (r: Currency)
    ensures
        r == currency_or(code@, otherwise),
{
    match Currency::from_code(code) {
        Some(c) => c,
        None => otherwise,
    }
}

proof fn lemma_status_names()
    ensures
        "succeeded"@ != "failed"@,
        "succeeded"@ != "canceled"@,
        "failed"@ != "canceled"@,
        "duplicate"@ != "fraudulent"@,
        "duplicate"@ != "requested_by_customer"@,
        "fraudulent"@ != "requested_by_customer"@,
{
    reveal_strlit("succeeded");
    reveal_strlit("failed");
    reveal_strlit("canceled");
    reveal_strlit("duplicate");
    reveal_strlit("fraudulent");
    reveal_strlit("requested_by_customer");
    assert("succeeded"@.len() == 9 && "failed"@.len() == 6 && "canceled"@.len() == 8);
    assert("duplicate"@.len() == 9 && "fraudulent"@.len() == 10 && "requested_by_customer"@.len() == 21);
}

/// The charge status that the gateway's status stands for.
pub open spec fn charge_status(status: Seq<char>) -> ChargeStatus {
    if status == "succeeded"@ {
        ChargeStatus::Succeeded
    } else if status == "failed"@ {
        ChargeStatus::Failed
    } else {
        ChargeStatus::Pending
    }
}

impl StripeCharge {
    /// The charge that the gateway reports, read at `now`.
    pub open spec fn projected(self, now: Timestamp) -> Charge {
        let currency = currency_or(self.currency@, Currency::USD);
        Charge {
            id: self.id,
            amount: Money { amount: self.amount, currency },
            amount_refunded: Money {
                amount: match self.amount_refunded {
                    Some(n) => n,
                    None => 0,
                },
                currency,
            },
            status: charge_status(self.status@),
            customer_id: self.customer,
            payment_method: self.payment_method,
            description: self.description,
            receipt_url: self.receipt_url,
            failure_reason: self.failure_message,
            metadata: self.metadata,
            created_at: clock::instant_or(self.created, now),
            captured: self.captured,
            refunded: self.refunded,
            disputed: self.disputed,
        }
    }

    /// The charge that the gateway reports, read at `now`.
    pub fn into_charge(self, now: Timestamp) -> (r: Charge)
        ensures
            r == self.projected(now),
            r.status is Succeeded <==> self.status@ == "succeeded"@,
            r.status is Failed <==> self.status@ == "failed"@,
            r.status is Pending <==> self.status@ != "succeeded"@ && self.status@ != "failed"@,
            r.id == self.id,
            r.amount.amount == self.amount,
            r.amount_refunded.amount == (if self.amount_refunded is Some {
                self.amount_refunded->0
            } else {
                0
            }),
            r.amount.currency == r.amount_refunded.currency,
            r.captured == self.captured && r.refunded == self.refunded && r.disputed == self.disputed,
    {
        proof {
            lemma_status_names();
        }
        let currency = read_currency(&self.currency, Currency::USD);
        let status = if same(&self.status, "succeeded") {
            ChargeStatus::Succeeded
        } else if same(&self.status, "failed") {
            ChargeStatus::Failed
        } else {
            ChargeStatus::Pending
        };
        let refunded: i64 = match self.amount_refunded {
            Some(n) => n,
            None => 0,
        };
        Charge {
            id: self.id,
            amount: Money::new(self.amount, currency),
            amount_refunded: Money::new(refunded, currency),
            status,
            customer_id: self.customer,
            payment_method: self.payment_method,
            description: self.description,
            receipt_url: self.receipt_url,
            failure_reason: self.failure_message,
            metadata: self.metadata,
            created_at: timestamp_or(self.created, now),
            captured: self.captured,
            refunded: self.refunded,
            disputed: self.disputed,
        }
    }
}

/// A Stripe refund, as the gateway reports it.
#[derive(Debug)]
pub struct StripeRefund {
    pub id: String,
    pub charge: String,
    pub amount: i64,
    pub currency: String,
    pub status: String,
    pub reason: Option<String>,
    pub created: i64,
}

/// The refund status that the gateway's status stands for.
pub open spec fn refund_status(status: Seq<char>) -> RefundStatus {
    if status == "succeeded"@ {
        RefundStatus::Succeeded
    } else if status == "failed"@ {
        RefundStatus::Failed
    } else if status == "canceled"@ {
        RefundStatus::Canceled
    } else {
        RefundStatus::Pending
    }
}

/// The reason that a text names.
pub open spec fn reason_named(reason: Option<Seq<char>>) -> Option<RefundReason> {
    if reason == Some("duplicate"@) {
        Some(RefundReason::Duplicate)
    } else if reason == Some("fraudulent"@) {
        Some(RefundReason::Fraudulent)
    } else if reason == Some("requested_by_customer"@) {
        Some(RefundReason::RequestedByCustomer)
    } else {
        None
    }
}

/// A reason that is sent to Stripe is read back as the same reason.
pub proof fn reason_survives_the_wire(reason: RefundReason)
    ensures
        reason_named(Some(reason_text(reason))) == Some(reason),
{
    reveal_strlit("duplicate");
    reveal_strlit("fraudulent");
    reveal_strlit("requested_by_customer");
    assert("duplicate"@.len() == 9 && "fraudulent"@.len() == 10 && "requested_by_customer"@.len() == 21);
}

impl StripeRefund {
    /// The refund that the gateway reports, read at `now`.
    pub open spec fn projected(self, now: Timestamp) -> Refund {
        Refund {
            id: self.id,
            charge_id: self.charge,
            amount: Money { amount: self.amount, currency: currency_or(self.currency@, Currency::USD) },
            status: refund_status(self.status@),
            reason: reason_named(text::opt_text(self.reason)),
            created_at: clock::instant_or(self.created, now),
        }
    }

    /// The refund that the gateway reports, read at `now`.
    pub fn into_refund(self, now: Timestamp) -> (r: Refund)
        ensures
            r == self.projected(now),
            r.status is Succeeded <==> self.status@ == "succeeded"@,
            r.status is Failed <==> self.status@ == "failed"@,
            r.status is Canceled <==> self.status@ == "canceled"@,
            r.status is Pending <==> self.status@ != "succeeded"@ && self.status@ != "failed"@ && self.status@
                != "canceled"@,
            r.reason == Some(RefundReason::Duplicate) <==> (self.reason matches Some(s) && s@ == "duplicate"@),
            r.reason == Some(RefundReason::Fraudulent) <==> (self.reason matches Some(s) && s@ == "fraudulent"@),
            r.reason == Some(RefundReason::RequestedByCustomer) <==> (self.reason matches Some(s) && s@
                == "requested_by_customer"@),
            r.id == self.id && r.charge_id == self.charge,
            r.amount.amount == self.amount,
    {
        proof {
            lemma_status_names();
        }
        let currency = read_currency(&self.currency, Currency::USD);
        let status = if same(&self.status, "succeeded") {
            RefundStatus::Succeeded
        } else if same(&self.status, "failed") {
            RefundStatus::Failed
        } else if same(&self.status, "canceled") {
            RefundStatus::Canceled
        } else {
            RefundStatus::Pending
        };
        let reason = match &self.reason {
            Some(s) => if same(s, "duplicate") {
                Some(RefundReason::Duplicate)
            } else if same(s, "fraudulent") {
                Some(RefundReason::Fraudulent)
            } else if same(s, "requested_by_customer") {
                Some(RefundReason::RequestedByCustomer)
            } else {
                None
            },
            None => None,
        };
        Refund {
            id: self.id,
            charge_id: self.charge,
            amount: Money::new(self.amount, currency),
            status,
            reason,
            created_at: timestamp_or(self.created, now),
        }
    }
}

/// A Stripe PaymentIntent.
#[derive(Debug)]
pub struct StripePaymentIntent {
    /// PaymentIntent ID.
    pub id: String,
    /// Amount in the currency's minor unit.
    pub amount: i64,
    /// ISO currency code.
    pub currency: String,
    /// Intent status (`succeeded`, `requires_capture`, ...).
    pub status: String,
    /// Client secret for completing the intent in the browser.
    pub client_secret: Option<String>,
    /// Attached customer, if any.
    pub customer: Option<String>,
    /// Attached payment method, if any.
    pub payment_method: Option<String>,
    /// Creation time, as a Unix timestamp.
    pub created: Option<i64>,
    /// The amount already captured.
    pub amount_received: Option<i64>,
    /// Failure detail when the intent could not be confirmed.
    pub last_payment_error: Option<StripeErrorDetailPublic>,
}

/// Failure detail attached to a PaymentIntent.
#[derive(Debug)]
pub struct StripeErrorDetailPublic {
    /// Human-readable failure message.
    pub message: Option<String>,
}

/// The charge status that the status of an intent stands for.
pub open spec fn intent_status(status: Seq<char>) -> ChargeStatus {
    if status == "succeeded"@ {
        ChargeStatus::Succeeded
    } else if status == "canceled"@ {
        ChargeStatus::Canceled
    } else {
        ChargeStatus::Pending
    }
}

/// The charge that a payment intent is, read at `now`.
pub open spec fn intent_charge(
    intent: StripePaymentIntent,
    requested: Money,
    description: Option<String>,
    metadata: StringMap,
    now: Timestamp,
) -> Charge {
    let currency = currency_or(intent.currency@, requested.currency);
    Charge {
        id: intent.id,
        amount: Money { amount: intent.amount, currency },
        amount_refunded: Money { amount: 0, currency },
        status: intent_status(intent.status@),
        customer_id: intent.customer,
        payment_method: intent.payment_method,
        description,
        receipt_url: None,
        failure_reason: match intent.last_payment_error {
            Some(e) => e.message,
            None => None,
        },
        metadata,
        created_at: match intent.created {
            Some(secs) => clock::instant_or(secs, now),
            None => now,
        },
        captured: intent.amount_received matches Some(n) && n > 0,
        refunded: false,
        disputed: false,
    }
}

/// The charge that a payment intent is, read at `now`.
pub fn charge_from_intent(
    intent: StripePaymentIntent,
    requested: Money,
    description: Option<String>,
    metadata: StringMap,
    now: Timestamp,
) -> (r: Charge)
    ensures
        r == intent_charge(intent, requested, description, metadata, now),
        r.status is Succeeded <==> intent.status@ == "succeeded"@,
        r.status is Canceled <==> intent.status@ == "canceled"@,
        r.status is Pending <==> intent.status@ != "succeeded"@ && intent.status@ != "canceled"@,
        r.id == intent.id,
        r.amount.amount == intent.amount,
        r.captured <==> (intent.amount_received matches Some(n) && n > 0),
{
    proof {
        lemma_status_names();
    }
    let currency = read_currency(&intent.currency, requested.currency);
    let status = if same(&intent.status, "succeeded") {
        ChargeStatus::Succeeded
    } else if same(&intent.status, "canceled") {
        ChargeStatus::Canceled
    } else {
        ChargeStatus::Pending
    };
    let captured: bool = match intent.amount_received {
        Some(n) => n > 0,
        None => false,
    };
    Charge {
        id: intent.id,
        amount: Money::new(intent.amount, currency),
        amount_refunded: Money::new(0, currency),
        status,
        customer_id: intent.customer,
        payment_method: intent.payment_method,
        description,
        receipt_url: None,
        failure_reason: match intent.last_payment_error {
            Some(e) => e.message,
            None => None,
        },
        metadata,
        created_at: match intent.created {
            Some(secs) => timestamp_or(secs, now),
            None => now,
        },
        captured,
        refunded: false,
        disputed: false,
    }
}

/// What a reply about a charge says, received at `now`.
pub open spec fn charge_outcome(
    reply: StripeReply,
    decoded: Result<StripeCharge, String>,
    not_found: Option<Fault>,
    now: Timestamp,
) -> Result<Charge, Fault> {
    match stripe_settled(reply, decoded, not_found) {
        Ok(c) => Ok(c.projected(now)),
        Err(fault) => Err(fault),
    }
}

/// What a reply about a charge says, received at `now`.
pub fn charge_result_at(
    reply: &StripeReply,
    decoded: Result<StripeCharge, String>,
    not_found: Option<PaymentError>,
    now: Timestamp,
) -> (r: PaymentResult<Charge>)
    ensures
        gateway::outcome(r) == charge_outcome(*reply, decoded, gateway::opt_fault(not_found), now),
        r is Ok <==> 200 <= reply.reply.status < 300 && decoded is Ok,
        r matches Ok(charge) ==> (decoded matches Ok(sent) && {
            &&& charge.status is Succeeded <==> sent.status@ == "succeeded"@
            &&& charge.status is Failed <==> sent.status@ == "failed"@
            &&& charge.id == sent.id && charge.amount.amount == sent.amount && charge.captured == sent.captured
        }),
{
    match stripe_settle(reply, decoded, not_found) {
        Ok(c) => Ok(c.into_charge(now)),
        Err(e) => Err(e),
    }
}

/// What the reply to a charge through a payment intent says, received at `now`.
pub open spec fn intent_charge_outcome(
    request: ChargeRequest,
    reply: StripeReply,
    decoded: Result<StripePaymentIntent, String>,
    now: Timestamp,
) -> Result<Charge, Fault> {
    match stripe_settled(reply, decoded, None) {
        Ok(intent) => Ok(intent_charge(intent, request.amount, request.description, request.metadata, now)),
        Err(fault) => Err(fault),
    }
}

/// What the reply to a charge through a payment intent says, received at `now`.
pub fn intent_charge_result_at(
    request: ChargeRequest,
    reply: &StripeReply,
    decoded: Result<StripePaymentIntent, String>,
    now: Timestamp,
) -> (r: PaymentResult<Charge>)
    ensures
        gateway::outcome(r) == intent_charge_outcome(request, *reply, decoded, now),
        r is Ok <==> 200 <= reply.reply.status < 300 && decoded is Ok,
        r matches Ok(charge) ==> (decoded matches Ok(sent) && {
            &&& charge.status is Succeeded <==> sent.status@ == "succeeded"@
            &&& charge.status is Canceled <==> sent.status@ == "canceled"@
            &&& charge.id == sent.id && charge.amount.amount == sent.amount
            &&& charge.description == request.description && charge.metadata == request.metadata
        }),
{
    match stripe_settle(reply, decoded, None) {
        Ok(intent) => Ok(charge_from_intent(intent, request.amount, request.description, request.metadata, now)),
        Err(e) => Err(e),
    }
}

/// What the reply to a refund says, received at `now`.
pub open spec fn refund_outcome(
    charge_id: Seq<char>,
    reply: StripeReply,
    decoded: Result<StripeRefund, String>,
    now: Timestamp,
) -> Result<Refund, Fault> {
    match stripe_settled(reply, decoded, Some(Fault::ChargeNotFound(charge_id))) {
        Ok(refund) => Ok(refund.projected(now)),
        Err(fault) => Err(fault),
    }
}

/// What the reply to a refund says, received at `now`.
pub fn refund_result_at(
    charge_id: &str,
    reply: &StripeReply,
    decoded: Result<StripeRefund, String>,
    now: Timestamp,
) -> (r: PaymentResult<Refund>)
    ensures
        gateway::outcome(r) == refund_outcome(charge_id@, *reply, decoded, now),
        r is Ok <==> 200 <= reply.reply.status < 300 && decoded is Ok,
        r matches Ok(refund) ==> (decoded matches Ok(sent) && {
            &&& refund.status is Succeeded <==> sent.status@ == "succeeded"@
            &&& refund.status is Failed <==> sent.status@ == "failed"@
            &&& refund.status is Canceled <==> sent.status@ == "canceled"@
            &&& refund.id == sent.id && refund.charge_id == sent.charge && refund.amount.amount == sent.amount
        }),
        reply.reply.status == 404 ==> (r matches Err(e) && e@ == Fault::ChargeNotFound(charge_id@)),
{
    match stripe_settle(reply, decoded, Some(PaymentError::ChargeNotFound(owned(charge_id)))) {
        Ok(refund) => Ok(refund.into_refund(now)),
        Err(e) => Err(e),
    }
}

impl StripeProvider {
    /// The request that creates a payment intent.
    pub fn create_payment_intent_request(&self, request: &ChargeRequest) -> (r: PaymentResult<GatewayRequest>)
        ensures
            request_outcome(r) == intent_fields(*request),
    {
        let mut form = shared_form(request);
        match &request.source {
            PaymentSource::PaymentMethod { id } => {
                form.insert(owned("payment_method"), id.clone());
                form.insert(owned("confirm"), owned("true"));
                if !request.capture {
                    form.insert(owned("capture_method"), owned("manual"));
                }
            },
            PaymentSource::Customer { customer_id } => {
                form.insert(owned("customer"), customer_id.clone());
            },
            PaymentSource::Card { token: _ } => {
                return Err(
                    PaymentError::Validation(
                        owned(
                            "Stripe PaymentIntents do not accept raw card tokens; tokenize the card into a PaymentMethod first and use PaymentSource::PaymentMethod",
                        ),
                    ),
                );
            },
            PaymentSource::Bank { token: _ } => {
                return Err(
                    PaymentError::Validation(
                        owned(
                            "Stripe PaymentIntents do not accept bank-account tokens directly; create a us_bank_account PaymentMethod and use PaymentSource::PaymentMethod",
                        ),
                    ),
                );
            },
        }
        Ok(
            GatewayRequest::keyed(
                owned("/payment_intents"),
                Body::Form(form),
                STRIPE_IDEMPOTENCY_HEADER,
                &request.idempotency_key,
            ),
        )
    }

    /// What the reply to the creation of a payment intent says.
    pub fn create_payment_intent_result(
        &self,
        reply: &StripeReply,
        decoded: Result<StripePaymentIntent, String>,
    ) -> (r: PaymentResult<StripePaymentIntent>)
        ensures
            gateway::outcome(r) == stripe_settled(*reply, decoded, None),
    {
        stripe_settle(reply, decoded, None)
    }

    /// The request that a charge is made with. A payment method cannot be charged through the
    /// charges API, and goes through a payment intent.
    pub fn charge_request(&self, request: &ChargeRequest) -> (r: PaymentResult<GatewayRequest>)
        ensures
            request_outcome(r) == charge_fields(*request),
    {
        let mut form = shared_form(request);
        match &request.source {
            PaymentSource::PaymentMethod { id: _ } => {
                return self.create_payment_intent_request(request);
            },
            PaymentSource::Card { token } => {
                form.insert(owned("source"), token.clone());
            },
            PaymentSource::Bank { token } => {
                form.insert(owned("source"), token.clone());
            },
            PaymentSource::Customer { customer_id } => {
                form.insert(owned("customer"), customer_id.clone());
            },
        }
        let capture = if request.capture {
            "true"
        } else {
            "false"
        };
        form.insert(owned("capture"), owned(capture));
        Ok(
            GatewayRequest::keyed(
                owned("/charges"),
                Body::Form(form),
                STRIPE_IDEMPOTENCY_HEADER,
                &request.idempotency_key,
            ),
        )
    }

    /// Whether a charge goes through a payment intent, so that the reply to it is about an intent
    /// and not about a charge.
    pub fn charges_by_intent(&self, request: &ChargeRequest) -> (r: bool)
        ensures
            r == (request.source is PaymentMethod),
            r ==> charge_fields(*request) == intent_fields(*request),
            !r ==> (charge_fields(*request) matches Ok(q) && q.path == "/charges"@),
    {
        match request.source {
            PaymentSource::PaymentMethod { .. } => true,
            _ => false,
        }
    }

    /// What the reply to a charge says.
    pub fn charge_result(&self, reply: &StripeReply, decoded: Result<StripeCharge, String>) -> (r: PaymentResult<
        Charge,
    >)
        ensures
            exists|now: Timestamp|
                #[trigger] clock::can_be_now(now) && gateway::outcome(r) == charge_outcome(*reply, decoded, None, now),
            r is Ok <==> 200 <= reply.reply.status < 300 && decoded is Ok,
            r matches Ok(charge) ==> (decoded matches Ok(sent) && {
                &&& charge.status is Succeeded <==> sent.status@ == "succeeded"@
                &&& charge.status is Failed <==> sent.status@ == "failed"@
                &&& charge.id == sent.id && charge.amount.amount == sent.amount && charge.captured == sent.captured
            }),
    {
        charge_result_at(reply, decoded, None, now())
    }

    /// What the reply to a charge through a payment intent says.
    pub fn intent_charge_result(
        &self,
        request: ChargeRequest,
        reply: &StripeReply,
        decoded: Result<StripePaymentIntent, String>,
    ) -> (r: PaymentResult<Charge>)
        ensures
            exists|now: Timestamp|
                #[trigger] clock::can_be_now(now) && gateway::outcome(r) == intent_charge_outcome(request, *reply, decoded, now),
            r is Ok <==> 200 <= reply.reply.status < 300 && decoded is Ok,
            r matches Ok(charge) ==> (decoded matches Ok(sent) && {
                &&& charge.status is Succeeded <==> sent.status@ == "succeeded"@
                &&& charge.status is Canceled <==> sent.status@ == "canceled"@
                &&& charge.id == sent.id && charge.amount.amount == sent.amount
                &&& charge.description == request.description && charge.metadata == request.metadata
            }),
    {
        intent_charge_result_at(request, reply, decoded, now())
    }

    /// The request that captures a charge, in full or in part.
    pub fn capture_request(&self, charge_id: &str, amount: Option<Money>) -> (r: GatewayRequest)
        ensures
            r@ == (RequestFields {
                method: Method::Post,
                path: "/charges/"@ + charge_id@ + "/capture"@,
                dedup: None,
                body: BodyFields::Form(with_field(Map::empty(), "amount"@, amount_text(amount))),
            }),
    {
        let mut form = StringMap::new();
        put_field(&mut form, "amount", &amount_shown(&amount));
        GatewayRequest::plain(Method::Post, concat3("/charges/", charge_id, "/capture"), Body::Form(form))
    }

    /// What the reply to a capture says.
    pub fn capture_result(&self, charge_id: &str, reply: &StripeReply, decoded: Result<StripeCharge, String>) -> (r:
        PaymentResult<Charge>)
        ensures
            exists|now: Timestamp|
                #[trigger] clock::can_be_now(now) && gateway::outcome(r) == charge_outcome(*reply, decoded, Some(Fault::ChargeNotFound(charge_id@)), now),
            r is Ok <==> 200 <= reply.reply.status < 300 && decoded is Ok,
            r matches Ok(charge) ==> (decoded matches Ok(sent) && {
                &&& charge.status is Succeeded <==> sent.status@ == "succeeded"@
                &&& charge.status is Failed <==> sent.status@ == "failed"@
                &&& charge.id == sent.id && charge.amount.amount == sent.amount && charge.captured == sent.captured
            }),
    {
        charge_result_at(reply, decoded, Some(PaymentError::ChargeNotFound(owned(charge_id))), now())
    }

    /// The request that refunds a charge, in full or in part.
    pub fn refund_request(&self, request: &RefundRequest) -> (r: GatewayRequest)
        ensures
            r@ == refund_fields(*request),
    {
        let mut form = StringMap::new();
        form.insert(owned("charge"), request.charge_id.clone());
        put_field(&mut form, "amount", &amount_shown(&request.amount));
        match &request.reason {
            Some(reason) => {
                let name = match reason {
                    RefundReason::Duplicate => "duplicate",
                    RefundReason::Fraudulent => "fraudulent",
                    RefundReason::RequestedByCustomer => "requested_by_customer",
                };
                form.insert(owned("reason"), owned(name));
            },
            None => {},
        }
        GatewayRequest::keyed(
            owned("/refunds"),
            Body::Form(form),
            STRIPE_IDEMPOTENCY_HEADER,
            &request.idempotency_key,
        )
    }

    /// What the reply to a refund says.
    pub fn refund_result(&self, charge_id: &str, reply: &StripeReply, decoded: Result<StripeRefund, String>) -> (r:
        PaymentResult<Refund>)
        ensures
            exists|now: Timestamp|
                #[trigger] clock::can_be_now(now) && gateway::outcome(r) == refund_outcome(charge_id@, *reply, decoded, now),
            r is Ok <==> 200 <= reply.reply.status < 300 && decoded is Ok,
            r matches Ok(refund) ==> (decoded matches Ok(sent) && {
                &&& refund.status is Succeeded <==> sent.status@ == "succeeded"@
                &&& refund.status is Failed <==> sent.status@ == "failed"@
                &&& refund.status is Canceled <==> sent.status@ == "canceled"@
                &&& refund.id == sent.id && refund.charge_id == sent.charge && refund.amount.amount == sent.amount
            }),
            reply.reply.status == 404 ==> (r matches Err(e) && e@ == Fault::ChargeNotFound(charge_id@)),
    {
        refund_result_at(charge_id, reply, decoded, now())
    }
}

/// A charge that carries an idempotency key is sent with it, whatever its source.
pub proof fn charge_carries_its_key(request: ChargeRequest, key: String)
    requires
        request.idempotency_key == Some(key),
        charge_fields(request) is Ok,
    ensures
        charge_fields(request)->Ok_0.dedup == Some((STRIPE_IDEMPOTENCY_HEADER@, key@)),
{
}

/// A refund that carries an idempotency key is sent with it.
pub proof fn refund_carries_its_key(request: RefundRequest, key: String)
    requires
        request.idempotency_key == Some(key),
    ensures
        refund_fields(request).dedup == Some((STRIPE_IDEMPOTENCY_HEADER@, key@)),
{
}

/// An error status of 401 or 403 is never retried, whatever else Stripe says, unless it says that
/// too many requests were made.
pub proof fn refused_credentials_are_not_retried(reply: StripeReply)
    requires
        reply.reply.status == 401 || reply.reply.status == 403,
        reply.error matches Some(detail) ==> !is_type(detail, "rate_limit_error"@),
    ensures
        !stripe_fault(reply).retryable(),
{
}

} // verus!
