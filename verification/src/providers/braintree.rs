//! Braintree payment provider
//!
//! Requests are JSON documents, and resources come back wrapped under their name. Braintree offers
//! no deduplication of repeated requests, so a charge or a refund is attempted once.
use crate::clock::{self, now, reported_at, Timestamp};
use crate::crypto::{self, base64_encode};
use crate::error::{Fault, PaymentError, PaymentResult};
use crate::gateway::{
    self, settle, settle_unit, validate_base_url, Body, BodyFields, GatewayReply, GatewayRequest, Method, RequestFields,
};
use crate::json::{self, no_members, object, object_of_texts, push_json, push_opt_text, push_text, wrapped, Json, Tree};
use crate::laws;
use crate::money::{self, Currency, Money};
use crate::processor::PaymentProvider;
use crate::string_map::StringMap;
use crate::text::{
    self, after_last_text, concat2, concat3, join_from, owned, quoted, same, trim_end_of_text, words_of,
};
use crate::types::{
    Charge, ChargeRequest, ChargeStatus, CreateCustomerRequest, Customer, PaymentMethod, PaymentSource, Refund,
    RefundRequest, RefundStatus, UpdateCustomerRequest,
};
use vstd::prelude::*;
use vstd::utf8::*;

verus! {

/// The field Braintree signs each webhook with. Braintree posts it as a form parameter alongside
/// `bt_payload`; pass it under this name.
pub const BRAINTREE_SIGNATURE_HEADER: &'static str = "bt_signature";

/// The API base URL of a merchant at a gateway origin.
pub open spec fn merchant_url(origin: Seq<char>, merchant_id: Seq<char>) -> Seq<char> {
    text::trim_end_of(origin, '/') + "/merchants/"@ + merchant_id
}

/// The merchant id that a base URL ends with.
pub open spec fn merchant_of(base_url: Seq<char>) -> Seq<char> {
    match text::after_last(base_url, "/merchants/"@) {
        Some(id) => id,
        None => Seq::empty(),
    }
}

proof fn lemma_rfind_is(s: Seq<char>, word: Seq<char>, from: int, k: int)
    requires
        0 <= k <= from,
        text::word_at(s, k, word),
        forall|i: int| k < i <= from ==> !#[trigger] text::word_at(s, i, word),
    ensures
        text::rfind(s, word, from) == k,
    decreases from,
{
    if k < from {
        assert(!text::word_at(s, from, word));
        lemma_rfind_is(s, word, from - 1, k);
    }
}

proof fn lemma_no_later_segment(base: Seq<char>, merchant_id: Seq<char>, i: int)
    requires
        base.len() < i,
        text::word_at(base + "/merchants/"@ + merchant_id, i, "/merchants/"@),
    ensures
        text::word_at(seq!['/'] + merchant_id, i - base.len() - 10, "/merchants/"@),
{
    reveal_strlit("/merchants/");
    let word = "/merchants/"@;
    let url = base + word + merchant_id;
    let k = base.len() as int;
    assert(word.len() == 11);
    assert(url[i] == url.subrange(i, i + 11)[0]);
    if i < k + 10 {
        assert(url[i] == word[i - k]);
        assert(word[1] == 'm' && word[2] == 'e' && word[3] == 'r' && word[4] == 'c' && word[5] == 'h' && word[6] == 'a'
            && word[7] == 'n' && word[8] == 't' && word[9] == 's');
    } else {
        let tail = seq!['/'] + merchant_id;
        assert(tail.subrange(i - k - 10, i - k + 1) =~= url.subrange(i, i + 11));
    }
}

/// The merchant id survives a change of origin, unless it has a `/merchants/` in it or starts with
/// `merchants/`.
pub proof fn merchant_survives_origin(origin: Seq<char>, merchant_id: Seq<char>)
    requires
        forall|i: int| !#[trigger] text::word_at(seq!['/'] + merchant_id, i, "/merchants/"@),
    ensures
        merchant_of(merchant_url(origin, merchant_id)) == merchant_id,
{
    let base = text::trim_end_of(origin, '/');
    let word = "/merchants/"@;
    let url = base + word + merchant_id;
    let k = base.len() as int;
    let n = word.len() as int;
    assert(url.subrange(k, k + n) =~= word);
    assert(text::word_at(url, k, word));
    assert forall|i: int| k < i <= url.len() - n implies !#[trigger] text::word_at(url, i, word) by {
        if text::word_at(url, i, word) {
            lemma_no_later_segment(base, merchant_id, i);
        }
    }
    lemma_rfind_is(url, word, url.len() - n, k);
    assert(url.skip(k + n) =~= merchant_id);
}

/// The `Basic` credential of a pair of keys.
pub open spec fn basic_credential(public_key: Seq<char>, private_key: Seq<char>) -> Seq<char> {
    "Basic "@ + crypto::base64_text(encode_utf8(public_key + ":"@ + private_key))
}

/// Braintree provider
pub struct BraintreeProvider {
    public_key: String,
    private_key: String,
    base_url: String,
    auth_header: String,
}

/// What a [`BraintreeProvider`] is configured with.
pub struct BraintreeFields {
    pub public_key: Seq<char>,
    pub private_key: Seq<char>,
    pub base_url: Seq<char>,
    pub auth_header: Seq<char>,
}

impl View for BraintreeProvider {
    type V = BraintreeFields;

    closed spec fn view(&self) -> BraintreeFields {
        BraintreeFields {
            public_key: self.public_key@,
            private_key: self.private_key@,
            base_url: self.base_url@,
            auth_header: self.auth_header@,
        }
    }
}

impl PaymentProvider for BraintreeProvider {
    open spec fn provider_name(&self) -> Seq<char> {
        "braintree"@
    }

    open spec fn deduplicates(&self) -> bool {
        false
    }

    fn name(&self) -> (r: &'static str)
        ensures
            r@ == "braintree"@,
    {
        "braintree"
    }

    fn supports_idempotency(&self) -> (r: bool)
        ensures
            !r,
    {
        false
    }
}

/// The API base URL of a merchant at a gateway origin.
fn merchant_base_url(origin: &str, merchant_id: &str) -> (r: String)
    ensures
        r@ == merchant_url(origin@, merchant_id@),
{
    let trimmed = trim_end_of_text(origin, '/');
    concat3(&trimmed, "/merchants/", merchant_id)
}

/// The merchant id that a base URL ends with.
fn merchant_id_of(base_url: &str) -> (r: String)
    ensures
        r@ == merchant_of(base_url@),
{
    match after_last_text(base_url, "/merchants/") {
        Some(id) => id,
        None => String::new(),
    }
}

impl BraintreeProvider {
    /// Create a new Braintree provider, pointed at the sandbox.
    pub fn new(merchant_id: &str, public_key: &str, private_key: &str) -> (r: PaymentResult<Self>)
        ensures
            r matches Ok(p) && p@ == (BraintreeFields {
                public_key: public_key@,
                private_key: private_key@,
                base_url: merchant_url("https://api.sandbox.braintreegateway.com"@, merchant_id@),
                auth_header: basic_credential(public_key@, private_key@),
            }),
    {
        let pair = concat3(public_key, ":", private_key);
        let encoded = base64_encode(pair.as_str().as_bytes());
        Ok(
            BraintreeProvider {
                public_key: owned(public_key),
                private_key: owned(private_key),
                base_url: merchant_base_url("https://api.sandbox.braintreegateway.com", merchant_id),
                auth_header: concat2("Basic ", &encoded),
            },
        )
    }

    /// Use production environment
    pub fn production(self) -> (r: Self)
        ensures
            r@ == (BraintreeFields {
                base_url: merchant_url("https://api.braintreegateway.com"@, merchant_of(self@.base_url)),
                ..self@
            }),
    {
        let mut r = self;
        let id = merchant_id_of(&r.base_url);
        r.base_url = merchant_base_url("https://api.braintreegateway.com", &id);
        r
    }

    /// Point the client at an alternate API base URL (a mock or proxy). The merchant path segment is
    /// appended.
    ///
    /// Every request carries the key pair, so the URL must be `https`, or `http` to this machine.
    pub fn with_base_url(self, base_url: &str) -> (r: PaymentResult<Self>)
        ensures
            match r {
                Ok(p) => {
                    &&& gateway::allowed_base_url(base_url@)
                    &&& p@ == (BraintreeFields {
                        base_url: merchant_url(text::trim_end_of(base_url@, '/'), merchant_of(self@.base_url)),
                        ..self@
                    })
                },
                Err(e) => !gateway::allowed_base_url(base_url@) && e@ == Fault::Config(
                    "base URL must be https, or http to a loopback host: "@ + base_url@,
                ),
            },
    {
        match validate_base_url(base_url) {
            Ok(origin) => {
                let mut r = self;
                let id = merchant_id_of(&r.base_url);
                r.base_url = merchant_base_url(&origin, &id);
                Ok(r)
            },
            Err(e) => Err(e),
        }
    }

    /// The base URL of the merchant's API.
    pub fn base_url(&self) -> (r: &str)
        ensures
            r@ == self@.base_url,
    {
        self.base_url.as_str()
    }

    /// The `Authorization` header of every request.
    pub fn auth_header(&self) -> (r: &str)
        ensures
            r@ == self@.auth_header,
    {
        self.auth_header.as_str()
    }

    /// The public key.
    pub(crate) fn public_key(&self) -> (r: &str)
        ensures
            r@ == self@.public_key,
    {
        self.public_key.as_str()
    }

    /// The private key.
    pub(crate) fn private_key(&self) -> (r: &str)
        ensures
            r@ == self@.private_key,
    {
        self.private_key.as_str()
    }
}

/// A Braintree transaction, as the gateway reports it.
#[derive(Debug)]
pub struct BraintreeTransaction {
    pub id: String,
    pub amount: String,
    pub status: String,
    pub currency_iso_code: Option<String>,
    pub customer_id: Option<String>,
    pub payment_method_token: Option<String>,
    pub processor_response_text: Option<String>,
    pub created_at: Option<Timestamp>,
}

/// The charge status that a transaction status stands for.
pub open spec fn charge_status(status: Seq<char>) -> ChargeStatus {
    if status == "authorized"@ || status == "submitted_for_settlement"@ || status == "settling"@ || status
        == "settled"@ {
        ChargeStatus::Succeeded
    } else if status == "voided"@ || status == "processor_declined"@ || status == "gateway_rejected"@ {
        ChargeStatus::Failed
    } else {
        ChargeStatus::Pending
    }
}

/// The refund status that the status of a refund transaction stands for.
pub open spec fn refund_status(status: Seq<char>) -> RefundStatus {
    if status == "settled"@ || status == "settling"@ {
        RefundStatus::Succeeded
    } else if status == "submitted_for_settlement"@ {
        RefundStatus::Pending
    } else if status == "processor_declined"@ || status == "gateway_rejected"@ || status == "failed"@ {
        RefundStatus::Failed
    } else if status == "voided"@ {
        RefundStatus::Canceled
    } else {
        RefundStatus::Pending
    }
}

/// The currency that a transaction is reported in; US dollars where none, or none that is known, is
/// reported.
pub open spec fn currency_of(iso_code: Option<Seq<char>>) -> Currency {
    match iso_code {
        Some(code) => match money::currency_named(code) {
            Some(c) => c,
            None => Currency::USD,
        },
        None => Currency::USD,
    }
}

/// The error about an amount that cannot be read.
pub open spec fn amount_fault(txn: BraintreeTransaction) -> Fault {
    Fault::Serialization(
        "Braintree returned an unparseable transaction amount "@ + text::debug_text(txn.amount@) + " for transaction "@
            + text::debug_text(txn.id@) + " (currency "@ + currency_of(text::opt_text(txn.currency_iso_code)).spec_code()
            + "). The transaction may well have been processed — reconcile it against the gateway rather than assuming it did not happen."@,
    )
}

/// The amount that a transaction reports.
pub open spec fn amount_of(txn: BraintreeTransaction) -> Result<Money, Fault> {
    match money::gateway_money(txn.amount@, currency_of(text::opt_text(txn.currency_iso_code))) {
        Some(m) => Ok(m),
        None => Err(amount_fault(txn)),
    }
}

/// Map a Braintree transaction status onto a charge status.
pub fn transaction_charge_status(status: &str) -> (r: ChargeStatus)
    ensures
        r == charge_status(status@),
        r is Succeeded <==> status@ == "authorized"@ || status@ == "submitted_for_settlement"@ || status@ == "settling"@
            || status@ == "settled"@,
        r is Failed <==> status@ == "voided"@ || status@ == "processor_declined"@ || status@ == "gateway_rejected"@,
        r is Succeeded || r is Failed || r is Pending,
{
    proof {
        laws::braintree::statuses_are_read_as_named(status@);
    }
    if same(status, "authorized") || same(status, "submitted_for_settlement") || same(status, "settling") || same(
        status,
        "settled",
    ) {
        ChargeStatus::Succeeded
    } else if same(status, "voided") || same(status, "processor_declined") || same(status, "gateway_rejected") {
        ChargeStatus::Failed
    } else {
        ChargeStatus::Pending
    }
}

/// Map the status of a Braintree refund transaction onto a refund status.
pub fn transaction_refund_status(status: &str) -> (r: RefundStatus)
    ensures
        r == refund_status(status@),
        r is Succeeded <==> status@ == "settled"@ || status@ == "settling"@,
        r is Failed <==> status@ == "processor_declined"@ || status@ == "gateway_rejected"@ || status@ == "failed"@,
        r is Canceled <==> status@ == "voided"@,
{
    proof {
        laws::braintree::statuses_are_read_as_named(status@);
    }
    if same(status, "settled") || same(status, "settling") {
        RefundStatus::Succeeded
    } else if same(status, "submitted_for_settlement") {
        RefundStatus::Pending
    } else if same(status, "processor_declined") || same(status, "gateway_rejected") || same(status, "failed") {
        RefundStatus::Failed
    } else if same(status, "voided") {
        RefundStatus::Canceled
    } else {
        RefundStatus::Pending
    }
}

/// Currency reported by a Braintree transaction.
pub fn transaction_currency(iso_code: Option<&str>) -> (r: Currency)
    ensures
        r == currency_of(text::opt_str(iso_code)),
        iso_code is None ==> r == Currency::USD,
        iso_code matches Some(code) ==> r == (match money::currency_named(code@) {
            Some(c) => c,
            None => Currency::USD,
        }),
{
    match iso_code {
        Some(code) => match Currency::from_code(code) {
            Some(c) => c,
            None => Currency::USD,
        },
        None => Currency::USD,
    }
}

/// The amount Braintree reported on a transaction. One that cannot be read is an error, never zero.
pub fn transaction_amount(txn: &BraintreeTransaction) -> (r: PaymentResult<Money>)
    ensures
        gateway::outcome(r) == amount_of(*txn),
{
    let currency = match &txn.currency_iso_code {
        Some(code) => transaction_currency(Some(code.as_str())),
        None => transaction_currency(None),
    };
    match Money::from_gateway_string(&txn.amount, currency) {
        Some(m) => Ok(m),
        None => {
            let amount = quoted(&txn.amount);
            let id = quoted(&txn.id);
            let mut message = concat3("Braintree returned an unparseable transaction amount ", &amount, " for transaction ");
            message.append(&id);
            message.append(" (currency ");
            message.append(currency.code());
            message.append("). The transaction may well have been processed — reconcile it against the gateway rather than assuming it did not happen.");
            Err(PaymentError::Serialization(message))
        },
    }
}

/// The charge that a transaction stands for.
pub open spec fn charge_of(txn: BraintreeTransaction, amount: Money, metadata: StringMap, now: Timestamp) -> Charge {
    Charge {
        id: txn.id,
        amount,
        amount_refunded: Money { amount: 0, currency: amount.currency },
        status: charge_status(txn.status@),
        customer_id: txn.customer_id,
        payment_method: txn.payment_method_token,
        description: None,
        receipt_url: None,
        failure_reason: txn.processor_response_text,
        metadata,
        created_at: clock::reported_or(txn.created_at, now),
        captured: txn.status@ == "settled"@ || txn.status@ == "settling"@,
        refunded: false,
        disputed: false,
    }
}

/// What a reply to a charge or a capture says.
pub open spec fn charge_outcome(
    reply: GatewayReply,
    decoded: Result<BraintreeTransaction, String>,
    not_found: Option<Fault>,
    metadata: StringMap,
    now: Timestamp,
) -> Result<Charge, Fault> {
    match gateway::settled("braintree"@, reply, decoded, not_found) {
        Ok(txn) => match amount_of(txn) {
            Ok(amount) => Ok(charge_of(txn, amount, metadata, now)),
            Err(fault) => Err(fault),
        },
        Err(fault) => Err(fault),
    }
}

/// What a reply to a charge or a capture says, received at `now`.
pub fn charge_result_at(
    reply: &GatewayReply,
    decoded: Result<BraintreeTransaction, String>,
    not_found: Option<PaymentError>,
    metadata: StringMap,
    now: Timestamp,
) -> (r: PaymentResult<Charge>)
    ensures
        gateway::outcome(r) == charge_outcome(*reply, decoded, gateway::opt_fault(not_found), metadata, now),
        r is Ok ==> 200 <= reply.status < 300 && decoded is Ok,
        r matches Ok(charge) ==> (decoded matches Ok(txn) && {
            &&& charge.id == txn.id
            &&& charge.status is Succeeded <==> txn.status@ == "authorized"@ || txn.status@ == "submitted_for_settlement"@
                || txn.status@ == "settling"@ || txn.status@ == "settled"@
            &&& charge.status is Failed <==> txn.status@ == "voided"@ || txn.status@ == "processor_declined"@ || txn.status@
                == "gateway_rejected"@
            &&& charge.captured <==> txn.status@ == "settled"@ || txn.status@ == "settling"@
        }),
{
    let txn = match settle("braintree", reply, decoded, not_found) {
        Ok(txn) => txn,
        Err(e) => return Err(e),
    };
    let amount = match transaction_amount(&txn) {
        Ok(m) => m,
        Err(e) => return Err(e),
    };
    let status = transaction_charge_status(&txn.status);
    let captured: bool = same(&txn.status, "settled") || same(&txn.status, "settling");
    Ok(
        Charge {
            id: txn.id,
            amount,
            amount_refunded: Money::new(0, amount.currency),
            status,
            customer_id: txn.customer_id,
            payment_method: txn.payment_method_token,
            description: None,
            receipt_url: None,
            failure_reason: txn.processor_response_text,
            metadata,
            created_at: reported_at(txn.created_at, now),
            captured,
            refunded: false,
            disputed: false,
        },
    )
}

/// The instrument that a charge goes to: a nonce or a vaulted token.
pub open spec fn instrument(source: PaymentSource) -> Result<(Option<Seq<char>>, Option<Seq<char>>), Fault> {
    match source {
        PaymentSource::Card { token } => Ok((Some(token@), None)),
        PaymentSource::PaymentMethod { id } => Ok((None, Some(id@))),
        PaymentSource::Customer { customer_id } => Err(
            Fault::Validation(
                "Braintree cannot charge a customer's default payment method implicitly; look up the customer's vaulted payment methods with list_payment_methods and pass one as PaymentSource::PaymentMethod."@,
            ),
        ),
        PaymentSource::Bank { token } => Err(
            Fault::Validation(
                "Braintree does not accept bank-account tokens through this API; ACH must be tokenized client-side into a payment method nonce and passed as PaymentSource::Card, or vaulted and passed as PaymentSource::PaymentMethod."@,
            ),
        ),
    }
}

/// The transaction that a charge request asks for.
pub open spec fn transaction_tree(
    request: ChargeRequest,
    nonce: Option<Seq<char>>,
    token: Option<Seq<char>>,
) -> Tree {
    let fields = if request.metadata@ == Map::<Seq<char>, Seq<char>>::empty() {
        Seq::<(Seq<char>, Tree)>::empty()
    } else {
        seq![("custom_fields"@, json::text_tree(request.metadata.listed()))]
    };
    Tree::Object(
        seq![
            (
                "transaction"@,
                Tree::Object(
                    seq![("amount"@, Tree::Text(money::gateway_text(request.amount)))] + json::opt_member(
                        "payment_method_nonce"@,
                        nonce,
                    ) + json::opt_member("payment_method_token"@, token) + json::opt_member(
                        "customer_id"@,
                        text::opt_text(request.customer_id),
                    ) + fields + seq![
                        (
                            "options"@,
                            Tree::Object(seq![("submit_for_settlement"@, Tree::Bool(request.capture))]),
                        ),
                    ],
                ),
            ),
        ],
    )
}

/// The words of a full name that are its first name, and the others.
pub open spec fn name_parts(name: Option<Seq<char>>) -> (Option<Seq<char>>, Option<Seq<char>>) {
    match name {
        Some(n) => {
            let w = text::words(n);
            (
                Some(
                    if w.len() > 0 {
                        w[0]
                    } else {
                        Seq::empty()
                    },
                ),
                Some(
                    text::join(
                        if w.len() > 0 {
                            w.skip(1)
                        } else {
                            w
                        },
                        " "@,
                    ),
                ),
            )
        },
        None => (None, None),
    }
}

/// The customer document of a request.
pub open spec fn customer_tree(email: Option<String>, name: Option<String>, phone: Option<String>) -> Tree {
    let (first, last) = name_parts(text::opt_text(name));
    Tree::Object(
        seq![
            (
                "customer"@,
                Tree::Object(
                    Seq::<(Seq<char>, Tree)>::empty() + json::opt_member("email"@, text::opt_text(email))
                        + json::opt_member("first_name"@, first) + json::opt_member("last_name"@, last)
                        + json::opt_member("phone"@, text::opt_text(phone)),
                ),
            ),
        ],
    )
}

/// Splits a full name into its first word and the others.
fn split_name(name: &Option<String>) -> (r: (Option<String>, Option<String>))
    ensures
        (text::opt_text(r.0), text::opt_text(r.1)) == name_parts(text::opt_text(*name)),
{
    match name {
        Some(n) => {
            let words = words_of(n);
            let ghost w = text::words(n@);
            if words.len() > 0 {
                let first = words[0].clone();
                let rest = join_from(&words, 1, " ");
                proof {
                    assert(first@ == text::texts(words@)[0]);
                }
                (Some(first), Some(rest))
            } else {
                proof {
                    assert(w.skip(0) =~= w);
                }
                let rest = join_from(&words, 0, " ");
                (Some(String::new()), Some(rest))
            }
        },
        None => (None, None),
    }
}

/// The customer document of a request.
fn customer_body(email: &Option<String>, name: &Option<String>, phone: &Option<String>) -> (r: Json)
    ensures
        r.tree() == customer_tree(*email, *name, *phone),
{
    let (first, last) = split_name(name);
    let mut members = no_members();
    push_opt_text(&mut members, "email", email);
    push_opt_text(&mut members, "first_name", &first);
    push_opt_text(&mut members, "last_name", &last);
    push_opt_text(&mut members, "phone", phone);
    wrapped("customer", object(members))
}

impl BraintreeProvider {
    /// The request that creates a charge.
    pub fn charge_request(&self, request: &ChargeRequest) -> (r: PaymentResult<GatewayRequest>)
        ensures
            match instrument(request.source) {
                Ok((nonce, token)) => r matches Ok(q) && q@ == (RequestFields {
                    method: Method::Post,
                    path: "/transactions"@,
                    dedup: None,
                    body: BodyFields::Json(transaction_tree(*request, nonce, token)),
                }),
                Err(fault) => r matches Err(e) && e@ == fault,
            },
            r is Ok <==> request.source is Card || request.source is PaymentMethod,
            r matches Ok(q) ==> (q@.body matches BodyFields::Json(doc) && {
                let sent = json::member(doc, "transaction"@);
                let options = json::member(sent->0, "options"@);
                &&& sent is Some && options is Some
                &&& json::member(options->0, "submit_for_settlement"@) == Some(
                    if request.capture {
                        Tree::Bool(true)
                    } else {
                        Tree::Bool(false)
                    },
                )
                &&& json::member(sent->0, "amount"@) == Some(Tree::Text(money::gateway_text(request.amount)))
            }),
    {
        proof {
            match instrument(request.source) {
                Ok((nonce, token)) => laws::braintree::charge_says_what_was_asked(*request, nonce, token),
                Err(_) => {},
            }
        }
        let (nonce, token) = match &request.source {
            PaymentSource::Card { token } => (Some(token.clone()), None),
            PaymentSource::PaymentMethod { id } => (None, Some(id.clone())),
            PaymentSource::Customer { .. } => {
                return Err(
                    PaymentError::Validation(
                        owned(
                            "Braintree cannot charge a customer's default payment method implicitly; look up the customer's vaulted payment methods with list_payment_methods and pass one as PaymentSource::PaymentMethod.",
                        ),
                    ),
                );
            },
            PaymentSource::Bank { .. } => {
                return Err(
                    PaymentError::Validation(
                        owned(
                            "Braintree does not accept bank-account tokens through this API; ACH must be tokenized client-side into a payment method nonce and passed as PaymentSource::Card, or vaulted and passed as PaymentSource::PaymentMethod.",
                        ),
                    ),
                );
            },
        };
        let amount = request.amount.to_gateway_string();
        let mut members = no_members();
        push_text(&mut members, "amount", &amount);
        proof {
            assert(json::member_trees(members@) =~= seq![("amount"@, Tree::Text(money::gateway_text(request.amount)))]);
        }
        push_opt_text(&mut members, "payment_method_nonce", &nonce);
        push_opt_text(&mut members, "payment_method_token", &token);
        push_opt_text(&mut members, "customer_id", &request.customer_id);
        let ghost head = json::member_trees(members@);
        if !request.metadata.is_empty() {
            push_json(&mut members, "custom_fields", object_of_texts(&request.metadata));
            proof {
                assert(json::member_trees(members@) =~= head + seq![
                    ("custom_fields"@, json::text_tree(request.metadata.listed())),
                ]);
            }
        } else {
            proof {
                assert(head =~= head + Seq::<(Seq<char>, Tree)>::empty());
            }
        }
        let ghost filled = json::member_trees(members@);
        let options = wrapped("submit_for_settlement", Json::Bool(request.capture));
        push_json(&mut members, "options", options);
        proof {
            assert(json::member_trees(members@) =~= filled + seq![("options"@, options.tree())]);
        }
        let body = wrapped("transaction", object(members));
        Ok(GatewayRequest::plain(Method::Post, owned("/transactions"), Body::Json(body)))
    }

    /// What the reply to a charge says.
    pub fn charge_result(
        &self,
        request: ChargeRequest,
        reply: &GatewayReply,
        decoded: Result<BraintreeTransaction, String>,
    ) -> (r: PaymentResult<Charge>)
        ensures
            exists|now: Timestamp|
                #[trigger] clock::can_be_now(now) && gateway::outcome(r) == charge_outcome(*reply, decoded, None, request.metadata, now),
            r is Ok ==> 200 <= reply.status < 300 && decoded is Ok,
            r matches Ok(charge) ==> (decoded matches Ok(txn) && {
                &&& charge.id == txn.id
                &&& charge.status is Succeeded <==> txn.status@ == "authorized"@ || txn.status@ == "submitted_for_settlement"@
                    || txn.status@ == "settling"@ || txn.status@ == "settled"@
                &&& charge.status is Failed <==> txn.status@ == "voided"@ || txn.status@ == "processor_declined"@ || txn.status@
                    == "gateway_rejected"@
                &&& charge.captured <==> txn.status@ == "settled"@ || txn.status@ == "settling"@
            }),
    {
        charge_result_at(reply, decoded, None, request.metadata, now())
    }

    /// The request that settles an authorized charge, in full or for less.
    pub fn capture_request(&self, charge_id: &str, amount: Option<Money>) -> (r: GatewayRequest)
        ensures
            r@ == (RequestFields {
                method: Method::Put,
                path: "/transactions/"@ + charge_id@ + "/submit_for_settlement"@,
                dedup: None,
                body: BodyFields::Json(Tree::Object(seq![("transaction"@, amount_tree(amount))])),
            }),
    {
        let path = concat3("/transactions/", charge_id, "/submit_for_settlement");
        GatewayRequest::plain(Method::Put, path, Body::Json(wrapped("transaction", amount_body(amount))))
    }

    /// What the reply to a capture says.
    pub fn capture_result(
        &self,
        charge_id: &str,
        reply: &GatewayReply,
        decoded: Result<BraintreeTransaction, String>,
    ) -> (r: PaymentResult<Charge>)
        ensures
            exists|now: Timestamp, metadata: StringMap|
                clock::can_be_now(now) && metadata@ == Map::<Seq<char>, Seq<char>>::empty() && gateway::outcome(r)
                    == #[trigger] charge_outcome(
                    *reply,
                    decoded,
                    Some(Fault::ChargeNotFound(charge_id@)),
                    metadata,
                    now,
                ),
            r is Ok ==> 200 <= reply.status < 300 && decoded is Ok,
            r matches Ok(charge) ==> (decoded matches Ok(txn) && {
                &&& charge.id == txn.id
                &&& charge.status is Succeeded <==> txn.status@ == "authorized"@ || txn.status@ == "submitted_for_settlement"@
                    || txn.status@ == "settling"@ || txn.status@ == "settled"@
                &&& charge.status is Failed <==> txn.status@ == "voided"@ || txn.status@ == "processor_declined"@ || txn.status@
                    == "gateway_rejected"@
                &&& charge.captured <==> txn.status@ == "settled"@ || txn.status@ == "settling"@
            }),
            reply.status == 404 ==> (r matches Err(e) && e@ == Fault::ChargeNotFound(charge_id@)),
    {
        let metadata = StringMap::new();
        let current = now();
        let ghost m = metadata;
        let r = charge_result_at(
            reply,
            decoded,
            Some(PaymentError::ChargeNotFound(owned(charge_id))),
            metadata,
            current,
        );
        proof {
            assert(gateway::outcome(r) == charge_outcome(
                *reply,
                decoded,
                Some(Fault::ChargeNotFound(charge_id@)),
                m,
                current,
            ));
        }
        r
    }

    /// The request that refunds a charge, in full or in part.
    pub fn refund_request(&self, request: &RefundRequest) -> (r: GatewayRequest)
        ensures
            r@ == (RequestFields {
                method: Method::Post,
                path: "/transactions/"@ + request.charge_id@ + "/refund"@,
                dedup: None,
                body: BodyFields::Json(amount_tree(request.amount)),
            }),
    {
        let path = concat3("/transactions/", &request.charge_id, "/refund");
        GatewayRequest::plain(Method::Post, path, Body::Json(amount_body(request.amount)))
    }

    /// What the reply to a refund says.
    pub fn refund_result(
        &self,
        request: RefundRequest,
        reply: &GatewayReply,
        decoded: Result<BraintreeTransaction, String>,
    ) -> (r: PaymentResult<Refund>)
        ensures
            exists|now: Timestamp|
                #[trigger] clock::can_be_now(now) && gateway::outcome(r) == refund_outcome(request, *reply, decoded, now),
            r is Ok ==> 200 <= reply.status < 300 && decoded is Ok,
            r matches Ok(refund) ==> (decoded matches Ok(txn) && {
                &&& refund.id == txn.id && refund.charge_id == request.charge_id && refund.reason == request.reason
                &&& refund.status is Succeeded <==> txn.status@ == "settled"@ || txn.status@ == "settling"@
                &&& refund.status is Failed <==> txn.status@ == "processor_declined"@ || txn.status@ == "gateway_rejected"@
                    || txn.status@ == "failed"@
                &&& refund.status is Canceled <==> txn.status@ == "voided"@
            }),
            reply.status == 404 ==> (r matches Err(e) && e@ == Fault::ChargeNotFound(request.charge_id@)),
    {
        refund_result_at(request, reply, decoded, now())
    }

    /// The request that creates a customer.
    pub fn create_customer_request(&self, request: &CreateCustomerRequest) -> (r: GatewayRequest)
        ensures
            r@ == (RequestFields {
                method: Method::Post,
                path: "/customers"@,
                dedup: None,
                body: BodyFields::Json(customer_tree(request.email, request.name, request.phone)),
            }),
    {
        let body = customer_body(&request.email, &request.name, &request.phone);
        GatewayRequest::plain(Method::Post, owned("/customers"), Body::Json(body))
    }

    /// The request that updates a customer.
    pub fn update_customer_request(&self, id: &str, request: &UpdateCustomerRequest) -> (r: GatewayRequest)
        ensures
            r@ == (RequestFields {
                method: Method::Put,
                path: "/customers/"@ + id@,
                dedup: None,
                body: BodyFields::Json(customer_tree(request.email, request.name, request.phone)),
            }),
    {
        let body = customer_body(&request.email, &request.name, &request.phone);
        GatewayRequest::plain(Method::Put, concat2("/customers/", id), Body::Json(body))
    }

    /// The request that reads a customer, with the payment methods in its vault.
    pub fn get_customer_request(&self, id: &str) -> (r: GatewayRequest)
        ensures
            r@ == (RequestFields {
                method: Method::Get,
                path: "/customers/"@ + id@,
                dedup: None,
                body: BodyFields::Empty,
            }),
    {
        GatewayRequest::plain(Method::Get, concat2("/customers/", id), Body::Empty)
    }

    /// The request that deletes a customer.
    pub fn delete_customer_request(&self, id: &str) -> (r: GatewayRequest)
        ensures
            r@ == (RequestFields {
                method: Method::Delete,
                path: "/customers/"@ + id@,
                dedup: None,
                body: BodyFields::Empty,
            }),
    {
        GatewayRequest::plain(Method::Delete, concat2("/customers/", id), Body::Empty)
    }

    /// What the reply to a deletion says.
    pub fn delete_customer_result(&self, id: &str, reply: &GatewayReply) -> (r: PaymentResult<()>)
        ensures
            gateway::outcome(r) == gateway::settled(
                "braintree"@,
                *reply,
                Ok::<(), String>(()),
                Some(Fault::CustomerNotFound(id@)),
            ),
    {
        settle_unit("braintree", reply, Some(PaymentError::CustomerNotFound(owned(id))))
    }
}

/// A document with an amount, where one is given.
pub open spec fn amount_tree(amount: Option<Money>) -> Tree {
    Tree::Object(
        json::opt_member(
            "amount"@,
            match amount {
                Some(m) => Some(money::gateway_text(m)),
                None => None,
            },
        ),
    )
}

/// A document with an amount, where one is given.
fn amount_body(amount: Option<Money>) -> (r: Json)
    ensures
        r.tree() == amount_tree(amount),
{
    let shown = match amount {
        Some(m) => Some(m.to_gateway_string()),
        None => None,
    };
    let mut members = no_members();
    push_opt_text(&mut members, "amount", &shown);
    proof {
        assert(json::member_trees(members@) =~= json::opt_member("amount"@, text::opt_text(shown)));
    }
    object(members)
}

/// What a reply to a refund says.
pub open spec fn refund_outcome(
    request: RefundRequest,
    reply: GatewayReply,
    decoded: Result<BraintreeTransaction, String>,
    now: Timestamp,
) -> Result<Refund, Fault> {
    match gateway::settled("braintree"@, reply, decoded, Some(Fault::ChargeNotFound(request.charge_id@))) {
        Ok(txn) => match amount_of(txn) {
            Ok(amount) => Ok(
                Refund {
                    id: txn.id,
                    charge_id: request.charge_id,
                    amount,
                    status: refund_status(txn.status@),
                    reason: request.reason,
                    created_at: clock::reported_or(txn.created_at, now),
                },
            ),
            Err(fault) => Err(fault),
        },
        Err(fault) => Err(fault),
    }
}

/// What a reply to a refund says, received at `now`.
pub fn refund_result_at(
    request: RefundRequest,
    reply: &GatewayReply,
    decoded: Result<BraintreeTransaction, String>,
    now: Timestamp,
) -> (r: PaymentResult<Refund>)
    ensures
        gateway::outcome(r) == refund_outcome(request, *reply, decoded, now),
        r is Ok ==> 200 <= reply.status < 300 && decoded is Ok,
        r matches Ok(refund) ==> (decoded matches Ok(txn) && {
            &&& refund.id == txn.id && refund.charge_id == request.charge_id && refund.reason == request.reason
            &&& refund.status is Succeeded <==> txn.status@ == "settled"@ || txn.status@ == "settling"@
            &&& refund.status is Failed <==> txn.status@ == "processor_declined"@ || txn.status@ == "gateway_rejected"@
                || txn.status@ == "failed"@
            &&& refund.status is Canceled <==> txn.status@ == "voided"@
        }),
        reply.status == 404 ==> (r matches Err(e) && e@ == Fault::ChargeNotFound(request.charge_id@)),
{
    let not_found = PaymentError::ChargeNotFound(request.charge_id.clone());
    let txn = match settle("braintree", reply, decoded, Some(not_found)) {
        Ok(txn) => txn,
        Err(e) => return Err(e),
    };
    let amount = match transaction_amount(&txn) {
        Ok(m) => m,
        Err(e) => return Err(e),
    };
    Ok(
        Refund {
            status: transaction_refund_status(&txn.status),
            id: txn.id,
            charge_id: request.charge_id,
            amount,
            reason: request.reason,
            created_at: reported_at(txn.created_at, now),
        },
    )
}

} // verus!
