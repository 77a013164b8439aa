//! What Stripe is sent, and how its answers are read.
use crate::clock::{self, Timestamp};
use crate::error::{self, Fault, PaymentResult};
use crate::gateway::{BodyFields, Method, RequestFields};
use crate::money::{self, Currency, Money};
use crate::providers::stripe::{self, StripeCharge, StripeErrorDetail, StripePaymentIntent, StripeRefund, StripeReply};
use crate::providers::stripe_vault::{
    self, StripeCard, StripeCustomer, StripeMethodPage, StripePaymentMethod, StripeSubscription, WalkFields, WalkStep,
};
use crate::redact;
use crate::string_map::StringMap;
use crate::text;
use crate::types::{
    CardFunding, Charge, ChargeRequest, ChargeStatus, CreateCustomerRequest, CreatePaymentMethodRequest,
    CreateSubscriptionRequest, Customer, PaymentMethod, PaymentMethodType, PaymentSource, Refund, RefundReason,
    RefundRequest, RefundStatus, Subscription, SubscriptionStatus, UpdateCustomerRequest,
};
use vstd::prelude::*;

verus! {

proof fn lemma_words()
    ensures
        "succeeded"@ != "failed"@,
        "succeeded"@ != "canceled"@,
        "failed"@ != "canceled"@,
        "duplicate"@ != "fraudulent"@,
        "duplicate"@ != "requested_by_customer"@,
        "fraudulent"@ != "requested_by_customer"@,
        "card_error"@ != "authentication_error"@,
        "card_error"@ != "rate_limit_error"@,
        "authentication_error"@ != "rate_limit_error"@,
        "true"@ != "false"@,
{
    reveal_strlit("succeeded");
    reveal_strlit("failed");
    reveal_strlit("canceled");
    reveal_strlit("duplicate");
    reveal_strlit("fraudulent");
    reveal_strlit("requested_by_customer");
    reveal_strlit("card_error");
    reveal_strlit("authentication_error");
    reveal_strlit("rate_limit_error");
    reveal_strlit("true");
    reveal_strlit("false");
    assert("succeeded"@.len() == 9 && "failed"@.len() == 6 && "canceled"@.len() == 8);
    assert("duplicate"@.len() == 9 && "fraudulent"@.len() == 10 && "requested_by_customer"@.len() == 21);
    assert("card_error"@.len() == 10 && "authentication_error"@.len() == 20 && "rate_limit_error"@.len() == 16);
    assert("true"@.len() == 4 && "false"@.len() == 5);
}

/// A refund is reported with the status that Stripe names, and is pending under any other name. Its
/// reason is the one that Stripe names, and its id, its charge and its amount are those that Stripe
/// gives.
pub proof fn refund_is_read_as_named(sent: StripeRefund, now: Timestamp)
    ensures
        ({
            let refund = sent.projected(now);
            &&& refund.status == RefundStatus::Succeeded <==> sent.status@ == "succeeded"@
            &&& refund.status == RefundStatus::Failed <==> sent.status@ == "failed"@
            &&& refund.status == RefundStatus::Canceled <==> sent.status@ == "canceled"@
            &&& refund.reason == Some(RefundReason::Duplicate) <==> text::opt_text(sent.reason) == Some("duplicate"@)
            &&& refund.reason == Some(RefundReason::Fraudulent) <==> text::opt_text(sent.reason) == Some("fraudulent"@)
            &&& refund.reason == Some(RefundReason::RequestedByCustomer) <==> text::opt_text(sent.reason) == Some(
                "requested_by_customer"@,
            )
            &&& refund.id == sent.id
            &&& refund.charge_id == sent.charge
            &&& refund.amount.amount == sent.amount
            &&& money::currency_named(sent.currency@) matches Some(c) ==> refund.amount.currency == c
            &&& money::currency_named(sent.currency@) is None ==> refund.amount.currency == Currency::USD
            &&& refund.created_at == clock::instant_or(sent.created, now)
        }),
{
    lemma_words();
}

/// A charge is reported with the status that Stripe names, and is pending under any other name. What
/// was charged, refunded, captured and disputed is what Stripe says.
pub proof fn charge_is_read_as_named(sent: StripeCharge, now: Timestamp)
    ensures
        ({
            let charge = sent.projected(now);
            &&& charge.status == ChargeStatus::Succeeded <==> sent.status@ == "succeeded"@
            &&& charge.status == ChargeStatus::Failed <==> sent.status@ == "failed"@
            &&& charge.status == ChargeStatus::Pending <==> sent.status@ != "succeeded"@ && sent.status@ != "failed"@
            &&& charge.id == sent.id
            &&& charge.amount.amount == sent.amount
            &&& sent.amount_refunded matches Some(n) ==> charge.amount_refunded.amount == n
            &&& sent.amount_refunded is None ==> charge.amount_refunded.amount == 0
            &&& charge.amount.currency == charge.amount_refunded.currency
            &&& money::currency_named(sent.currency@) matches Some(c) ==> charge.amount.currency == c
            &&& money::currency_named(sent.currency@) is None ==> charge.amount.currency == Currency::USD
            &&& charge.captured == sent.captured && charge.refunded == sent.refunded && charge.disputed == sent.disputed
            &&& charge.customer_id == sent.customer
            &&& charge.payment_method == sent.payment_method
            &&& charge.description == sent.description
            &&& charge.receipt_url == sent.receipt_url
            &&& charge.failure_reason == sent.failure_message
            &&& charge.metadata == sent.metadata
            &&& charge.created_at == clock::instant_or(sent.created, now)
        }),
{
    lemma_words();
}

/// A charge through a payment intent has succeeded or was canceled exactly where the intent says so,
/// and has been captured exactly where some of it was received. Its description and metadata are
/// those of the request.
pub proof fn intent_is_read_as_named(
    sent: StripePaymentIntent,
    requested: Money,
    description: Option<String>,
    metadata: StringMap,
    now: Timestamp,
)
    ensures
        ({
            let charge = stripe::intent_charge(sent, requested, description, metadata, now);
            &&& charge.status == ChargeStatus::Succeeded <==> sent.status@ == "succeeded"@
            &&& charge.status == ChargeStatus::Canceled <==> sent.status@ == "canceled"@
            &&& charge.status == ChargeStatus::Pending <==> sent.status@ != "succeeded"@ && sent.status@ != "canceled"@
            &&& charge.captured <==> sent.amount_received is Some && sent.amount_received->0 > 0
            &&& !charge.refunded && !charge.disputed
            &&& charge.id == sent.id
            &&& charge.amount.amount == sent.amount && charge.amount_refunded.amount == 0
            &&& charge.amount.currency == charge.amount_refunded.currency
            &&& money::currency_named(sent.currency@) matches Some(c) ==> charge.amount.currency == c
            &&& money::currency_named(sent.currency@) is None ==> charge.amount.currency == requested.currency
            &&& charge.customer_id == sent.customer && charge.payment_method == sent.payment_method
            &&& charge.description == description && charge.metadata == metadata
            &&& charge.receipt_url is None
            &&& sent.last_payment_error matches Some(e) ==> charge.failure_reason == e.message
            &&& sent.last_payment_error is None ==> charge.failure_reason is None
            &&& sent.created matches Some(secs) ==> charge.created_at == clock::instant_or(secs, now)
            &&& sent.created is None ==> charge.created_at == now
        }),
{
    lemma_words();
}

/// What was sent of a reply's body is used exactly where the reply is a success. A missing resource
/// is reported as what it means to the caller, and everything else as the error that Stripe reports.
pub proof fn answers_are_told_apart<T>(reply: StripeReply, decoded: Result<T, String>, not_found: Option<Fault>)
    ensures
        stripe::stripe_settled(reply, decoded, not_found) is Ok <==> 200 <= reply.reply.status < 300 && decoded is Ok,
        200 <= reply.reply.status < 300 ==> (decoded matches Ok(v) ==> stripe::stripe_settled(reply, decoded, not_found)
            == Ok::<T, Fault>(v)),
        200 <= reply.reply.status < 300 ==> (decoded matches Err(reason) ==> stripe::stripe_settled(
            reply,
            decoded,
            not_found,
        ) == Err::<T, Fault>(
            Fault::Serialization(reason@ + " (body: "@ + redact::sanitized(reply.reply.body@) + ")"@),
        )),
        reply.reply.status == 404 && not_found is Some ==> stripe::stripe_settled(reply, decoded, not_found) == Err::<
            T,
            Fault,
        >(not_found->0),
        !(200 <= reply.reply.status < 300) && (reply.reply.status != 404 || not_found is None)
            ==> stripe::stripe_settled(reply, decoded, not_found) == Err::<T, Fault>(stripe::stripe_fault(reply)),
{
}

/// A card that has expired, or has no funds, is told by the decline code, or by the code where there
/// is no decline code, in any case. Of other errors the type decides, and of those without a telling
/// type the status. The message that is kept is redacted.
pub proof fn described_errors_are_told_apart(status: u16, detail: StripeErrorDetail, retry_after: Option<u32>)
    ensures
        ({
            let fault = stripe::described_fault(status, detail, retry_after);
            let message = redact::sanitized(detail.message@);
            let code = if detail.decline_code is Some {
                text::opt_text(detail.decline_code)
            } else {
                text::opt_text(detail.code)
            };
            let expired = code is Some && text::lowercase(code->0) == "expired_card"@;
            let broke = code is Some && text::lowercase(code->0) == "insufficient_funds"@;
            let kind = text::opt_text(detail.error_type);
            let throttled = kind == Some("rate_limit_error"@) || status == 429;
            &&& fault == Fault::CardExpired <==> expired
            &&& fault == Fault::InsufficientFunds <==> broke
            &&& fault is CardDeclined <==> !expired && !broke && kind == Some("card_error"@)
            &&& fault is RateLimited <==> !expired && !broke && throttled && kind != Some("card_error"@) && kind != Some(
                "authentication_error"@,
            )
            &&& fault is Authentication <==> !expired && !broke && (kind == Some("authentication_error"@) || (!throttled
                && kind != Some("card_error"@) && (status == 401 || status == 403)))
            &&& fault is Provider <==> !expired && !broke && kind != Some("card_error"@) && kind != Some(
                "authentication_error"@,
            ) && !throttled && status != 401 && status != 403
            &&& fault matches Fault::CardDeclined(m) ==> m == message
            &&& fault matches Fault::Authentication(m) ==> m == message
            &&& fault matches Fault::Provider(s, m) ==> s == Some(status) && m == message
            &&& fault matches Fault::RateLimited(secs) ==> secs == (if retry_after is Some {
                retry_after->0
            } else {
                1u32
            })
        }),
{
    lemma_words();
    match stripe::reason_code(detail) {
        Some(code) => error::decline_codes_are_told_apart(code),
        None => {},
    }
}

/// An error that Stripe describes is the one that it describes; without a description, the status
/// tells the error, and the message names Stripe.
pub proof fn undescribed_errors_go_by_status(reply: StripeReply)
    ensures
        reply.error matches Some(detail) ==> stripe::stripe_fault(reply) == stripe::described_fault(
            reply.reply.status,
            detail,
            reply.reply.retry_after,
        ),
        reply.error is None ==> {
            let fault = stripe::stripe_fault(reply);
            let status = reply.reply.status;
            let message = "Stripe"@ + " returned HTTP "@ + text::int_text(status as int) + ": "@ + redact::sanitized(
                reply.reply.body@,
            );
            &&& status == 401 || status == 403 ==> fault == Fault::Authentication(message)
            &&& status == 429 ==> fault is RateLimited
            &&& status != 401 && status != 403 && status != 429 ==> fault == Fault::Provider(Some(status), message)
        },
{
}

proof fn lemma_field_names()
    ensures
        "amount"@.len() == 6 && "amount"@[0] == 'a',
        "currency"@.len() == 8 && "currency"@[0] == 'c' && "currency"@[2] == 'r',
        "description"@.len() == 11 && "description"@[0] == 'd',
        "customer"@.len() == 8 && "customer"@[0] == 'c' && "customer"@[2] == 's',
        "statement_descriptor"@.len() == 20 && "statement_descriptor"@[0] == 's',
        "source"@.len() == 6 && "source"@[0] == 's',
        "capture"@.len() == 7 && "capture"@[0] == 'c' && "capture"@[1] == 'a',
        "confirm"@.len() == 7 && "confirm"@[0] == 'c' && "confirm"@[1] == 'o',
        "payment_method"@.len() == 14 && "payment_method"@[0] == 'p',
        "capture_method"@.len() == 14 && "capture_method"@[0] == 'c',
        "charge"@.len() == 6 && "charge"@[0] == 'c',
        "reason"@.len() == 6 && "reason"@[0] == 'r',
        forall|f: Seq<char>| #[trigger] stripe::is_metadata_field(f) ==> f[0] == 'm',
{
    reveal_strlit("amount");
    reveal_strlit("currency");
    reveal_strlit("description");
    reveal_strlit("customer");
    reveal_strlit("statement_descriptor");
    reveal_strlit("source");
    reveal_strlit("capture");
    reveal_strlit("confirm");
    reveal_strlit("payment_method");
    reveal_strlit("capture_method");
    reveal_strlit("charge");
    reveal_strlit("reason");
    reveal_strlit("metadata[");
    assert forall|f: Seq<char>| #[trigger] stripe::is_metadata_field(f) implies f[0] == 'm' by {
        assert(stripe::metadata_field(f.subrange(9, f.len() - 1))[0] == 'm');
    }
}

/// The form that a charge is made with says what was asked: the amount in minor units, the currency
/// by its code in lower case, the description, the descriptor and the customer, and every metadata
/// entry under its own name. The source travels as what it is. A charge is captured at once exactly
/// where that was asked, and a payment method is charged through a payment intent that is confirmed
/// at once.
pub proof fn charge_says_what_was_asked(request: ChargeRequest, key: Seq<char>)
    requires
        stripe::charge_fields(request) is Ok,
    ensures
        ({
            let sent = stripe::charge_fields(request)->Ok_0;
            let form = sent.body->Form_0;
            &&& sent.method == Method::Post
            &&& sent.body is Form
            &&& sent.path == (if request.source is PaymentMethod {
                "/payment_intents"@
            } else {
                "/charges"@
            })
            &&& request.idempotency_key is None ==> sent.dedup is None
            &&& request.idempotency_key matches Some(k) ==> sent.dedup == Some(("Idempotency-Key"@, k@))
            &&& form.get("amount"@) == Some(text::int_text(request.amount.amount as int))
            &&& form.get("currency"@) == Some(text::lowercase(request.amount.currency.spec_code()))
            &&& form.get("description"@) == text::opt_text(request.description)
            &&& form.get("statement_descriptor"@) == text::opt_text(request.statement_descriptor)
            &&& form.get("customer"@) == (match request.source {
                PaymentSource::Customer { customer_id } => Some(customer_id@),
                _ => text::opt_text(request.customer_id),
            })
            &&& form.get("source"@) == (match request.source {
                PaymentSource::Card { token } => Some(token@),
                PaymentSource::Bank { token } => Some(token@),
                _ => None,
            })
            &&& form.get("payment_method"@) == (match request.source {
                PaymentSource::PaymentMethod { id } => Some(id@),
                _ => None,
            })
            &&& request.source is PaymentMethod ==> {
                &&& form.get("confirm"@) == Some("true"@)
                &&& form.get("capture"@) is None
                &&& request.capture ==> form.get("capture_method"@) is None
                &&& !request.capture ==> form.get("capture_method"@) == Some("manual"@)
            }
            &&& !(request.source is PaymentMethod) ==> {
                &&& form.get("confirm"@) is None
                &&& form.get("capture_method"@) is None
                &&& request.capture ==> form.get("capture"@) == Some("true"@)
                &&& !request.capture ==> form.get("capture"@) == Some("false"@)
            }
            &&& form.get("metadata["@ + key + "]"@) == request.metadata@.get(key)
        }),
{
    lemma_field_names();
    lemma_metadata_lookup(request, key);
}

proof fn lemma_metadata_lookup(request: ChargeRequest, key: Seq<char>)
    ensures
        stripe::charge_form(request).get("metadata["@ + key + "]"@) == request.metadata@.get(key),
        ("metadata["@ + key + "]"@).len() >= 10,
        ("metadata["@ + key + "]"@)[0] == 'm',
{
    lemma_field_names();
    reveal_strlit("metadata[");
    reveal_strlit("]");
    let field = "metadata["@ + key + "]"@;
    assert(field.subrange(9, field.len() - 1) =~= key);
    assert(field[0] == 'm');
    assert(stripe::is_metadata_field(field));
}

/// A payment intent is asked for in the same way. Tokens of cards and bank accounts are refused, and
/// a customer alone leaves the intent to be confirmed later.
pub proof fn intent_says_what_was_asked(request: ChargeRequest)
    ensures
        stripe::intent_fields(request) is Ok <==> request.source is PaymentMethod || request.source is Customer,
        stripe::intent_fields(request) matches Err(fault) ==> fault is Validation,
        stripe::intent_fields(request) matches Ok(sent) ==> {
            let form = sent.body->Form_0;
            &&& sent.method == Method::Post
            &&& sent.path == "/payment_intents"@
            &&& sent.body is Form
            &&& request.idempotency_key is None ==> sent.dedup is None
            &&& request.idempotency_key matches Some(k) ==> sent.dedup == Some(("Idempotency-Key"@, k@))
            &&& form.get("amount"@) == Some(text::int_text(request.amount.amount as int))
            &&& form.get("currency"@) == Some(text::lowercase(request.amount.currency.spec_code()))
            &&& request.source matches PaymentSource::PaymentMethod { id } ==> {
                &&& form.get("payment_method"@) == Some(id@)
                &&& form.get("confirm"@) == Some("true"@)
                &&& request.capture ==> form.get("capture_method"@) is None
                &&& !request.capture ==> form.get("capture_method"@) == Some("manual"@)
            }
            &&& request.source matches PaymentSource::Customer { customer_id } ==> {
                &&& form.get("customer"@) == Some(customer_id@)
                &&& form.get("payment_method"@) is None
                &&& form.get("confirm"@) is None
                &&& form.get("capture_method"@) is None
            }
        },
{
    lemma_field_names();
}

/// A refund names the charge, the amount in minor units where only a part is refunded, and the
/// reason where there is one, and nothing else.
pub proof fn refund_says_what_was_asked(request: RefundRequest)
    ensures
        ({
            let sent = stripe::refund_fields(request);
            let form = sent.body->Form_0;
            &&& sent.method == Method::Post
            &&& sent.path == "/refunds"@
            &&& sent.body is Form
            &&& request.idempotency_key is None ==> sent.dedup is None
            &&& request.idempotency_key matches Some(k) ==> sent.dedup == Some(("Idempotency-Key"@, k@))
            &&& form.get("charge"@) == Some(request.charge_id@)
            &&& request.amount matches Some(m) ==> form.get("amount"@) == Some(text::int_text(m.amount as int))
            &&& request.amount is None ==> form.get("amount"@) is None
            &&& request.reason is None <==> form.get("reason"@) is None
            &&& request.reason == Some(RefundReason::Duplicate) <==> form.get("reason"@) == Some("duplicate"@)
            &&& request.reason == Some(RefundReason::Fraudulent) <==> form.get("reason"@) == Some("fraudulent"@)
            &&& request.reason == Some(RefundReason::RequestedByCustomer) <==> form.get("reason"@) == Some(
                "requested_by_customer"@,
            )
            &&& forall|f: Seq<char>| #[trigger]
                form.dom().contains(f) ==> f == "charge"@ || f == "amount"@ || f == "reason"@
        }),
{
    lemma_field_names();
    lemma_words();
}

/// The amount of a capture is in minor units, and is left out where all is captured.
pub proof fn part_is_in_minor_units(amount: Option<Money>)
    ensures
        ({
            let form = stripe::with_field(Map::empty(), "amount"@, stripe::amount_text(amount));
            &&& amount matches Some(m) ==> form.get("amount"@) == Some(text::int_text(m.amount as int))
            &&& amount is None ==> form.dom() == Set::<Seq<char>>::empty()
        }),
{
}

/// The funding of a card is the one that Stripe names, and unknown under any other name. Everything
/// else about the card is as Stripe gives it.
pub proof fn card_is_read_as_named(sent: StripeCard)
    ensures
        ({
            let card = stripe_vault::card_of(Some(sent))->0;
            &&& card.funding == CardFunding::Credit <==> sent.funding@ == "credit"@
            &&& card.funding == CardFunding::Debit <==> sent.funding@ == "debit"@
            &&& card.funding == CardFunding::Prepaid <==> sent.funding@ == "prepaid"@
            &&& card.brand == sent.brand && card.last4 == sent.last4
            &&& card.exp_month == sent.exp_month && card.exp_year == sent.exp_year
        }),
        stripe_vault::card_of(Some(sent)) is Some,
        stripe_vault::card_of(None) is None,
{
    reveal_strlit("credit");
    reveal_strlit("debit");
    reveal_strlit("prepaid");
    assert("credit"@.len() == 6 && "debit"@.len() == 5 && "prepaid"@.len() == 7);
}

/// A customer and a payment method are reported as Stripe gives them.
pub proof fn customer_and_method_are_read_as_given(customer: StripeCustomer, method: StripePaymentMethod, now: Timestamp)
    ensures
        ({
            let c = customer.projected(now);
            &&& c.id == customer.id && c.email == customer.email && c.name == customer.name
            &&& c.phone == customer.phone && c.description == customer.description
            &&& c.default_payment_method == customer.default_source
            &&& c.address is None
            &&& c.metadata == customer.metadata
            &&& c.created_at == clock::instant_or(customer.created, now)
        }),
        ({
            let m = method.projected(now);
            &&& m.id == method.id && m.customer_id == method.customer
            &&& m.method_type == PaymentMethodType::Card
            &&& m.card is Some <==> method.card is Some
            &&& m.billing_details is None
            &&& m.created_at == clock::instant_or(method.created, now)
        }),
{
}

/// Each name of a status stands for the status it says; every other name stands for an active
/// subscription.
pub proof fn subscription_statuses_are_told_apart(status: Seq<char>)
    ensures
        ({
            let read = stripe_vault::subscription_status(status);
            &&& read == SubscriptionStatus::Trialing <==> status == "trialing"@
            &&& read == SubscriptionStatus::PastDue <==> status == "past_due"@
            &&& read == SubscriptionStatus::Canceled <==> status == "canceled"@
            &&& read == SubscriptionStatus::Unpaid <==> status == "unpaid"@
            &&& read == SubscriptionStatus::Incomplete <==> status == "incomplete"@
            &&& read == SubscriptionStatus::IncompleteExpired <==> status == "incomplete_expired"@
            &&& read == SubscriptionStatus::Paused <==> status == "paused"@
        }),
{
    reveal_strlit("trialing");
    reveal_strlit("past_due");
    reveal_strlit("canceled");
    reveal_strlit("unpaid");
    reveal_strlit("incomplete");
    reveal_strlit("incomplete_expired");
    reveal_strlit("paused");
    assert("trialing"@.len() == 8 && "trialing"@[0] == 't');
    assert("past_due"@.len() == 8 && "past_due"@[0] == 'p');
    assert("canceled"@.len() == 8 && "canceled"@[0] == 'c');
    assert("unpaid"@.len() == 6 && "unpaid"@[0] == 'u');
    assert("paused"@.len() == 6 && "paused"@[0] == 'p');
    assert("incomplete"@.len() == 10 && "incomplete_expired"@.len() == 18);
}

/// A subscription has the status that Stripe names, and is active under any other name. Its periods,
/// its end and its price are those that Stripe gives, its quantity one where Stripe gives none.
pub proof fn subscription_is_read_as_named(s: Subscription, sent: StripeSubscription)
    requires
        stripe_vault::is_subscription(s, sent),
    ensures
        s.status == SubscriptionStatus::Trialing <==> sent.status@ == "trialing"@,
        s.status == SubscriptionStatus::PastDue <==> sent.status@ == "past_due"@,
        s.status == SubscriptionStatus::Canceled <==> sent.status@ == "canceled"@,
        s.status == SubscriptionStatus::Unpaid <==> sent.status@ == "unpaid"@,
        s.status == SubscriptionStatus::Incomplete <==> sent.status@ == "incomplete"@,
        s.status == SubscriptionStatus::IncompleteExpired <==> sent.status@ == "incomplete_expired"@,
        s.status == SubscriptionStatus::Paused <==> sent.status@ == "paused"@,
        s.id == sent.id,
        s.customer_id == Some(sent.customer),
        s.current_period_start == clock::instant(sent.current_period_start),
        s.current_period_end == clock::instant(sent.current_period_end),
        s.created_at == clock::instant(sent.created),
        sent.trial_end is None ==> s.trial_end is None,
        sent.trial_end matches Some(secs) ==> s.trial_end == clock::instant(secs),
        sent.canceled_at is None ==> s.canceled_at is None,
        sent.canceled_at matches Some(secs) ==> s.canceled_at == clock::instant(secs),
        s.cancel_at_period_end == sent.cancel_at_period_end,
        s.metadata == sent.metadata,
        sent.items@.len() > 0 ==> (sent.items@[0].price matches Some(id) ==> s.price_id@ == id@),
        sent.items@.len() > 0 ==> (sent.items@[0].quantity matches Some(n) ==> s.quantity == n),
        sent.items@.len() == 0 || sent.items@[0].price is None ==> s.price_id@.len() == 0,
        sent.items@.len() == 0 || sent.items@[0].quantity is None ==> s.quantity == 1,
{
    subscription_statuses_are_told_apart(sent.status@);
}

/// The form of a new customer holds what the customer is known by, each under its own name, and
/// nothing else; the form of a change holds what changes.
pub proof fn customer_form_says_what_was_asked(request: CreateCustomerRequest, change: UpdateCustomerRequest)
    ensures
        ({
            let form = stripe_vault::customer_form(request);
            &&& form.get("email"@) == text::opt_text(request.email)
            &&& form.get("name"@) == text::opt_text(request.name)
            &&& form.get("phone"@) == text::opt_text(request.phone)
            &&& form.get("description"@) == text::opt_text(request.description)
            &&& forall|f: Seq<char>| #[trigger]
                form.dom().contains(f) ==> f == "email"@ || f == "name"@ || f == "phone"@ || f == "description"@
        }),
        ({
            let form = stripe_vault::customer_change_form(change);
            &&& form.get("email"@) == text::opt_text(change.email)
            &&& form.get("name"@) == text::opt_text(change.name)
            &&& form.get("phone"@) == text::opt_text(change.phone)
            &&& forall|f: Seq<char>| #[trigger] form.dom().contains(f) ==> f == "email"@ || f == "name"@ || f == "phone"@
        }),
{
    reveal_strlit("email");
    reveal_strlit("name");
    reveal_strlit("phone");
    reveal_strlit("description");
    assert("email"@.len() == 5 && "email"@[0] == 'e' && "phone"@.len() == 5 && "phone"@[0] == 'p');
    assert("name"@.len() == 4 && "description"@.len() == 11);
}

/// A new payment method is a card, with its number, its month and year of expiry, and its code, each
/// under its own name.
pub proof fn method_form_says_what_was_asked(request: CreatePaymentMethodRequest)
    ensures
        ({
            let form = stripe_vault::method_form(request);
            &&& form.get("type"@) == Some("card"@)
            &&& request.card matches Some(card) ==> {
                &&& form.get("card[number]"@) == Some(card.number@)
                &&& form.get("card[exp_month]"@) == Some(text::int_text(card.exp_month as int))
                &&& form.get("card[exp_year]"@) == Some(text::int_text(card.exp_year as int))
                &&& form.get("card[cvc]"@) == Some(card.cvc@)
            }
            &&& request.card is None ==> forall|f: Seq<char>| #[trigger] form.dom().contains(f) ==> f == "type"@
        }),
{
    reveal_strlit("type");
    reveal_strlit("card[number]");
    reveal_strlit("card[exp_month]");
    reveal_strlit("card[exp_year]");
    reveal_strlit("card[cvc]");
    assert("type"@.len() == 4 && "card[number]"@.len() == 12 && "card[exp_month]"@.len() == 15);
    assert("card[exp_year]"@.len() == 14 && "card[cvc]"@.len() == 9);
}

/// A new subscription names its customer and its price, and its quantity, its days of trial and its
/// payment method where there are any.
pub proof fn subscription_form_says_what_was_asked(request: CreateSubscriptionRequest)
    ensures
        ({
            let form = stripe_vault::subscription_form(request);
            &&& form.get("customer"@) == Some(request.customer_id@)
            &&& form.get("items[0][price]"@) == Some(request.price_id@)
            &&& request.quantity matches Some(n) ==> form.get("items[0][quantity]"@) == Some(text::int_text(n as int))
            &&& request.quantity is None ==> form.get("items[0][quantity]"@) is None
            &&& request.trial_days matches Some(n) ==> form.get("trial_period_days"@) == Some(text::int_text(n as int))
            &&& request.trial_days is None ==> form.get("trial_period_days"@) is None
            &&& form.get("default_payment_method"@) == text::opt_text(request.payment_method)
        }),
{
    reveal_strlit("customer");
    reveal_strlit("items[0][price]");
    reveal_strlit("items[0][quantity]");
    reveal_strlit("trial_period_days");
    reveal_strlit("default_payment_method");
    assert("customer"@.len() == 8 && "items[0][price]"@.len() == 15 && "items[0][quantity]"@.len() == 18);
    assert("trial_period_days"@.len() == 17 && "default_payment_method"@.len() == 22);
}

/// A form is posted without a deduplication header; a request without a body has none either.
pub proof fn vault_requests_are_plain(method: Method, path: Seq<char>, form: Map<Seq<char>, Seq<char>>)
    ensures
        stripe_vault::form_post(path, form).method == Method::Post,
        stripe_vault::form_post(path, form).path == path,
        stripe_vault::form_post(path, form).dedup is None,
        stripe_vault::form_post(path, form).body == BodyFields::Form(form),
        stripe_vault::bare(method, path).method == method,
        stripe_vault::bare(method, path).path == path,
        stripe_vault::bare(method, path).dedup is None,
        stripe_vault::bare(method, path).body == BodyFields::Empty,
{
}

/// A page of cards is asked for by the customer, a hundred at a time, and behind the last object that
/// was seen. A walk goes on exactly while there is more, the page was not empty, and fewer than twenty
/// pages were seen. Every method on a page is kept, in order, behind those that were found before.
pub proof fn pages_follow_each_other(step: WalkStep, walk: WalkFields, page: StripeMethodPage, now: Timestamp, id: Seq<char>)
    requires
        stripe_vault::is_step(step, walk, page, now),
    ensures
        stripe_vault::page_path(walk.customer_id, None) == "/payment_methods?customer="@ + walk.customer_id
            + "&type=card&limit=100"@,
        stripe_vault::page_path(walk.customer_id, Some(id)) == stripe_vault::page_path(walk.customer_id, None)
            + "&starting_after="@ + id,
        step is More <==> page.has_more && page.data@.len() > 0 && walk.pages + 1 < 20,
        step matches WalkStep::More(next) ==> {
            &&& next@.customer_id == walk.customer_id
            &&& next@.cursor == Some(page.data@.last().id@)
            &&& next@.pages == walk.pages + 1
            &&& next@.methods.len() == walk.methods.len() + page.data@.len()
            &&& next@.methods.take(walk.methods.len() as int) == walk.methods
            &&& forall|i: int|
                0 <= i < page.data@.len() ==> next@.methods[walk.methods.len() + i] == (#[trigger] page.data@[i]).projected(
                    now,
                )
        },
        step matches WalkStep::Done(methods) ==> {
            &&& methods@.len() == walk.methods.len() + page.data@.len()
            &&& methods@.take(walk.methods.len() as int) == walk.methods
            &&& forall|i: int|
                0 <= i < page.data@.len() ==> methods@[walk.methods.len() + i] == (#[trigger] page.data@[i]).projected(now)
        },
{
    match step {
        WalkStep::More(next) => {
            assert(next@.methods.take(walk.methods.len() as int) =~= walk.methods);
        },
        WalkStep::Done(methods) => {
            assert(methods@.take(walk.methods.len() as int) =~= walk.methods);
        },
    }
}

/// What a reply about a charge, an intent or a refund says: the charge or the refund as it is read from
/// what was sent, or the error that the reply stands for and nothing else. A refund of a charge that is
/// not found says so.
pub proof fn money_answers_are_told_apart(
    reply: StripeReply,
    charge: Result<StripeCharge, String>,
    intent: Result<StripePaymentIntent, String>,
    refund: Result<StripeRefund, String>,
    not_found: Option<Fault>,
    request: ChargeRequest,
    charge_id: Seq<char>,
    now: Timestamp,
)
    ensures
        stripe::stripe_settled(reply, charge, not_found) matches Ok(sent) ==> stripe::charge_outcome(
            reply,
            charge,
            not_found,
            now,
        ) == Ok::<Charge, Fault>(sent.projected(now)),
        stripe::stripe_settled(reply, charge, not_found) matches Err(fault) ==> stripe::charge_outcome(
            reply,
            charge,
            not_found,
            now,
        ) == Err::<Charge, Fault>(fault),
        stripe::stripe_settled(reply, intent, None) matches Ok(sent) ==> stripe::intent_charge_outcome(
            request,
            reply,
            intent,
            now,
        ) == Ok::<Charge, Fault>(
            stripe::intent_charge(sent, request.amount, request.description, request.metadata, now),
        ),
        stripe::stripe_settled(reply, intent, None) matches Err(fault) ==> stripe::intent_charge_outcome(
            request,
            reply,
            intent,
            now,
        ) == Err::<Charge, Fault>(fault),
        stripe::stripe_settled(reply, refund, Some(Fault::ChargeNotFound(charge_id))) matches Ok(sent)
            ==> stripe::refund_outcome(charge_id, reply, refund, now) == Ok::<Refund, Fault>(sent.projected(now)),
        stripe::stripe_settled(reply, refund, Some(Fault::ChargeNotFound(charge_id))) matches Err(fault)
            ==> stripe::refund_outcome(charge_id, reply, refund, now) == Err::<Refund, Fault>(fault),
{
}

/// What a reply about a customer, a payment method, a page or a subscription says: the resource as it
/// is read from what was sent, or the error that the reply stands for and nothing else.
pub proof fn vault_answers_are_told_apart(
    reply: StripeReply,
    customer: Result<StripeCustomer, String>,
    method: Result<StripePaymentMethod, String>,
    page: Result<StripeMethodPage, String>,
    subscription: Result<StripeSubscription, String>,
    not_found: Option<Fault>,
    walk: WalkFields,
    step: PaymentResult<WalkStep>,
    read: PaymentResult<Subscription>,
    now: Timestamp,
)
    ensures
        stripe::stripe_settled(reply, customer, not_found) matches Ok(sent) ==> stripe_vault::customer_outcome(
            reply,
            customer,
            not_found,
            now,
        ) == Ok::<Customer, Fault>(sent.projected(now)),
        stripe::stripe_settled(reply, customer, not_found) matches Err(fault) ==> stripe_vault::customer_outcome(
            reply,
            customer,
            not_found,
            now,
        ) == Err::<Customer, Fault>(fault),
        stripe::stripe_settled(reply, method, not_found) matches Ok(sent) ==> stripe_vault::method_outcome(
            reply,
            method,
            not_found,
            now,
        ) == Ok::<PaymentMethod, Fault>(sent.projected(now)),
        stripe::stripe_settled(reply, method, not_found) matches Err(fault) ==> stripe_vault::method_outcome(
            reply,
            method,
            not_found,
            now,
        ) == Err::<PaymentMethod, Fault>(fault),
        stripe_vault::page_outcome(walk, reply, page, now, step) ==> {
            &&& step is Ok <==> 200 <= reply.reply.status < 300 && page is Ok
            &&& step matches Ok(next) ==> stripe_vault::is_step(next, walk, page->Ok_0, now)
            &&& step matches Err(e) ==> stripe::stripe_settled(reply, page, None) == Err::<StripeMethodPage, Fault>(e@)
        },
        stripe_vault::subscription_outcome(reply, subscription, not_found, read) ==> {
            &&& read is Ok <==> 200 <= reply.reply.status < 300 && subscription is Ok
            &&& read matches Ok(s) ==> stripe_vault::is_subscription(s, subscription->Ok_0)
            &&& read matches Err(e) ==> stripe::stripe_settled(reply, subscription, not_found) == Err::<
                StripeSubscription,
                Fault,
            >(e@)
        },
{
}

/// Why a payment intent refuses a token.
pub proof fn refused_tokens_are_explained(request: ChargeRequest)
    ensures
        request.source is Card ==> stripe::intent_fields(request) == Err::<RequestFields, Fault>(
            Fault::Validation(
                "Stripe PaymentIntents do not accept raw card tokens; tokenize the card into a PaymentMethod first and use PaymentSource::PaymentMethod"@,
            ),
        ),
        request.source is Bank ==> stripe::intent_fields(request) == Err::<RequestFields, Fault>(
            Fault::Validation(
                "Stripe PaymentIntents do not accept bank-account tokens directly; create a us_bank_account PaymentMethod and use PaymentSource::PaymentMethod"@,
            ),
        ),
{
}

} // verus!
