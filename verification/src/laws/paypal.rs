//! What PayPal is sent, and how its answers are read.
use crate::clock::Timestamp;
use crate::error::{Fault, PaymentResult};
use crate::gateway::{self, GatewayReply, Method};
use crate::json::{self, Tree};
use crate::money::{self, Currency, Money};
use crate::providers::common;
use crate::providers::paypal::{self, PayPalAmount, PayPalFields, PayPalOrder, PayPalRefund};
use crate::providers::paypal_billing::{self, PayPalSubscription};
use crate::text;
use crate::types::{
    Charge, ChargeRequest, ChargeStatus, CreateSubscriptionRequest, RefundRequest, RefundStatus, Subscription,
    SubscriptionStatus,
};
use vstd::prelude::*;
use vstd::utf8::*;

verus! {

/// A token is used for a minute less than it lives, but for half a minute at least; one that lives
/// longer is never used for a shorter time.
pub proof fn token_is_used_a_minute_less(expires_in: u64, longer: u64)
    requires
        expires_in <= longer,
    ensures
        expires_in - 60 >= 30 ==> paypal::lifetime(expires_in) == expires_in - 60,
        expires_in - 60 < 30 ==> paypal::lifetime(expires_in) == 30,
        paypal::lifetime(expires_in) <= paypal::lifetime(longer),
{
}

/// One instant is after another by its second, and within one second by its nanosecond; of two
/// instants one is after the other unless they are the same.
pub proof fn instants_are_in_order(a: Timestamp, b: Timestamp, c: Timestamp)
    ensures
        a.secs > b.secs ==> paypal::after(a, b),
        a.secs == b.secs ==> (paypal::after(a, b) <==> a.nanos > b.nanos),
        paypal::after(a, b) ==> !paypal::after(b, a),
        a == b || paypal::after(a, b) || paypal::after(b, a),
        paypal::after(a, b) && paypal::after(b, c) ==> paypal::after(a, c),
{
}

/// Requests go to the sandbox or to production, as the provider is set, unless another base URL was
/// given. A token is asked for with the credentials of the client alone.
pub proof fn requests_go_where_they_should(p: PayPalFields)
    ensures
        p.base_url_override matches Some(url) ==> paypal::base_url_of(p) == url,
        p.base_url_override is None && p.sandbox ==> paypal::base_url_of(p) == "https://api-m.sandbox.paypal.com"@,
        p.base_url_override is None && !p.sandbox ==> paypal::base_url_of(p) == "https://api-m.paypal.com"@,
        paypal::token_fields().method == Method::Post,
        paypal::token_fields().path == "/v1/oauth2/token"@,
        paypal::token_fields().dedup is None,
        paypal::token_fields().body is Form,
        paypal::token_fields().body->Form_0.get("grant_type"@) == Some("client_credentials"@),
{
}

proof fn lemma_words()
    ensures
        "COMPLETED"@ != "CAPTURED"@,
        "COMPLETED"@ != "VOIDED"@,
        "COMPLETED"@ != "DECLINED"@,
        "COMPLETED"@ != "FAILED"@,
        "COMPLETED"@ != "CANCELLED"@,
        "CAPTURED"@ != "VOIDED"@,
        "CAPTURED"@ != "DECLINED"@,
        "CAPTURED"@ != "FAILED"@,
        "VOIDED"@ != "DECLINED"@,
        "VOIDED"@ != "FAILED"@,
        "FAILED"@ != "CANCELLED"@,
        "CANCELLED"@ != "SUSPENDED"@,
        "EXPIRED"@ != "SUSPENDED"@,
        "CANCELLED"@ != "APPROVAL_PENDING"@,
        "CANCELLED"@ != "APPROVED"@,
        "EXPIRED"@ != "APPROVAL_PENDING"@,
        "EXPIRED"@ != "APPROVED"@,
        "SUSPENDED"@ != "APPROVAL_PENDING"@,
        "SUSPENDED"@ != "APPROVED"@,
        "CAPTURE"@ != "AUTHORIZE"@,
{
    reveal_strlit("COMPLETED");
    reveal_strlit("CAPTURED");
    reveal_strlit("VOIDED");
    reveal_strlit("DECLINED");
    reveal_strlit("FAILED");
    reveal_strlit("CANCELLED");
    reveal_strlit("SUSPENDED");
    reveal_strlit("EXPIRED");
    reveal_strlit("APPROVAL_PENDING");
    reveal_strlit("APPROVED");
    reveal_strlit("CAPTURE");
    reveal_strlit("AUTHORIZE");
    assert("COMPLETED"@.len() == 9 && "COMPLETED"@[1] == 'O');
    assert("CANCELLED"@.len() == 9 && "CANCELLED"@[1] == 'A' && "CANCELLED"@[0] == 'C');
    assert("SUSPENDED"@.len() == 9 && "SUSPENDED"@[0] == 'S');
    assert("CAPTURED"@.len() == 8 && "CAPTURED"@[0] == 'C');
    assert("DECLINED"@.len() == 8 && "DECLINED"@[0] == 'D');
    assert("VOIDED"@.len() == 6 && "VOIDED"@[0] == 'V');
    assert("FAILED"@.len() == 6 && "FAILED"@[0] == 'F');
    assert("EXPIRED"@.len() == 7 && "APPROVAL_PENDING"@.len() == 16 && "APPROVED"@.len() == 8);
    assert("CAPTURE"@.len() == 7 && "AUTHORIZE"@.len() == 9);
}

/// An order has succeeded, was canceled or has failed exactly where PayPal names a status that says
/// so, and waits under any other. A refund likewise.
pub proof fn statuses_are_read_as_named(status: Seq<char>)
    ensures
        paypal::charge_status(status) == ChargeStatus::Succeeded <==> status == "COMPLETED"@ || status == "CAPTURED"@,
        paypal::charge_status(status) == ChargeStatus::Canceled <==> status == "VOIDED"@,
        paypal::charge_status(status) == ChargeStatus::Failed <==> status == "DECLINED"@ || status == "FAILED"@,
        paypal::charge_status(status) != ChargeStatus::Disputed,
        paypal::refund_status(status) == RefundStatus::Succeeded <==> status == "COMPLETED"@,
        paypal::refund_status(status) == RefundStatus::Canceled <==> status == "CANCELLED"@,
        paypal::refund_status(status) == RefundStatus::Failed <==> status == "FAILED"@,
        paypal_billing::subscription_status(status) == SubscriptionStatus::Canceled <==> status == "CANCELLED"@
            || status == "EXPIRED"@,
        paypal_billing::subscription_status(status) == SubscriptionStatus::Paused <==> status == "SUSPENDED"@,
        paypal_billing::subscription_status(status) == SubscriptionStatus::Incomplete <==> status == "APPROVAL_PENDING"@
            || status == "APPROVED"@,
        paypal_billing::subscription_status(status) == SubscriptionStatus::Active <==> status != "CANCELLED"@ && status
            != "EXPIRED"@ && status != "SUSPENDED"@ && status != "APPROVAL_PENDING"@ && status != "APPROVED"@,
{
    lemma_words();
}

/// An amount on the wire is the code of its currency and its text in that currency.
pub proof fn amount_says_what_it_is(m: Money)
    ensures
        json::member(paypal::amount_tree(m), "currency_code"@) == Some(Tree::Text(m.currency.spec_code())),
        json::member(paypal::amount_tree(m), "value"@) == Some(Tree::Text(money::gateway_text(m))),
{
    reveal_strlit("currency_code");
    reveal_strlit("value");
    assert("currency_code"@.len() == 13 && "value"@.len() == 5);
    let members = paypal::amount_tree(m)->Object_0;
    json::first_of_a_name_is_found(members, "currency_code"@, 0);
    json::first_of_a_name_is_found(members, "value"@, 1);
}

/// An order is captured at once exactly where that was asked, and is only authorized otherwise. It
/// has one purchase unit, with the amount that was asked, the description, the descriptor and the
/// custom id where there are any.
pub proof fn order_says_what_was_asked(request: ChargeRequest, custom_id: Option<Seq<char>>)
    ensures
        ({
            let sent = paypal::order_fields(request, custom_id);
            let doc = sent.body->Json_0;
            let units = json::member(doc, "purchase_units"@);
            let unit = (units->0)->Array_0[0];
            &&& sent.method == Method::Post
            &&& sent.path == "/v2/checkout/orders"@
            &&& request.idempotency_key is None ==> sent.dedup is None
            &&& request.idempotency_key matches Some(k) ==> sent.dedup == Some(("PayPal-Request-Id"@, k@))
            &&& sent.body is Json
            &&& request.capture <==> json::member(doc, "intent"@) == Some(Tree::Text("CAPTURE"@))
            &&& !request.capture <==> json::member(doc, "intent"@) == Some(Tree::Text("AUTHORIZE"@))
            &&& units is Some && units->0 is Array && (units->0)->Array_0.len() == 1
            &&& json::member(unit, "amount"@) == Some(paypal::amount_tree(request.amount))
            &&& request.description matches Some(s) ==> json::member(unit, "description"@) == Some(Tree::Text(s@))
            &&& request.description is None ==> json::member(unit, "description"@) is None
            &&& request.statement_descriptor matches Some(s) ==> json::member(unit, "soft_descriptor"@) == Some(
                Tree::Text(s@),
            )
            &&& request.statement_descriptor is None ==> json::member(unit, "soft_descriptor"@) is None
            &&& custom_id matches Some(s) ==> json::member(unit, "custom_id"@) == Some(Tree::Text(s))
            &&& custom_id is None ==> json::member(unit, "custom_id"@) is None
        }),
{
    lemma_words();
    reveal_strlit("intent");
    reveal_strlit("purchase_units");
    assert("intent"@.len() == 6 && "purchase_units"@.len() == 14);
    let members = paypal::order_tree(request, custom_id)->Object_0;
    json::first_of_a_name_is_found(members, "intent"@, 0);
    json::first_of_a_name_is_found(members, "purchase_units"@, 1);
    lemma_unit(request, custom_id, "amount"@);
    lemma_unit(request, custom_id, "description"@);
    lemma_unit(request, custom_id, "soft_descriptor"@);
    lemma_unit(request, custom_id, "custom_id"@);
}

/// What is found in a purchase unit is the first of its four parts that has the name.
proof fn lemma_unit(request: ChargeRequest, custom_id: Option<Seq<char>>, name: Seq<char>)
    ensures
        "amount"@.len() == 6,
        "description"@.len() == 11,
        "soft_descriptor"@.len() == 15,
        "custom_id"@.len() == 9,
        ({
            let members = paypal::order_tree(request, custom_id)->Object_0;
            let unit = members[1].1->Array_0[0];
            let description = text::opt_text(request.description);
            let descriptor = text::opt_text(request.statement_descriptor);
            json::member(unit, name) == (if name == "amount"@ {
                Some(paypal::amount_tree(request.amount))
            } else if name == "description"@ && description is Some {
                Some(Tree::Text(description->0))
            } else if name == "soft_descriptor"@ && descriptor is Some {
                Some(Tree::Text(descriptor->0))
            } else if name == "custom_id"@ && custom_id is Some {
                Some(Tree::Text(custom_id->0))
            } else {
                None
            })
        }),
{
    reveal_strlit("amount");
    reveal_strlit("description");
    reveal_strlit("soft_descriptor");
    reveal_strlit("custom_id");
    let amount = paypal::amount_tree(request.amount);
    let description = text::opt_text(request.description);
    let descriptor = text::opt_text(request.statement_descriptor);
    let a = seq![("amount"@, amount)];
    let b = json::opt_member("description"@, description);
    let c = json::opt_member("soft_descriptor"@, descriptor);
    let d = json::opt_member("custom_id"@, custom_id);
    json::front_is_found_first(a, b, name);
    json::front_is_found_first(a + b, c, name);
    json::front_is_found_first(a + b + c, d, name);
    json::single_member_is_found("amount"@, amount, None, name);
    json::single_member_is_found("description"@, amount, description, name);
    json::single_member_is_found("soft_descriptor"@, amount, descriptor, name);
    json::single_member_is_found("custom_id"@, amount, custom_id, name);
}

/// A custom id takes at most 127 bytes of metadata. Longer metadata is refused and not dropped.
pub proof fn long_metadata_is_refused(encoded: Seq<char>, reason: Seq<char>)
    ensures
        encode_utf8(encoded).len() <= 127 ==> paypal::custom_id_of(Ok(encoded)) == Ok::<Seq<char>, Fault>(encoded),
        encode_utf8(encoded).len() > 127 ==> (paypal::custom_id_of(Ok(encoded)) matches Err(fault)
            && fault is Validation),
        paypal::custom_id_of(Err(reason)) == Err::<Seq<char>, Fault>(Fault::Serialization(reason)),
{
}

/// A refund is asked of the capture, with an amount exactly where only a part is refunded.
pub proof fn refund_says_what_was_asked(request: RefundRequest)
    ensures
        ({
            let sent = paypal::refund_fields(request);
            let doc = sent.body->Json_0;
            &&& sent.method == Method::Post
            &&& sent.path == "/v2/payments/captures/"@ + request.charge_id@ + "/refund"@
            &&& request.idempotency_key is None ==> sent.dedup is None
            &&& request.idempotency_key matches Some(k) ==> sent.dedup == Some(("PayPal-Request-Id"@, k@))
            &&& sent.body is Json && doc is Object
            &&& request.amount matches Some(m) ==> json::member(doc, "amount"@) == Some(paypal::amount_tree(m))
            &&& request.amount is None ==> doc->Object_0.len() == 0
        }),
{
    match request.amount {
        Some(m) => {
            json::single_member_is_found("amount"@, paypal::amount_tree(m), None, "amount"@);
        },
        None => {},
    }
}

/// An amount that PayPal reports is read in the currency it names, dollars where it names none that
/// is known; one that cannot be read is an error that is not retried, and never an amount.
pub proof fn reported_amount_is_read_or_refused(amount: PayPalAmount, context: Seq<char>)
    ensures
        ({
            let currency = match money::currency_named(amount.currency_code@) {
                Some(c) => c,
                None => Currency::USD,
            };
            &&& money::gateway_money(amount.value@, currency) matches Some(m) ==> paypal::reported_amount(amount, context)
                == Ok::<Money, Fault>(m)
            &&& money::gateway_money(amount.value@, currency) is None ==> (paypal::reported_amount(amount, context)
                matches Err(fault) && fault is Serialization && !fault.retryable())
        }),
{
}

/// What a reply to an order says, is what the order says: its id, its status, and the amount of its
/// first purchase unit, or the amount that was asked where it has none. It is captured exactly where
/// it is completed. The customer, the description and the metadata are those of the request.
pub proof fn order_is_read_as_given(
    request: ChargeRequest,
    reply: GatewayReply,
    decoded: Result<PayPalOrder, String>,
    now: Timestamp,
)
    ensures
        paypal::charge_outcome(request, reply, decoded, now) matches Ok(charge) ==> {
            &&& 200 <= reply.status < 300
            &&& decoded matches Ok(order) && {
                &&& charge.id == order.id
                &&& charge.status == ChargeStatus::Succeeded <==> order.status@ == "COMPLETED"@ || order.status@
                    == "CAPTURED"@
                &&& charge.status == ChargeStatus::Canceled <==> order.status@ == "VOIDED"@
                &&& charge.status == ChargeStatus::Failed <==> order.status@ == "DECLINED"@ || order.status@ == "FAILED"@
                &&& charge.captured <==> order.status@ == "COMPLETED"@
                &&& order.purchase_units@.len() > 0 ==> paypal::reported_amount(
                    order.purchase_units@[0].amount,
                    "order"@,
                ) == Ok::<Money, Fault>(charge.amount)
                &&& order.purchase_units@.len() == 0 ==> charge.amount == request.amount
                &&& charge.amount_refunded.amount == 0 && charge.amount_refunded.currency == charge.amount.currency
                &&& charge.customer_id == request.customer_id && charge.description == request.description
                &&& charge.metadata == request.metadata
                &&& charge.payment_method is None && charge.receipt_url is None && charge.failure_reason is None
                &&& !charge.refunded && !charge.disputed
                &&& charge.created_at == now
            }
        },
        !(200 <= reply.status < 300) ==> paypal::charge_outcome(request, reply, decoded, now) == Err::<Charge, Fault>(
            gateway::status_fault("paypal"@, reply.status, reply.body@, reply.retry_after),
        ),
        200 <= reply.status < 300 && decoded is Ok && (decoded->Ok_0).purchase_units@.len() == 0
            ==> paypal::charge_outcome(request, reply, decoded, now) is Ok,
{
    lemma_words();
}

/// What a reply to a capture says, is what the order says, as long as the order is found. It is
/// captured exactly where the status is one of success.
pub proof fn capture_is_read_as_given(
    charge_id: Seq<char>,
    reply: GatewayReply,
    decoded: Result<PayPalOrder, String>,
    now: Timestamp,
    r: PaymentResult<Charge>,
)
    requires
        paypal::capture_outcome(charge_id, reply, decoded, now, r),
    ensures
        r matches Ok(charge) ==> {
            &&& 200 <= reply.status < 300
            &&& decoded matches Ok(order) && {
                &&& charge.id == order.id
                &&& charge.status == ChargeStatus::Succeeded <==> order.status@ == "COMPLETED"@ || order.status@
                    == "CAPTURED"@
                &&& charge.status == ChargeStatus::Canceled <==> order.status@ == "VOIDED"@
                &&& charge.status == ChargeStatus::Failed <==> order.status@ == "DECLINED"@ || order.status@ == "FAILED"@
                &&& charge.captured <==> order.status@ == "COMPLETED"@ || order.status@ == "CAPTURED"@
                &&& order.purchase_units@.len() > 0 ==> paypal::reported_amount(
                    order.purchase_units@[0].amount,
                    "capture"@,
                ) == Ok::<Money, Fault>(charge.amount)
                &&& order.purchase_units@.len() == 0 ==> charge.amount == (Money { amount: 0, currency: Currency::USD })
                &&& charge.amount_refunded.amount == 0 && charge.amount_refunded.currency == charge.amount.currency
                &&& charge.customer_id is None && charge.payment_method is None && charge.description is None
                &&& charge.receipt_url is None && charge.failure_reason is None
                &&& charge.metadata@ == Map::<Seq<char>, Seq<char>>::empty()
                &&& !charge.refunded && !charge.disputed
                &&& charge.created_at == now
            }
        },
        reply.status == 404 ==> (r matches Err(e) && e@ == Fault::ChargeNotFound(charge_id)),
        !(200 <= reply.status < 300) ==> r is Err,
        200 <= reply.status < 300 && decoded is Ok && (decoded->Ok_0).purchase_units@.len() == 0 ==> r is Ok,
{
    lemma_words();
}

/// What a reply to a refund says, is what the refund says: its id, its status and its amount, which
/// is nothing where PayPal gives none. The charge and the reason are those of the request.
pub proof fn refund_is_read_as_given(
    request: RefundRequest,
    reply: GatewayReply,
    decoded: Result<PayPalRefund, String>,
    now: Timestamp,
)
    ensures
        paypal::refund_outcome(request, reply, decoded, now) matches Ok(refund) ==> {
            &&& 200 <= reply.status < 300
            &&& decoded matches Ok(sent) && {
                &&& refund.id == sent.id
                &&& refund.charge_id == request.charge_id && refund.reason == request.reason
                &&& refund.status == RefundStatus::Succeeded <==> sent.status@ == "COMPLETED"@
                &&& refund.status == RefundStatus::Canceled <==> sent.status@ == "CANCELLED"@
                &&& refund.status == RefundStatus::Failed <==> sent.status@ == "FAILED"@
                &&& sent.amount matches Some(a) ==> paypal::reported_amount(a, "refund"@) == Ok::<Money, Fault>(
                    refund.amount,
                )
                &&& sent.amount is None ==> refund.amount == (Money { amount: 0, currency: Currency::USD })
                &&& refund.created_at == now
            }
        },
        reply.status == 404 ==> (paypal::refund_outcome(request, reply, decoded, now) matches Err(fault) && fault
            == Fault::ChargeNotFound(request.charge_id@)),
        !(200 <= reply.status < 300) ==> paypal::refund_outcome(request, reply, decoded, now) is Err,
        200 <= reply.status < 300 && decoded is Ok && (decoded->Ok_0).amount is None ==> paypal::refund_outcome(
            request,
            reply,
            decoded,
            now,
        ) is Ok,
{
    lemma_words();
}

/// A subscription is reported as PayPal gives it. Its period runs from the last payment, or else from
/// the creation, to the next billing; what is not billed has no period. It was canceled when its
/// status last changed, and only where the status says that it is canceled.
pub proof fn subscription_is_read_as_given(s: Subscription, sent: PayPalSubscription)
    requires
        paypal_billing::is_subscription(s, sent),
    ensures
        s.id == sent.id,
        sent.subscriber matches Some(who) ==> s.customer_id == who.payer_id,
        sent.subscriber is None ==> s.customer_id is None,
        s.status == SubscriptionStatus::Canceled <==> sent.status@ == "CANCELLED"@ || sent.status@ == "EXPIRED"@,
        s.status == SubscriptionStatus::Paused <==> sent.status@ == "SUSPENDED"@,
        s.status == SubscriptionStatus::Incomplete <==> sent.status@ == "APPROVAL_PENDING"@ || sent.status@
            == "APPROVED"@,
        sent.billing_info is None ==> s.current_period_start is None && s.current_period_end is None,
        sent.billing_info matches Some(b) ==> {
            &&& s.current_period_end == b.next_billing_time
            &&& b.last_payment is Some && (b.last_payment->0).time is Some ==> s.current_period_start
                == (b.last_payment->0).time
            &&& b.last_payment is None || (b.last_payment->0).time is None ==> s.current_period_start
                == sent.create_time
        },
        sent.status@ == "CANCELLED"@ || sent.status@ == "EXPIRED"@ ==> s.canceled_at == sent.status_update_time,
        sent.status@ != "CANCELLED"@ && sent.status@ != "EXPIRED"@ ==> s.canceled_at is None,
        s.trial_end is None,
        !s.cancel_at_period_end,
        s.metadata@ == Map::<Seq<char>, Seq<char>>::empty(),
        sent.plan_id matches Some(plan) ==> s.price_id@ == plan@,
        sent.plan_id is None ==> s.price_id@.len() == 0,
        sent.quantity is None ==> s.quantity == 1,
        sent.quantity matches Some(q) ==> (text::parsed_int(q@, 0, u32::MAX as int) matches Some(n) ==> s.quantity == n),
        sent.quantity matches Some(q) ==> (text::parsed_int(q@, 0, u32::MAX as int) is None ==> s.quantity == 1),
        s.created_at == sent.create_time,
{
    statuses_are_read_as_named(sent.status@);
}

/// A subscription that was asked for has the customer and the metadata of the request, its quantity
/// where it asked for one, and its price where the gateway reports none. Nothing else of it changes.
pub proof fn request_completes_a_subscription(s: Subscription, base: Subscription, request: CreateSubscriptionRequest)
    requires
        common::is_requested(s, base, request),
    ensures
        s.customer_id == Some(request.customer_id),
        s.metadata == request.metadata,
        base.price_id@.len() == 0 ==> s.price_id == request.price_id,
        base.price_id@.len() > 0 ==> s.price_id == base.price_id,
        request.quantity matches Some(n) ==> s.quantity == n,
        request.quantity is None ==> s.quantity == base.quantity,
        s.id == base.id,
        s.status == base.status,
        s.current_period_start == base.current_period_start && s.current_period_end == base.current_period_end,
        s.trial_end == base.trial_end && s.canceled_at == base.canceled_at,
        s.cancel_at_period_end == base.cancel_at_period_end,
        s.created_at == base.created_at,
{
}

/// A subscription is asked for by its plan, and with a quantity where there is one.
pub proof fn subscription_says_what_was_asked(request: CreateSubscriptionRequest)
    ensures
        ({
            let doc = Tree::Object(
                seq![("plan_id"@, Tree::Text(request.price_id@))] + json::opt_member(
                    "quantity"@,
                    paypal_billing::opt_number_text(request.quantity),
                ),
            );
            &&& json::member(doc, "plan_id"@) == Some(Tree::Text(request.price_id@))
            &&& request.quantity matches Some(n) ==> json::member(doc, "quantity"@) == Some(
                Tree::Text(text::int_text(n as int)),
            )
            &&& request.quantity is None ==> json::member(doc, "quantity"@) is None
        }),
{
    reveal_strlit("plan_id");
    reveal_strlit("quantity");
    assert("plan_id"@.len() == 7 && "quantity"@.len() == 8);
    let plan = Tree::Text(request.price_id@);
    let front = seq![("plan_id"@, plan)];
    let n = paypal_billing::opt_number_text(request.quantity);
    let back = json::opt_member("quantity"@, n);
    json::front_is_found_first(front, back, "plan_id"@);
    json::front_is_found_first(front, back, "quantity"@);
    json::single_member_is_found("plan_id"@, plan, None, "plan_id"@);
    json::single_member_is_found("plan_id"@, plan, None, "quantity"@);
    json::single_member_is_found("quantity"@, plan, n, "quantity"@);
}

/// What a reply about a subscription says: the subscription, or that there is none, or the error of
/// the status.
pub proof fn subscription_answers_are_told_apart(
    id: Seq<char>,
    reply: GatewayReply,
    decoded: Result<PayPalSubscription, String>,
    r: PaymentResult<Subscription>,
)
    requires
        paypal_billing::subscription_outcome(id, reply, decoded, r),
    ensures
        r is Ok <==> 200 <= reply.status < 300 && decoded is Ok,
        reply.status == 404 ==> (r matches Err(e) && e@ == Fault::SubscriptionNotFound(id)),
        r matches Ok(s) ==> paypal_billing::is_subscription(s, decoded->Ok_0),
{
}

/// An operation that PayPal lacks is reported as unsupported, by the name of the provider.
pub proof fn absent_operation_is_named(operation: Seq<char>)
    ensures
        paypal_billing::absent(operation) == Fault::Unsupported("paypal"@ + " does not support "@ + operation),
{
}

/// Why an amount cannot be read, and why metadata is refused.
pub proof fn refusals_are_explained(amount: PayPalAmount, context: Seq<char>, encoded: Seq<char>)
    ensures
        paypal::reported_amount(amount, context) matches Err(fault) ==> fault == Fault::Serialization(
            "PayPal returned an unparseable "@ + context + " amount "@ + text::debug_text(amount.value@) + " (currency "@
                + text::debug_text(amount.currency_code@)
                + "). The operation may well have succeeded — reconcile against PayPal rather than assuming it did not."@,
        ),
        paypal::custom_id_of(Ok(encoded)) matches Err(fault) ==> fault == Fault::Validation(
            "PayPal custom_id is limited to 127 characters; the encoded metadata is "@ + text::int_text(
                encode_utf8(encoded).len() as int,
            ) + " characters. Store the detail against the returned order id instead."@,
        ),
{
}

} // verus!
