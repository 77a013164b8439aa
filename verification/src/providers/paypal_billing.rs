//! PayPal's subscriptions, and the customer and payment-method operations that it lacks.
use crate::clock::Timestamp;
use crate::error::{Fault, PaymentError, PaymentResult};
use crate::gateway::{
    self, settle, settle_unit, Body, BodyFields, GatewayReply, GatewayRequest, Method, RequestFields,
};
use crate::json::{self, no_members, object, push_opt_text, push_text, Tree};
use crate::laws;
use crate::providers::common::{self, or_empty, with_request};
use crate::providers::paypal::PayPalProvider;
use crate::string_map::StringMap;
use crate::text::{self, concat2, concat3, owned, parse_u32, quoted, same, unsigned_text};
use crate::types::{CreateSubscriptionRequest, Subscription, SubscriptionStatus};
use vstd::prelude::*;

verus! {

/// A PayPal subscription, as the gateway reports it.
#[derive(Debug)]
pub struct PayPalSubscription {
    pub id: String,
    pub status: String,
    pub plan_id: Option<String>,
    pub quantity: Option<String>,
    pub create_time: Option<Timestamp>,
    pub status_update_time: Option<Timestamp>,
    pub billing_info: Option<PayPalBillingInfo>,
    pub subscriber: Option<PayPalSubscriber>,
}

/// How a subscription is billed.
#[derive(Debug)]
pub struct PayPalBillingInfo {
    pub next_billing_time: Option<Timestamp>,
    pub last_payment: Option<PayPalLastPayment>,
}

/// The last payment on a subscription.
#[derive(Debug)]
pub struct PayPalLastPayment {
    pub time: Option<Timestamp>,
}

/// The payer of a subscription.
#[derive(Debug)]
pub struct PayPalSubscriber {
    pub payer_id: Option<String>,
}

/// The subscription status that the gateway's status stands for.
pub open spec fn subscription_status(status: Seq<char>) -> SubscriptionStatus {
    if status == "CANCELLED"@ || status == "EXPIRED"@ {
        SubscriptionStatus::Canceled
    } else if status == "SUSPENDED"@ {
        SubscriptionStatus::Paused
    } else if status == "APPROVAL_PENDING"@ || status == "APPROVED"@ {
        SubscriptionStatus::Incomplete
    } else {
        SubscriptionStatus::Active
    }
}

/// When the last payment was made.
pub open spec fn last_paid(billing: PayPalBillingInfo) -> Option<Timestamp> {
    match billing.last_payment {
        Some(p) => p.time,
        None => None,
    }
}

/// When the current period began: at the last payment, or else at the creation, of a subscription
/// that is billed.
pub open spec fn period_start(sub: PayPalSubscription) -> Option<Timestamp> {
    match sub.billing_info {
        Some(b) => match last_paid(b) {
            Some(t) => Some(t),
            None => sub.create_time,
        },
        None => None,
    }
}

/// The number that a reported quantity denotes, and one where it denotes none.
pub open spec fn quantity_of(quantity: Option<String>) -> int {
    match quantity {
        Some(s) => match text::parsed_int(s@, 0, u32::MAX as int) {
            Some(n) => n,
            None => 1,
        },
        None => 1,
    }
}

/// Whether `s` is the subscription that the gateway reports. What it does not report stays absent.
pub open spec fn is_subscription(s: Subscription, sub: PayPalSubscription) -> bool {
    &&& s.id == sub.id
    &&& s.customer_id == (match sub.subscriber {
        Some(who) => who.payer_id,
        None => None,
    })
    &&& s.status == subscription_status(sub.status@)
    &&& s.current_period_start == period_start(sub)
    &&& s.current_period_end == (match sub.billing_info {
        Some(b) => b.next_billing_time,
        None => None,
    })
    &&& s.trial_end is None
    &&& !s.cancel_at_period_end
    &&& s.canceled_at == (if subscription_status(sub.status@) == SubscriptionStatus::Canceled {
        sub.status_update_time
    } else {
        None
    })
    &&& s.price_id@ == common::text_or_empty(sub.plan_id)
    &&& s.quantity == quantity_of(sub.quantity)
    &&& s.metadata@ == Map::<Seq<char>, Seq<char>>::empty()
    &&& s.created_at == sub.create_time
}

fn read_quantity(quantity: &Option<String>) -> (r: u32)
    ensures
        r == quantity_of(*quantity),
{
    match quantity {
        Some(s) => match parse_u32(s) {
            Some(n) => n,
            None => 1,
        },
        None => 1,
    }
}

impl PayPalSubscription {
    /// The subscription that the gateway reports.
    pub fn into_subscription(self) -> (r: Subscription)
        ensures
            is_subscription(r, self),
            r.status is Canceled <==> self.status@ == "CANCELLED"@ || self.status@ == "EXPIRED"@,
            r.status is Paused <==> self.status@ == "SUSPENDED"@,
            r.status is Incomplete <==> self.status@ == "APPROVAL_PENDING"@ || self.status@ == "APPROVED"@,
    {
        proof {
            laws::paypal::statuses_are_read_as_named(self.status@);
        }
        let status = if same(&self.status, "CANCELLED") || same(&self.status, "EXPIRED") {
            SubscriptionStatus::Canceled
        } else if same(&self.status, "SUSPENDED") {
            SubscriptionStatus::Paused
        } else if same(&self.status, "APPROVAL_PENDING") || same(&self.status, "APPROVED") {
            SubscriptionStatus::Incomplete
        } else {
            SubscriptionStatus::Active
        };
        let canceled_at = if status == SubscriptionStatus::Canceled {
            self.status_update_time
        } else {
            None
        };
        let quantity: u32 = read_quantity(&self.quantity);
        let (current_period_start, current_period_end) = match self.billing_info {
            Some(b) => {
                let paid = match b.last_payment {
                    Some(p) => p.time,
                    None => None,
                };
                let start = match paid {
                    Some(t) => Some(t),
                    None => self.create_time,
                };
                (start, b.next_billing_time)
            },
            None => (None, None),
        };
        Subscription {
            id: self.id,
            customer_id: match self.subscriber {
                Some(who) => who.payer_id,
                None => None,
            },
            status,
            current_period_start,
            current_period_end,
            trial_end: None,
            cancel_at_period_end: false,
            canceled_at,
            price_id: or_empty(self.plan_id),
            quantity,
            metadata: StringMap::new(),
            created_at: self.create_time,
        }
    }
}

/// The text of an optional number.
pub open spec fn opt_number_text(n: Option<u32>) -> Option<Seq<char>> {
    match n {
        Some(n) => Some(text::int_text(n as int)),
        None => None,
    }
}

/// Whether `r` is what a reply about an existing subscription says.
pub open spec fn subscription_outcome(
    id: Seq<char>,
    reply: GatewayReply,
    decoded: Result<PayPalSubscription, String>,
    r: PaymentResult<Subscription>,
) -> bool {
    match gateway::settled("paypal"@, reply, decoded, Some(Fault::SubscriptionNotFound(id))) {
        Ok(sub) => r matches Ok(s) && is_subscription(s, sub),
        Err(fault) => r matches Err(e) && e@ == fault,
    }
}

/// The error of an operation that PayPal lacks.
pub open spec fn absent(operation: Seq<char>) -> Fault {
    Fault::Unsupported("paypal"@ + " does not support "@ + operation)
}

impl PayPalProvider {
    /// The request that creates a subscription.
    pub fn create_subscription_request(&self, request: &CreateSubscriptionRequest) -> (r: GatewayRequest)
        ensures
            r@ == (RequestFields {
                method: Method::Post,
                path: "/v1/billing/subscriptions"@,
                dedup: None,
                body: BodyFields::Json(
                    Tree::Object(
                        seq![("plan_id"@, Tree::Text(request.price_id@))] + json::opt_member(
                            "quantity"@,
                            opt_number_text(request.quantity),
                        ),
                    ),
                ),
            }),
    {
        let quantity = match request.quantity {
            Some(n) => Some(unsigned_text(n as u64)),
            None => None,
        };
        let mut members = no_members();
        push_text(&mut members, "plan_id", &request.price_id);
        proof {
            assert(json::member_trees(members@) =~= seq![("plan_id"@, Tree::Text(request.price_id@))]);
        }
        push_opt_text(&mut members, "quantity", &quantity);
        GatewayRequest::plain(Method::Post, owned("/v1/billing/subscriptions"), Body::Json(object(members)))
    }

    /// What the reply to the creation of a subscription says.
    pub fn create_subscription_result(
        &self,
        request: CreateSubscriptionRequest,
        reply: &GatewayReply,
        decoded: Result<PayPalSubscription, String>,
    ) -> (r: PaymentResult<Subscription>)
        ensures
            match gateway::settled("paypal"@, *reply, decoded, None) {
                Ok(sub) => r matches Ok(s) && exists|base: Subscription| #[trigger]
                    is_subscription(base, sub) && common::is_requested(s, base, request),
                Err(fault) => r matches Err(e) && e@ == fault,
            },
    {
        match settle("paypal", reply, decoded, None) {
            Ok(sub) => {
                let base = sub.into_subscription();
                let ghost b = base;
                let s = with_request(base, request);
                proof {
                    assert(is_subscription(b, sub) && common::is_requested(s, b, request));
                }
                Ok(s)
            },
            Err(e) => Err(e),
        }
    }

    /// The request that reads a subscription.
    pub fn get_subscription_request(&self, id: &str) -> (r: GatewayRequest)
        ensures
            r@ == (RequestFields {
                method: Method::Get,
                path: "/v1/billing/subscriptions/"@ + id@,
                dedup: None,
                body: BodyFields::Empty,
            }),
    {
        GatewayRequest::plain(Method::Get, concat2("/v1/billing/subscriptions/", id), Body::Empty)
    }

    /// What the reply about an existing subscription says.
    pub fn subscription_result(
        &self,
        id: &str,
        reply: &GatewayReply,
        decoded: Result<PayPalSubscription, String>,
    ) -> (r: PaymentResult<Subscription>)
        ensures
            subscription_outcome(id@, *reply, decoded, r),
    {
        match settle("paypal", reply, decoded, Some(PaymentError::SubscriptionNotFound(owned(id)))) {
            Ok(sub) => Ok(sub.into_subscription()),
            Err(e) => Err(e),
        }
    }

    /// The request that moves a subscription to another plan. The subscription is read again after
    /// it.
    pub fn update_subscription_request(&self, id: &str, price_id: &str) -> (r: GatewayRequest)
        ensures
            r@ == (RequestFields {
                method: Method::Post,
                path: "/v1/billing/subscriptions/"@ + id@ + "/revise"@,
                dedup: None,
                body: BodyFields::Json(Tree::Object(seq![("plan_id"@, Tree::Text(price_id@))])),
            }),
    {
        let mut members = no_members();
        push_text(&mut members, "plan_id", price_id);
        proof {
            assert(json::member_trees(members@) =~= seq![("plan_id"@, Tree::Text(price_id@))]);
        }
        let path = concat3("/v1/billing/subscriptions/", id, "/revise");
        GatewayRequest::plain(Method::Post, path, Body::Json(object(members)))
    }

    /// The request that cancels a subscription. PayPal cancels at once or not at all.
    pub fn cancel_subscription_request(&self, id: &str, immediate: bool) -> (r: PaymentResult<GatewayRequest>)
        ensures
            if immediate {
                r matches Ok(q) && q@ == (RequestFields {
                    method: Method::Post,
                    path: "/v1/billing/subscriptions/"@ + id@ + "/cancel"@,
                    dedup: None,
                    body: BodyFields::Json(
                        Tree::Object(seq![("reason"@, Tree::Text("Customer requested cancellation"@))]),
                    ),
                })
            } else {
                r matches Err(e) && e@ == Fault::Unsupported(
                    "PayPal cannot schedule subscription "@ + id@
                        + " to cancel at period end; its cancel endpoint terminates immediately. Suspend the subscription and cancel it once the paid term expires, or call this with immediate = true if that is what you want."@,
                )
            },
    {
        if !immediate {
            return Err(
                PaymentError::Unsupported(
                    concat3(
                        "PayPal cannot schedule subscription ",
                        id,
                        " to cancel at period end; its cancel endpoint terminates immediately. Suspend the subscription and cancel it once the paid term expires, or call this with immediate = true if that is what you want.",
                    ),
                ),
            );
        }
        let mut members = no_members();
        push_text(&mut members, "reason", "Customer requested cancellation");
        proof {
            assert(json::member_trees(members@) =~= seq![("reason"@, Tree::Text("Customer requested cancellation"@))]);
        }
        let path = concat3("/v1/billing/subscriptions/", id, "/cancel");
        Ok(GatewayRequest::plain(Method::Post, path, Body::Json(object(members))))
    }

    /// The request that activates a suspended subscription.
    pub fn resume_subscription_request(&self, id: &str) -> (r: GatewayRequest)
        ensures
            r@ == (RequestFields {
                method: Method::Post,
                path: "/v1/billing/subscriptions/"@ + id@ + "/activate"@,
                dedup: None,
                body: BodyFields::Empty,
            }),
    {
        GatewayRequest::plain(Method::Post, concat3("/v1/billing/subscriptions/", id, "/activate"), Body::Empty)
    }

    /// Whether a change to a subscription went through, and the subscription can be read again.
    pub fn subscription_changed(&self, id: &str, reply: &GatewayReply) -> (r: PaymentResult<()>)
        ensures
            gateway::outcome(r) == gateway::settled(
                "paypal"@,
                *reply,
                Ok::<(), String>(()),
                Some(Fault::SubscriptionNotFound(id@)),
            ),
    {
        settle_unit("paypal", reply, Some(PaymentError::SubscriptionNotFound(owned(id))))
    }

    /// PayPal has no customers to create.
    pub fn create_customer_error(&self) -> (r: PaymentError)
        ensures
            r@ == absent(
                "create_customer: PayPal has no customer API; customers are identified by the payer on each order. Store your own customer record and pass its ID as ChargeRequest::customer_id."@,
            ),
    {
        PaymentError::unsupported(
            "paypal",
            "create_customer: PayPal has no customer API; customers are identified by the payer on each order. Store your own customer record and pass its ID as ChargeRequest::customer_id.",
        )
    }

    /// PayPal has no customers to read.
    pub fn get_customer_error(&self, id: &str) -> (r: PaymentError)
        ensures
            r@ == absent(
                "get_customer: PayPal has no customer API, so there is no record to read for "@ + text::debug_text(id@)
                    + ". This is not a missing customer — the operation does not exist."@,
            ),
    {
        let shown = quoted(id);
        let operation = concat3(
            "get_customer: PayPal has no customer API, so there is no record to read for ",
            &shown,
            ". This is not a missing customer — the operation does not exist.",
        );
        PaymentError::unsupported("paypal", &operation)
    }

    /// PayPal has no customers to update.
    pub fn update_customer_error(&self, id: &str) -> (r: PaymentError)
        ensures
            r@ == absent(
                "update_customer: PayPal has no customer API, so there is no record to update for "@ + text::debug_text(
                    id@,
                ) + ". This is not a missing customer — the operation does not exist."@,
            ),
    {
        let shown = quoted(id);
        let operation = concat3(
            "update_customer: PayPal has no customer API, so there is no record to update for ",
            &shown,
            ". This is not a missing customer — the operation does not exist.",
        );
        PaymentError::unsupported("paypal", &operation)
    }

    /// PayPal has no customers to delete. Success would claim an erasure that never happened.
    pub fn delete_customer_error(&self) -> (r: PaymentError)
        ensures
            r@ == absent(
                "delete_customer: PayPal has no customer API, so there is no customer record to delete. Erase your own customer record; payer data held by PayPal is deleted through PayPal's own account and data-retention processes, not this API."@,
            ),
    {
        PaymentError::unsupported(
            "paypal",
            "delete_customer: PayPal has no customer API, so there is no customer record to delete. Erase your own customer record; payer data held by PayPal is deleted through PayPal's own account and data-retention processes, not this API.",
        )
    }

    /// PayPal has no vault to create a payment method in.
    pub fn create_payment_method_error(&self) -> (r: PaymentError)
        ensures
            r@ == absent(
                "create_payment_method: PayPal handles payment methods through the checkout approval flow, not a server-side vault API."@,
            ),
    {
        PaymentError::unsupported(
            "paypal",
            "create_payment_method: PayPal handles payment methods through the checkout approval flow, not a server-side vault API.",
        )
    }

    /// PayPal has no vault to attach a payment method in.
    pub fn attach_payment_method_error(&self) -> (r: PaymentError)
        ensures
            r@ == absent(
                "attach_payment_method: PayPal handles payment methods through the checkout approval flow, not a server-side vault API."@,
            ),
    {
        PaymentError::unsupported(
            "paypal",
            "attach_payment_method: PayPal handles payment methods through the checkout approval flow, not a server-side vault API.",
        )
    }

    /// PayPal has no vault to detach a payment method from.
    pub fn detach_payment_method_error(&self) -> (r: PaymentError)
        ensures
            r@ == absent(
                "detach_payment_method: PayPal handles payment methods through the checkout approval flow, not a server-side vault API."@,
            ),
    {
        PaymentError::unsupported(
            "paypal",
            "detach_payment_method: PayPal handles payment methods through the checkout approval flow, not a server-side vault API.",
        )
    }

    /// PayPal has no vault to list. An empty list would say that a customer has no methods.
    pub fn list_payment_methods_error(&self) -> (r: PaymentError)
        ensures
            r@ == absent(
                "list_payment_methods: PayPal does not expose vaulted payment methods through this API; payment methods are selected by the buyer during the checkout approval flow."@,
            ),
    {
        PaymentError::unsupported(
            "paypal",
            "list_payment_methods: PayPal does not expose vaulted payment methods through this API; payment methods are selected by the buyer during the checkout approval flow.",
        )
    }
}

/// An operation that PayPal lacks is never retried.
pub proof fn absent_is_never_retried(operation: Seq<char>)
    ensures
        !absent(operation).retryable(),
{
}

} // verus!
