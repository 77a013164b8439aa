//! What the providers share.
use crate::types::{CreateSubscriptionRequest, Subscription};
use crate::webhook::WebhookEventType;
use vstd::prelude::*;

verus! {

/// The text, or an empty one where it is absent.
pub open spec fn text_or_empty(o: Option<String>) -> Seq<char> {
    match o {
        Some(s) => s@,
        None => Seq::empty(),
    }
}

/// The text, or an empty one where it is absent.
pub fn or_empty(o: Option<String>) -> (r: String)
    ensures
        r@ == text_or_empty(o),
{
    match o {
        Some(s) => s,
        None => String::new(),
    }
}

/// Whether `s` is the subscription `base` with what the request for it says: its customer, its
/// metadata, its quantity where it has one, and its plan where the gateway reports none.
pub open spec fn is_requested(s: Subscription, base: Subscription, request: CreateSubscriptionRequest) -> bool {
    s == (Subscription {
        customer_id: Some(request.customer_id),
        price_id: if base.price_id@.len() == 0 {
            request.price_id
        } else {
            base.price_id
        },
        quantity: match request.quantity {
            Some(n) => n,
            None => base.quantity,
        },
        metadata: request.metadata,
        ..base
    })
}

/// The subscription with what the request for it says.
pub fn with_request(subscription: Subscription, request: CreateSubscriptionRequest) -> (r: Subscription)
    ensures
        is_requested(r, subscription, request),
{
    let mut r = subscription;
    r.customer_id = Some(request.customer_id);
    if r.price_id.as_str().unicode_len() == 0 {
        r.price_id = request.price_id;
    }
    r.quantity = match request.quantity {
        Some(n) => n,
        None => r.quantity,
    };
    r.metadata = request.metadata;
    r
}

/// Whether `t` is the event type with the given name on the wire.
pub open spec fn is_event_type(t: WebhookEventType, name: Seq<char>) -> bool {
    &&& t.name() == name
    &&& t is Unknown ==> forall|other: WebhookEventType| !(other is Unknown) ==> #[trigger] other.name() != name
}

} // verus!
