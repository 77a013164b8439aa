//! Webhook events: the headers they come with, their types and their payloads.
use crate::clock::Timestamp;
use crate::error::{Fault, PaymentError, PaymentResult};
use crate::payload::WebhookData;
use crate::string_map::{self, StringMap};
use crate::text::{self, owned, same, to_lowercase};
use vstd::prelude::*;

verus! {

/// The request headers that accompany an inbound webhook.
///
/// Providers authenticate a webhook from different pieces of the request, so verification takes the
/// whole header set. Names are held in lower case, and lookups ignore the case of the name.
#[derive(Debug)]
pub struct WebhookHeaders {
    headers: StringMap,
}

/// What a header set answers for a name.
pub open spec fn header(headers: Map<Seq<char>, Seq<char>>, name: Seq<char>) -> Option<Seq<char>> {
    let key = text::lowercase(name);
    if headers.dom().contains(key) {
        Some(headers[key])
    } else {
        None
    }
}

/// A header set with one more header.
pub open spec fn with_header(headers: Map<Seq<char>, Seq<char>>, name: Seq<char>, value: Seq<char>) -> Map<
    Seq<char>,
    Seq<char>,
> {
    headers.insert(text::lowercase(name), value)
}

/// The header set made of the given headers, a later one in place of an earlier one.
pub open spec fn header_set(p: Seq<(Seq<char>, Seq<char>)>) -> Map<Seq<char>, Seq<char>>
    decreases p.len(),
{
    if p.len() == 0 {
        Map::empty()
    } else {
        with_header(header_set(p.drop_last()), p.last().0, p.last().1)
    }
}

/// A header is found under its name in any case, and adding one changes no other.
pub proof fn header_after_insert(
    headers: Map<Seq<char>, Seq<char>>,
    name: Seq<char>,
    value: Seq<char>,
    other: Seq<char>,
)
    ensures
        header(with_header(headers, name, value), other) == (if text::lowercase(other) == text::lowercase(name) {
            Some(value)
        } else {
            header(headers, other)
        }),
{
}

/// Whether every name is in lower case.
pub open spec fn lower_names(headers: Map<Seq<char>, Seq<char>>) -> bool {
    forall|name: Seq<char>| #[trigger] headers.dom().contains(name) ==> text::lowercase(name) == name
}

/// Lowercasing a second time changes nothing.
proof fn lemma_lowercase_again(s: Seq<char>)
    ensures
        text::lowercase(text::lowercase(s)) == text::lowercase(s),
{
    assert(text::lowercase(text::lowercase(s)) =~= text::lowercase(s));
}

/// The header set made of what a header set holds is that header set: what was stored as a plain
/// map reads back as it was.
pub proof fn headers_read_back(p: Seq<(Seq<char>, Seq<char>)>)
    requires
        lower_names(string_map::map_of(p)),
    ensures
        header_set(p) == string_map::map_of(p),
    decreases p.len(),
{
    if p.len() > 0 {
        let rest = string_map::map_of(p.drop_last());
        assert forall|name: Seq<char>| #[trigger] rest.dom().contains(name) implies text::lowercase(name) == name by {
            assert(string_map::map_of(p).dom().contains(name));
        }
        assert(string_map::map_of(p).dom().contains(p.last().0));
        headers_read_back(p.drop_last());
    }
}

impl View for WebhookHeaders {
    type V = Map<Seq<char>, Seq<char>>;

    closed spec fn view(&self) -> Map<Seq<char>, Seq<char>> {
        self.headers@
    }
}

impl Default for WebhookHeaders {
    fn default() -> (r: Self)
        ensures
            r@ == Map::<Seq<char>, Seq<char>>::empty(),
    {
        WebhookHeaders { headers: StringMap::new() }
    }
}

impl Clone for WebhookHeaders {
    fn clone(&self) -> (r: Self)
        ensures
            r@ == self@,
    {
        proof {
            use_type_invariant(self);
        }
        WebhookHeaders { headers: self.headers.clone() }
    }
}

impl WebhookHeaders {
    #[verifier::type_invariant]
    spec fn well_formed(self) -> bool {
        lower_names(self.headers@)
    }

    /// An empty header set.
    pub fn new() -> (r: Self)
        ensures
            r@ == Map::<Seq<char>, Seq<char>>::empty(),
    {
        WebhookHeaders { headers: StringMap::new() }
    }

    /// A header set containing a single entry.
    pub fn single(name: &str, value: &str) -> (r: Self)
        ensures
            r@ == with_header(Map::empty(), name@, value@),
    {
        WebhookHeaders::new().with(name, value)
    }

    /// Add a header (builder style).
    pub fn with(self, name: &str, value: &str) -> (r: Self)
        ensures
            r@ == with_header(self@, name@, value@),
    {
        let mut r = self;
        r.insert(name, value);
        r
    }

    /// Add a header.
    pub fn insert(&mut self, name: &str, value: &str)
        ensures
            final(self)@ == with_header(old(self)@, name@, value@),
    {
        proof {
            use_type_invariant(&*self);
            lemma_lowercase_again(name@);
        }
        let mut headers = StringMap::new();
        std::mem::swap(&mut headers, &mut self.headers);
        headers.insert(to_lowercase(name), owned(value));
        self.headers = headers;
    }

    /// The header set made of the given headers, a later one in place of an earlier one.
    pub fn from_pairs(headers: &[(String, String)]) -> (r: Self)
        ensures
            r@ == header_set(string_map::pairs(headers@)),
    {
        let mut r = WebhookHeaders::new();
        let ghost p = string_map::pairs(headers@);
        let mut i: usize = 0;
        while i < headers.len()
            invariant
                i <= headers.len(),
                p == string_map::pairs(headers@),
                r@ == header_set(p.take(i as int)),
            decreases headers.len() - i,
        {
            r.insert(&headers[i].0, &headers[i].1);
            proof {
                assert(p.take(i as int + 1).drop_last() =~= p.take(i as int));
                assert(p.take(i as int + 1).last() == (headers@[i as int].0@, headers@[i as int].1@));
            }
            i += 1;
        }
        proof {
            assert(p.take(p.len() as int) =~= p);
        }
        r
    }

    /// The headers as a plain map, each under its name in lower case.
    pub fn into_map(self) -> (r: StringMap)
        ensures
            r@ == self@,
            lower_names(r@),
    {
        proof {
            use_type_invariant(&self);
        }
        self.headers
    }

    /// Case-insensitive lookup.
    pub fn get(&self, name: &str) -> (r: Option<&str>)
        ensures
            text::opt_str(r) == header(self@, name@),
    {
        let key = to_lowercase(name);
        match self.headers.get(&key) {
            Some(value) => Some(value.as_str()),
            None => None,
        }
    }

    /// Look up a header, or fail with [`PaymentError::InvalidWebhookSignature`].
    ///
    /// A missing signature header is a verification failure, never a fall-through to acceptance.
    pub fn require(&self, name: &str) -> (r: PaymentResult<&str>)
        ensures
            match r {
                Ok(value) => header(self@, name@) == Some(value@),
                Err(e) => header(self@, name@) is None && e@ == Fault::InvalidWebhookSignature,
            },
    {
        match self.get(name) {
            Some(value) => Ok(value),
            None => Err(PaymentError::InvalidWebhookSignature),
        }
    }

    /// Number of headers present.
    pub fn len(&self) -> (r: usize)
        ensures
            r == self@.dom().len(),
            self@.dom().finite(),
    {
        self.headers.len()
    }

    /// Whether no headers are present.
    pub fn is_empty(&self) -> (r: bool)
        ensures
            r == (self@ == Map::<Seq<char>, Seq<char>>::empty()),
    {
        self.headers.is_empty()
    }
}

/// Webhook event
#[derive(Debug, Clone)]
pub struct WebhookEvent {
    /// Event ID
    pub id: String,
    /// Event type
    pub event_type: WebhookEventType,
    /// Timestamp
    pub created_at: Timestamp,
    /// Event data
    pub data: WebhookData,
    /// Provider
    pub provider: String,
    /// Livemode
    pub livemode: bool,
}

/// Webhook event types
#[derive(Debug, Clone, PartialEq, Eq, Hash)]
pub enum WebhookEventType {
    ChargeSucceeded,
    ChargeFailed,
    ChargeRefunded,
    ChargeDisputed,
    ChargeCaptured,
    PaymentIntentSucceeded,
    PaymentIntentFailed,
    PaymentIntentCanceled,
    PaymentIntentProcessing,
    PaymentIntentRequiresAction,
    CustomerCreated,
    CustomerUpdated,
    CustomerDeleted,
    SubscriptionCreated,
    SubscriptionUpdated,
    SubscriptionCanceled,
    SubscriptionTrialEnding,
    SubscriptionPastDue,
    InvoiceCreated,
    InvoicePaid,
    InvoicePaymentFailed,
    InvoiceUpcoming,
    InvoiceFinalized,
    PaymentMethodAttached,
    PaymentMethodDetached,
    PaymentMethodUpdated,
    PayoutCreated,
    PayoutPaid,
    PayoutFailed,
    DisputeCreated,
    DisputeUpdated,
    DisputeClosed,
    /// An event type that is not among the others, by its name.
    Unknown(String),
}

/// The objects that typed payloads are modelled on.
pub enum EventClass {
    Charge,
    Customer,
    Subscription,
    Invoice,
    PaymentMethod,
    Other,
}

impl WebhookEventType {
    /// The name of the event type on the wire.
    pub open spec fn name(self) -> Seq<char> {
        match self {
            WebhookEventType::ChargeSucceeded => "charge.succeeded"@,
            WebhookEventType::ChargeFailed => "charge.failed"@,
            WebhookEventType::ChargeRefunded => "charge.refunded"@,
            WebhookEventType::ChargeDisputed => "charge.disputed"@,
            WebhookEventType::ChargeCaptured => "charge.captured"@,
            WebhookEventType::PaymentIntentSucceeded => "payment_intent.succeeded"@,
            WebhookEventType::PaymentIntentFailed => "payment_intent.payment_failed"@,
            WebhookEventType::PaymentIntentCanceled => "payment_intent.canceled"@,
            WebhookEventType::PaymentIntentProcessing => "payment_intent.processing"@,
            WebhookEventType::PaymentIntentRequiresAction => "payment_intent.requires_action"@,
            WebhookEventType::CustomerCreated => "customer.created"@,
            WebhookEventType::CustomerUpdated => "customer.updated"@,
            WebhookEventType::CustomerDeleted => "customer.deleted"@,
            WebhookEventType::SubscriptionCreated => "customer.subscription.created"@,
            WebhookEventType::SubscriptionUpdated => "customer.subscription.updated"@,
            WebhookEventType::SubscriptionCanceled => "customer.subscription.deleted"@,
            WebhookEventType::SubscriptionTrialEnding => "customer.subscription.trial_will_end"@,
            WebhookEventType::SubscriptionPastDue => "customer.subscription.past_due"@,
            WebhookEventType::InvoiceCreated => "invoice.created"@,
            WebhookEventType::InvoicePaid => "invoice.paid"@,
            WebhookEventType::InvoicePaymentFailed => "invoice.payment_failed"@,
            WebhookEventType::InvoiceUpcoming => "invoice.upcoming"@,
            WebhookEventType::InvoiceFinalized => "invoice.finalized"@,
            WebhookEventType::PaymentMethodAttached => "payment_method.attached"@,
            WebhookEventType::PaymentMethodDetached => "payment_method.detached"@,
            WebhookEventType::PaymentMethodUpdated => "payment_method.updated"@,
            WebhookEventType::PayoutCreated => "payout.created"@,
            WebhookEventType::PayoutPaid => "payout.paid"@,
            WebhookEventType::PayoutFailed => "payout.failed"@,
            WebhookEventType::DisputeCreated => "charge.dispute.created"@,
            WebhookEventType::DisputeUpdated => "charge.dispute.updated"@,
            WebhookEventType::DisputeClosed => "charge.dispute.closed"@,
            WebhookEventType::Unknown(name) => name@,
        }
    }

    /// The object that the payload of an event of this type describes.
    pub open spec fn class(self) -> EventClass {
        match self {
            WebhookEventType::ChargeSucceeded => EventClass::Charge,
            WebhookEventType::ChargeFailed => EventClass::Charge,
            WebhookEventType::ChargeRefunded => EventClass::Charge,
            WebhookEventType::ChargeDisputed => EventClass::Charge,
            WebhookEventType::ChargeCaptured => EventClass::Charge,
            WebhookEventType::PaymentIntentSucceeded => EventClass::Charge,
            WebhookEventType::PaymentIntentFailed => EventClass::Charge,
            WebhookEventType::PaymentIntentCanceled => EventClass::Charge,
            WebhookEventType::PaymentIntentProcessing => EventClass::Charge,
            WebhookEventType::PaymentIntentRequiresAction => EventClass::Charge,
            WebhookEventType::CustomerCreated => EventClass::Customer,
            WebhookEventType::CustomerUpdated => EventClass::Customer,
            WebhookEventType::CustomerDeleted => EventClass::Customer,
            WebhookEventType::SubscriptionCreated => EventClass::Subscription,
            WebhookEventType::SubscriptionUpdated => EventClass::Subscription,
            WebhookEventType::SubscriptionCanceled => EventClass::Subscription,
            WebhookEventType::SubscriptionTrialEnding => EventClass::Subscription,
            WebhookEventType::SubscriptionPastDue => EventClass::Subscription,
            WebhookEventType::InvoiceCreated => EventClass::Invoice,
            WebhookEventType::InvoicePaid => EventClass::Invoice,
            WebhookEventType::InvoicePaymentFailed => EventClass::Invoice,
            WebhookEventType::InvoiceUpcoming => EventClass::Invoice,
            WebhookEventType::InvoiceFinalized => EventClass::Invoice,
            WebhookEventType::PaymentMethodAttached => EventClass::PaymentMethod,
            WebhookEventType::PaymentMethodDetached => EventClass::PaymentMethod,
            WebhookEventType::PaymentMethodUpdated => EventClass::PaymentMethod,
            WebhookEventType::PayoutCreated => EventClass::Other,
            WebhookEventType::PayoutPaid => EventClass::Other,
            WebhookEventType::PayoutFailed => EventClass::Other,
            WebhookEventType::DisputeCreated => EventClass::Other,
            WebhookEventType::DisputeUpdated => EventClass::Other,
            WebhookEventType::DisputeClosed => EventClass::Other,
            WebhookEventType::Unknown(_) => EventClass::Other,
        }
    }

    /// The name of the event type on the wire.
    pub fn wire_name(&self) -> (r: &str)
        ensures
            r@ == self.name(),
            self is ChargeSucceeded ==> r@ == "charge.succeeded"@,
            self is ChargeFailed ==> r@ == "charge.failed"@,
            self is ChargeRefunded ==> r@ == "charge.refunded"@,
            self is ChargeDisputed ==> r@ == "charge.disputed"@,
            self is ChargeCaptured ==> r@ == "charge.captured"@,
            self is PaymentIntentSucceeded ==> r@ == "payment_intent.succeeded"@,
            self is PaymentIntentFailed ==> r@ == "payment_intent.payment_failed"@,
            self is PaymentIntentCanceled ==> r@ == "payment_intent.canceled"@,
            self is PaymentIntentProcessing ==> r@ == "payment_intent.processing"@,
            self is PaymentIntentRequiresAction ==> r@ == "payment_intent.requires_action"@,
            self is CustomerCreated ==> r@ == "customer.created"@,
            self is CustomerUpdated ==> r@ == "customer.updated"@,
            self is CustomerDeleted ==> r@ == "customer.deleted"@,
            self is SubscriptionCreated ==> r@ == "customer.subscription.created"@,
            self is SubscriptionUpdated ==> r@ == "customer.subscription.updated"@,
            self is SubscriptionCanceled ==> r@ == "customer.subscription.deleted"@,
            self is SubscriptionTrialEnding ==> r@ == "customer.subscription.trial_will_end"@,
            self is SubscriptionPastDue ==> r@ == "customer.subscription.past_due"@,
            self is InvoiceCreated ==> r@ == "invoice.created"@,
            self is InvoicePaid ==> r@ == "invoice.paid"@,
            self is InvoicePaymentFailed ==> r@ == "invoice.payment_failed"@,
            self is InvoiceUpcoming ==> r@ == "invoice.upcoming"@,
            self is InvoiceFinalized ==> r@ == "invoice.finalized"@,
            self is PaymentMethodAttached ==> r@ == "payment_method.attached"@,
            self is PaymentMethodDetached ==> r@ == "payment_method.detached"@,
            self is PaymentMethodUpdated ==> r@ == "payment_method.updated"@,
            self is PayoutCreated ==> r@ == "payout.created"@,
            self is PayoutPaid ==> r@ == "payout.paid"@,
            self is PayoutFailed ==> r@ == "payout.failed"@,
            self is DisputeCreated ==> r@ == "charge.dispute.created"@,
            self is DisputeUpdated ==> r@ == "charge.dispute.updated"@,
            self is DisputeClosed ==> r@ == "charge.dispute.closed"@,
            self matches WebhookEventType::Unknown(own) ==> r@ == own@,
    {
        match self {
            WebhookEventType::ChargeSucceeded => "charge.succeeded",
            WebhookEventType::ChargeFailed => "charge.failed",
            WebhookEventType::ChargeRefunded => "charge.refunded",
            WebhookEventType::ChargeDisputed => "charge.disputed",
            WebhookEventType::ChargeCaptured => "charge.captured",
            WebhookEventType::PaymentIntentSucceeded => "payment_intent.succeeded",
            WebhookEventType::PaymentIntentFailed => "payment_intent.payment_failed",
            WebhookEventType::PaymentIntentCanceled => "payment_intent.canceled",
            WebhookEventType::PaymentIntentProcessing => "payment_intent.processing",
            WebhookEventType::PaymentIntentRequiresAction => "payment_intent.requires_action",
            WebhookEventType::CustomerCreated => "customer.created",
            WebhookEventType::CustomerUpdated => "customer.updated",
            WebhookEventType::CustomerDeleted => "customer.deleted",
            WebhookEventType::SubscriptionCreated => "customer.subscription.created",
            WebhookEventType::SubscriptionUpdated => "customer.subscription.updated",
            WebhookEventType::SubscriptionCanceled => "customer.subscription.deleted",
            WebhookEventType::SubscriptionTrialEnding => "customer.subscription.trial_will_end",
            WebhookEventType::SubscriptionPastDue => "customer.subscription.past_due",
            WebhookEventType::InvoiceCreated => "invoice.created",
            WebhookEventType::InvoicePaid => "invoice.paid",
            WebhookEventType::InvoicePaymentFailed => "invoice.payment_failed",
            WebhookEventType::InvoiceUpcoming => "invoice.upcoming",
            WebhookEventType::InvoiceFinalized => "invoice.finalized",
            WebhookEventType::PaymentMethodAttached => "payment_method.attached",
            WebhookEventType::PaymentMethodDetached => "payment_method.detached",
            WebhookEventType::PaymentMethodUpdated => "payment_method.updated",
            WebhookEventType::PayoutCreated => "payout.created",
            WebhookEventType::PayoutPaid => "payout.paid",
            WebhookEventType::PayoutFailed => "payout.failed",
            WebhookEventType::DisputeCreated => "charge.dispute.created",
            WebhookEventType::DisputeUpdated => "charge.dispute.updated",
            WebhookEventType::DisputeClosed => "charge.dispute.closed",
            WebhookEventType::Unknown(name) => name.as_str(),
        }
    }

    /// Parse from string
    pub fn from_str(s: &str) -> (r: Self)
        ensures
            r.name() == s@,
            r is Unknown ==> forall|t: WebhookEventType| !(t is Unknown) ==> #[trigger] t.name() != s@,
            s@ == "charge.succeeded"@ <==> r is ChargeSucceeded,
            s@ == "charge.failed"@ <==> r is ChargeFailed,
            s@ == "charge.refunded"@ <==> r is ChargeRefunded,
            s@ == "charge.disputed"@ <==> r is ChargeDisputed,
            s@ == "charge.captured"@ <==> r is ChargeCaptured,
            s@ == "payment_intent.succeeded"@ <==> r is PaymentIntentSucceeded,
            s@ == "payment_intent.payment_failed"@ <==> r is PaymentIntentFailed,
            s@ == "payment_intent.canceled"@ <==> r is PaymentIntentCanceled,
            s@ == "payment_intent.processing"@ <==> r is PaymentIntentProcessing,
            s@ == "payment_intent.requires_action"@ <==> r is PaymentIntentRequiresAction,
            s@ == "customer.created"@ <==> r is CustomerCreated,
            s@ == "customer.updated"@ <==> r is CustomerUpdated,
            s@ == "customer.deleted"@ <==> r is CustomerDeleted,
            s@ == "customer.subscription.created"@ <==> r is SubscriptionCreated,
            s@ == "customer.subscription.updated"@ <==> r is SubscriptionUpdated,
            s@ == "customer.subscription.deleted"@ <==> r is SubscriptionCanceled,
            s@ == "customer.subscription.trial_will_end"@ <==> r is SubscriptionTrialEnding,
            s@ == "customer.subscription.past_due"@ <==> r is SubscriptionPastDue,
            s@ == "invoice.created"@ <==> r is InvoiceCreated,
            s@ == "invoice.paid"@ <==> r is InvoicePaid,
            s@ == "invoice.payment_failed"@ <==> r is InvoicePaymentFailed,
            s@ == "invoice.upcoming"@ <==> r is InvoiceUpcoming,
            s@ == "invoice.finalized"@ <==> r is InvoiceFinalized,
            s@ == "payment_method.attached"@ <==> r is PaymentMethodAttached,
            s@ == "payment_method.detached"@ <==> r is PaymentMethodDetached,
            s@ == "payment_method.updated"@ <==> r is PaymentMethodUpdated,
            s@ == "payout.created"@ <==> r is PayoutCreated,
            s@ == "payout.paid"@ <==> r is PayoutPaid,
            s@ == "payout.failed"@ <==> r is PayoutFailed,
            s@ == "charge.dispute.created"@ <==> r is DisputeCreated,
            s@ == "charge.dispute.updated"@ <==> r is DisputeUpdated,
            s@ == "charge.dispute.closed"@ <==> r is DisputeClosed,
            r matches WebhookEventType::Unknown(own) ==> own@ == s@,
    {
        let r = Self::parsed(s);
        proof {
            name_tells_the_event(s@, r);
        }
        r
    }

    fn parsed(s: &str) -> (r: Self)
        ensures
            r.name() == s@,
            r is Unknown ==> forall|t: WebhookEventType| !(t is Unknown) ==> #[trigger] t.name() != s@,
    {
        if same(s, "charge.succeeded") {
            WebhookEventType::ChargeSucceeded
        } else if same(s, "charge.failed") {
            WebhookEventType::ChargeFailed
        } else if same(s, "charge.refunded") {
            WebhookEventType::ChargeRefunded
        } else if same(s, "charge.disputed") {
            WebhookEventType::ChargeDisputed
        } else if same(s, "charge.captured") {
            WebhookEventType::ChargeCaptured
        } else if same(s, "payment_intent.succeeded") {
            WebhookEventType::PaymentIntentSucceeded
        } else if same(s, "payment_intent.payment_failed") {
            WebhookEventType::PaymentIntentFailed
        } else if same(s, "payment_intent.canceled") {
            WebhookEventType::PaymentIntentCanceled
        } else if same(s, "payment_intent.processing") {
            WebhookEventType::PaymentIntentProcessing
        } else if same(s, "payment_intent.requires_action") {
            WebhookEventType::PaymentIntentRequiresAction
        } else if same(s, "customer.created") {
            WebhookEventType::CustomerCreated
        } else if same(s, "customer.updated") {
            WebhookEventType::CustomerUpdated
        } else if same(s, "customer.deleted") {
            WebhookEventType::CustomerDeleted
        } else if same(s, "customer.subscription.created") {
            WebhookEventType::SubscriptionCreated
        } else if same(s, "customer.subscription.updated") {
            WebhookEventType::SubscriptionUpdated
        } else if same(s, "customer.subscription.deleted") {
            WebhookEventType::SubscriptionCanceled
        } else if same(s, "customer.subscription.trial_will_end") {
            WebhookEventType::SubscriptionTrialEnding
        } else if same(s, "customer.subscription.past_due") {
            WebhookEventType::SubscriptionPastDue
        } else if same(s, "invoice.created") {
            WebhookEventType::InvoiceCreated
        } else if same(s, "invoice.paid") {
            WebhookEventType::InvoicePaid
        } else if same(s, "invoice.payment_failed") {
            WebhookEventType::InvoicePaymentFailed
        } else if same(s, "invoice.upcoming") {
            WebhookEventType::InvoiceUpcoming
        } else if same(s, "invoice.finalized") {
            WebhookEventType::InvoiceFinalized
        } else if same(s, "payment_method.attached") {
            WebhookEventType::PaymentMethodAttached
        } else if same(s, "payment_method.detached") {
            WebhookEventType::PaymentMethodDetached
        } else if same(s, "payment_method.updated") {
            WebhookEventType::PaymentMethodUpdated
        } else if same(s, "payout.created") {
            WebhookEventType::PayoutCreated
        } else if same(s, "payout.paid") {
            WebhookEventType::PayoutPaid
        } else if same(s, "payout.failed") {
            WebhookEventType::PayoutFailed
        } else if same(s, "charge.dispute.created") {
            WebhookEventType::DisputeCreated
        } else if same(s, "charge.dispute.updated") {
            WebhookEventType::DisputeUpdated
        } else if same(s, "charge.dispute.closed") {
            WebhookEventType::DisputeClosed
        } else {
            WebhookEventType::Unknown(owned(s))
        }
    }

    /// Is a charge event
    pub fn is_charge_event(&self) -> (r: bool)
        ensures
            r == (self is ChargeSucceeded || self is ChargeFailed || self is ChargeRefunded || self is ChargeDisputed || self is ChargeCaptured),
    {
        match self {
            WebhookEventType::ChargeSucceeded => true,
            WebhookEventType::ChargeFailed => true,
            WebhookEventType::ChargeRefunded => true,
            WebhookEventType::ChargeDisputed => true,
            WebhookEventType::ChargeCaptured => true,
            _ => false,
        }
    }

    /// Is a subscription event
    pub fn is_subscription_event(&self) -> (r: bool)
        ensures
            r == (self is SubscriptionCreated || self is SubscriptionUpdated || self is SubscriptionCanceled || self is SubscriptionTrialEnding || self is SubscriptionPastDue),
    {
        match self {
            WebhookEventType::SubscriptionCreated => true,
            WebhookEventType::SubscriptionUpdated => true,
            WebhookEventType::SubscriptionCanceled => true,
            WebhookEventType::SubscriptionTrialEnding => true,
            WebhookEventType::SubscriptionPastDue => true,
            _ => false,
        }
    }

    /// Is an invoice event
    pub fn is_invoice_event(&self) -> (r: bool)
        ensures
            r == (self is InvoiceCreated || self is InvoicePaid || self is InvoicePaymentFailed || self is InvoiceUpcoming || self is InvoiceFinalized),
    {
        match self {
            WebhookEventType::InvoiceCreated => true,
            WebhookEventType::InvoicePaid => true,
            WebhookEventType::InvoicePaymentFailed => true,
            WebhookEventType::InvoiceUpcoming => true,
            WebhookEventType::InvoiceFinalized => true,
            _ => false,
        }
    }
}

/// A wire name belongs to one event type only.
pub proof fn event_names_are_distinct(a: WebhookEventType, b: WebhookEventType)
    requires
        !(a is Unknown),
        !(b is Unknown),
        a.name() == b.name(),
    ensures
        a == b,
{
    reveal_strlit("charge.succeeded");
    assert("charge.succeeded"@.len() == 16 && "charge.succeeded"@[0] == 'c' && "charge.succeeded"@[10] == 'c');
    reveal_strlit("charge.failed");
    assert("charge.failed"@.len() == 13 && "charge.failed"@[0] == 'c');
    reveal_strlit("charge.refunded");
    assert("charge.refunded"@.len() == 15 && "charge.refunded"@[7] == 'r');
    reveal_strlit("charge.disputed");
    assert("charge.disputed"@.len() == 15 && "charge.disputed"@[7] == 'd');
    reveal_strlit("charge.captured");
    assert("charge.captured"@.len() == 15 && "charge.captured"@[7] == 'c');
    reveal_strlit("payment_intent.succeeded");
    assert("payment_intent.succeeded"@.len() == 24);
    reveal_strlit("payment_intent.payment_failed");
    assert("payment_intent.payment_failed"@.len() == 29 && "payment_intent.payment_failed"@[22] == '_');
    reveal_strlit("payment_intent.canceled");
    assert("payment_intent.canceled"@.len() == 23 && "payment_intent.canceled"@[15] == 'c');
    reveal_strlit("payment_intent.processing");
    assert("payment_intent.processing"@.len() == 25);
    reveal_strlit("payment_intent.requires_action");
    assert("payment_intent.requires_action"@.len() == 30 && "payment_intent.requires_action"@[0] == 'p');
    reveal_strlit("customer.created");
    assert("customer.created"@.len() == 16 && "customer.created"@[0] == 'c' && "customer.created"@[10] == 'r');
    reveal_strlit("customer.updated");
    assert("customer.updated"@.len() == 16 && "customer.updated"@[0] == 'c' && "customer.updated"@[10] == 'p');
    reveal_strlit("customer.deleted");
    assert("customer.deleted"@.len() == 16 && "customer.deleted"@[0] == 'c' && "customer.deleted"@[10] == 'e');
    reveal_strlit("customer.subscription.created");
    assert("customer.subscription.created"@.len() == 29 && "customer.subscription.created"@[22] == 'c');
    reveal_strlit("customer.subscription.updated");
    assert("customer.subscription.updated"@.len() == 29 && "customer.subscription.updated"@[22] == 'u');
    reveal_strlit("customer.subscription.deleted");
    assert("customer.subscription.deleted"@.len() == 29 && "customer.subscription.deleted"@[22] == 'd');
    reveal_strlit("customer.subscription.trial_will_end");
    assert("customer.subscription.trial_will_end"@.len() == 36);
    reveal_strlit("customer.subscription.past_due");
    assert("customer.subscription.past_due"@.len() == 30 && "customer.subscription.past_due"@[0] == 'c');
    reveal_strlit("invoice.created");
    assert("invoice.created"@.len() == 15 && "invoice.created"@[7] == '.');
    reveal_strlit("invoice.paid");
    assert("invoice.paid"@.len() == 12);
    reveal_strlit("invoice.payment_failed");
    assert("invoice.payment_failed"@.len() == 22 && "invoice.payment_failed"@[0] == 'i' && "invoice.payment_failed"@[15] == '_');
    reveal_strlit("invoice.upcoming");
    assert("invoice.upcoming"@.len() == 16 && "invoice.upcoming"@[0] == 'i' && "invoice.upcoming"@[10] == 'c');
    reveal_strlit("invoice.finalized");
    assert("invoice.finalized"@.len() == 17);
    reveal_strlit("payment_method.attached");
    assert("payment_method.attached"@.len() == 23 && "payment_method.attached"@[15] == 'a');
    reveal_strlit("payment_method.detached");
    assert("payment_method.detached"@.len() == 23 && "payment_method.detached"@[15] == 'd');
    reveal_strlit("payment_method.updated");
    assert("payment_method.updated"@.len() == 22 && "payment_method.updated"@[0] == 'p' && "payment_method.updated"@[15] == 'u');
    reveal_strlit("payout.created");
    assert("payout.created"@.len() == 14);
    reveal_strlit("payout.paid");
    assert("payout.paid"@.len() == 11);
    reveal_strlit("payout.failed");
    assert("payout.failed"@.len() == 13 && "payout.failed"@[0] == 'p');
    reveal_strlit("charge.dispute.created");
    assert("charge.dispute.created"@.len() == 22 && "charge.dispute.created"@[0] == 'c' && "charge.dispute.created"@[15] == 'c');
    reveal_strlit("charge.dispute.updated");
    assert("charge.dispute.updated"@.len() == 22 && "charge.dispute.updated"@[0] == 'c' && "charge.dispute.updated"@[15] == 'u');
    reveal_strlit("charge.dispute.closed");
    assert("charge.dispute.closed"@.len() == 21);
}

/// The type of an event follows from its name on the wire: each of the names belongs to the one
/// event it says, and every other name to an unknown event.
pub proof fn name_tells_the_event(name: Seq<char>, t: WebhookEventType)
    requires
        t.name() == name,
        t is Unknown ==> forall|u: WebhookEventType| !(u is Unknown) ==> #[trigger] u.name() != name,
    ensures
        name == "charge.succeeded"@ <==> t is ChargeSucceeded,
        name == "charge.failed"@ <==> t is ChargeFailed,
        name == "charge.refunded"@ <==> t is ChargeRefunded,
        name == "charge.disputed"@ <==> t is ChargeDisputed,
        name == "charge.captured"@ <==> t is ChargeCaptured,
        name == "payment_intent.succeeded"@ <==> t is PaymentIntentSucceeded,
        name == "payment_intent.payment_failed"@ <==> t is PaymentIntentFailed,
        name == "payment_intent.canceled"@ <==> t is PaymentIntentCanceled,
        name == "payment_intent.processing"@ <==> t is PaymentIntentProcessing,
        name == "payment_intent.requires_action"@ <==> t is PaymentIntentRequiresAction,
        name == "customer.created"@ <==> t is CustomerCreated,
        name == "customer.updated"@ <==> t is CustomerUpdated,
        name == "customer.deleted"@ <==> t is CustomerDeleted,
        name == "customer.subscription.created"@ <==> t is SubscriptionCreated,
        name == "customer.subscription.updated"@ <==> t is SubscriptionUpdated,
        name == "customer.subscription.deleted"@ <==> t is SubscriptionCanceled,
        name == "customer.subscription.trial_will_end"@ <==> t is SubscriptionTrialEnding,
        name == "customer.subscription.past_due"@ <==> t is SubscriptionPastDue,
        name == "invoice.created"@ <==> t is InvoiceCreated,
        name == "invoice.paid"@ <==> t is InvoicePaid,
        name == "invoice.payment_failed"@ <==> t is InvoicePaymentFailed,
        name == "invoice.upcoming"@ <==> t is InvoiceUpcoming,
        name == "invoice.finalized"@ <==> t is InvoiceFinalized,
        name == "payment_method.attached"@ <==> t is PaymentMethodAttached,
        name == "payment_method.detached"@ <==> t is PaymentMethodDetached,
        name == "payment_method.updated"@ <==> t is PaymentMethodUpdated,
        name == "payout.created"@ <==> t is PayoutCreated,
        name == "payout.paid"@ <==> t is PayoutPaid,
        name == "payout.failed"@ <==> t is PayoutFailed,
        name == "charge.dispute.created"@ <==> t is DisputeCreated,
        name == "charge.dispute.updated"@ <==> t is DisputeUpdated,
        name == "charge.dispute.closed"@ <==> t is DisputeClosed,
{
    if name == "charge.succeeded"@ {
        let named = WebhookEventType::ChargeSucceeded;
        assert(named.name() == name);
        event_names_are_distinct(t, named);
    }
    if name == "charge.failed"@ {
        let named = WebhookEventType::ChargeFailed;
        assert(named.name() == name);
        event_names_are_distinct(t, named);
    }
    if name == "charge.refunded"@ {
        let named = WebhookEventType::ChargeRefunded;
        assert(named.name() == name);
        event_names_are_distinct(t, named);
    }
    if name == "charge.disputed"@ {
        let named = WebhookEventType::ChargeDisputed;
        assert(named.name() == name);
        event_names_are_distinct(t, named);
    }
    if name == "charge.captured"@ {
        let named = WebhookEventType::ChargeCaptured;
        assert(named.name() == name);
        event_names_are_distinct(t, named);
    }
    if name == "payment_intent.succeeded"@ {
        let named = WebhookEventType::PaymentIntentSucceeded;
        assert(named.name() == name);
        event_names_are_distinct(t, named);
    }
    if name == "payment_intent.payment_failed"@ {
        let named = WebhookEventType::PaymentIntentFailed;
        assert(named.name() == name);
        event_names_are_distinct(t, named);
    }
    if name == "payment_intent.canceled"@ {
        let named = WebhookEventType::PaymentIntentCanceled;
        assert(named.name() == name);
        event_names_are_distinct(t, named);
    }
    if name == "payment_intent.processing"@ {
        let named = WebhookEventType::PaymentIntentProcessing;
        assert(named.name() == name);
        event_names_are_distinct(t, named);
    }
    if name == "payment_intent.requires_action"@ {
        let named = WebhookEventType::PaymentIntentRequiresAction;
        assert(named.name() == name);
        event_names_are_distinct(t, named);
    }
    if name == "customer.created"@ {
        let named = WebhookEventType::CustomerCreated;
        assert(named.name() == name);
        event_names_are_distinct(t, named);
    }
    if name == "customer.updated"@ {
        let named = WebhookEventType::CustomerUpdated;
        assert(named.name() == name);
        event_names_are_distinct(t, named);
    }
    if name == "customer.deleted"@ {
        let named = WebhookEventType::CustomerDeleted;
        assert(named.name() == name);
        event_names_are_distinct(t, named);
    }
    if name == "customer.subscription.created"@ {
        let named = WebhookEventType::SubscriptionCreated;
        assert(named.name() == name);
        event_names_are_distinct(t, named);
    }
    if name == "customer.subscription.updated"@ {
        let named = WebhookEventType::SubscriptionUpdated;
        assert(named.name() == name);
        event_names_are_distinct(t, named);
    }
    if name == "customer.subscription.deleted"@ {
        let named = WebhookEventType::SubscriptionCanceled;
        assert(named.name() == name);
        event_names_are_distinct(t, named);
    }
    if name == "customer.subscription.trial_will_end"@ {
        let named = WebhookEventType::SubscriptionTrialEnding;
        assert(named.name() == name);
        event_names_are_distinct(t, named);
    }
    if name == "customer.subscription.past_due"@ {
        let named = WebhookEventType::SubscriptionPastDue;
        assert(named.name() == name);
        event_names_are_distinct(t, named);
    }
    if name == "invoice.created"@ {
        let named = WebhookEventType::InvoiceCreated;
        assert(named.name() == name);
        event_names_are_distinct(t, named);
    }
    if name == "invoice.paid"@ {
        let named = WebhookEventType::InvoicePaid;
        assert(named.name() == name);
        event_names_are_distinct(t, named);
    }
    if name == "invoice.payment_failed"@ {
        let named = WebhookEventType::InvoicePaymentFailed;
        assert(named.name() == name);
        event_names_are_distinct(t, named);
    }
    if name == "invoice.upcoming"@ {
        let named = WebhookEventType::InvoiceUpcoming;
        assert(named.name() == name);
        event_names_are_distinct(t, named);
    }
    if name == "invoice.finalized"@ {
        let named = WebhookEventType::InvoiceFinalized;
        assert(named.name() == name);
        event_names_are_distinct(t, named);
    }
    if name == "payment_method.attached"@ {
        let named = WebhookEventType::PaymentMethodAttached;
        assert(named.name() == name);
        event_names_are_distinct(t, named);
    }
    if name == "payment_method.detached"@ {
        let named = WebhookEventType::PaymentMethodDetached;
        assert(named.name() == name);
        event_names_are_distinct(t, named);
    }
    if name == "payment_method.updated"@ {
        let named = WebhookEventType::PaymentMethodUpdated;
        assert(named.name() == name);
        event_names_are_distinct(t, named);
    }
    if name == "payout.created"@ {
        let named = WebhookEventType::PayoutCreated;
        assert(named.name() == name);
        event_names_are_distinct(t, named);
    }
    if name == "payout.paid"@ {
        let named = WebhookEventType::PayoutPaid;
        assert(named.name() == name);
        event_names_are_distinct(t, named);
    }
    if name == "payout.failed"@ {
        let named = WebhookEventType::PayoutFailed;
        assert(named.name() == name);
        event_names_are_distinct(t, named);
    }
    if name == "charge.dispute.created"@ {
        let named = WebhookEventType::DisputeCreated;
        assert(named.name() == name);
        event_names_are_distinct(t, named);
    }
    if name == "charge.dispute.updated"@ {
        let named = WebhookEventType::DisputeUpdated;
        assert(named.name() == name);
        event_names_are_distinct(t, named);
    }
    if name == "charge.dispute.closed"@ {
        let named = WebhookEventType::DisputeClosed;
        assert(named.name() == name);
        event_names_are_distinct(t, named);
    }
}

/// What the payload of an event describes follows from the name of the event: a charge for the
/// charge and payment intent events, a customer, a subscription, an invoice or a payment method for
/// the events about one, and nothing that has a typed shape for all others.
pub proof fn name_tells_the_payload(t: WebhookEventType)
    ensures
        t.class() is Charge <==> (t is ChargeSucceeded || t is ChargeFailed || t is ChargeRefunded || t is ChargeDisputed || t is ChargeCaptured || t is PaymentIntentSucceeded || t is PaymentIntentFailed || t is PaymentIntentCanceled || t is PaymentIntentProcessing || t is PaymentIntentRequiresAction),
        t.class() is Customer <==> (t is CustomerCreated || t is CustomerUpdated || t is CustomerDeleted),
        t.class() is Subscription <==> (t is SubscriptionCreated || t is SubscriptionUpdated || t is SubscriptionCanceled || t is SubscriptionTrialEnding || t is SubscriptionPastDue),
        t.class() is Invoice <==> (t is InvoiceCreated || t is InvoicePaid || t is InvoicePaymentFailed || t is InvoiceUpcoming || t is InvoiceFinalized),
        t.class() is PaymentMethod <==> (t is PaymentMethodAttached || t is PaymentMethodDetached || t is PaymentMethodUpdated),
{
}

} // verus!
