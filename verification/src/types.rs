//! Payment types and data structures
use crate::clock::Timestamp;
use crate::money::Money;
use crate::string_map::StringMap;
use crate::text::owned;
use vstd::prelude::*;

verus! {

/// Charge/Payment request
#[derive(Debug, Clone)]
pub struct ChargeRequest {
    /// Amount to charge
    pub amount: Money,
    /// Payment source
    pub source: PaymentSource,
    /// Customer ID (optional)
    pub customer_id: Option<String>,
    /// Description
    pub description: Option<String>,
    /// Statement descriptor
    pub statement_descriptor: Option<String>,
    /// Metadata
    pub metadata: StringMap,
    /// Capture immediately (false for auth-only)
    pub capture: bool,
    /// Idempotency key
    pub idempotency_key: Option<String>,
}

impl ChargeRequest {
    /// Create a simple charge request
    pub fn new(amount: Money, source: PaymentSource) -> (r: Self)
        ensures
            r.amount == amount,
            r.source == source,
            r.customer_id is None,
            r.description is None,
            r.statement_descriptor is None,
            r.metadata@ == Map::<Seq<char>, Seq<char>>::empty(),
            r.capture,
            r.idempotency_key is None,
    {
        ChargeRequest {
            amount,
            source,
            customer_id: None,
            description: None,
            statement_descriptor: None,
            metadata: StringMap::new(),
            capture: true,
            idempotency_key: None,
        }
    }

    /// With customer
    pub fn customer(self, customer_id: &str) -> (r: Self)
        ensures
            r == (ChargeRequest { customer_id: r.customer_id, ..self }),
            r.customer_id matches Some(s) && s@ == customer_id@,
    {
        let mut r = self;
        r.customer_id = Some(owned(customer_id));
        r
    }

    /// With description
    pub fn description(self, description: &str) -> (r: Self)
        ensures
            r == (ChargeRequest { description: r.description, ..self }),
            r.description matches Some(s) && s@ == description@,
    {
        let mut r = self;
        r.description = Some(owned(description));
        r
    }

    /// With metadata
    pub fn metadata(self, key: &str, value: &str) -> (r: Self)
        ensures
            r == (ChargeRequest { metadata: r.metadata, ..self }),
            r.metadata@ == self.metadata@.insert(key@, value@),
    {
        let mut r = self;
        r.metadata.insert(owned(key), owned(value));
        r
    }

    /// Auth only (no capture)
    pub fn auth_only(self) -> (r: Self)
        ensures
            r == (ChargeRequest { capture: false, ..self }),
    {
        let mut r = self;
        r.capture = false;
        r
    }
}

/// Payment source
#[derive(Debug, Clone)]
pub enum PaymentSource {
    /// Card token
    Card { token: String },
    /// Payment method ID
    PaymentMethod { id: String },
    /// Customer's default payment method
    Customer { customer_id: String },
    /// Bank account
    Bank { token: String },
}

impl PaymentSource {
    /// Card token
    pub fn card(token: &str) -> (r: Self)
        ensures
            r matches PaymentSource::Card { token: t } && t@ == token@,
    {
        PaymentSource::Card { token: owned(token) }
    }

    /// Payment method
    pub fn payment_method(id: &str) -> (r: Self)
        ensures
            r matches PaymentSource::PaymentMethod { id: t } && t@ == id@,
    {
        PaymentSource::PaymentMethod { id: owned(id) }
    }

    /// Customer default
    pub fn customer(customer_id: &str) -> (r: Self)
        ensures
            r matches PaymentSource::Customer { customer_id: t } && t@ == customer_id@,
    {
        PaymentSource::Customer { customer_id: owned(customer_id) }
    }
}

/// Charge result
#[derive(Debug, Clone)]
pub struct Charge {
    /// Charge ID
    pub id: String,
    /// Amount
    pub amount: Money,
    /// Amount refunded
    pub amount_refunded: Money,
    /// Status
    pub status: ChargeStatus,
    /// Customer ID
    pub customer_id: Option<String>,
    /// Payment method
    pub payment_method: Option<String>,
    /// Description
    pub description: Option<String>,
    /// Receipt URL
    pub receipt_url: Option<String>,
    /// Failure reason
    pub failure_reason: Option<String>,
    /// Metadata
    pub metadata: StringMap,
    /// Created timestamp
    pub created_at: Timestamp,
    /// Is captured
    pub captured: bool,
    /// Is refunded
    pub refunded: bool,
    /// Is disputed
    pub disputed: bool,
}

/// Charge status
#[derive(Debug, Clone, Copy, PartialEq, Eq, Structural)]
pub enum ChargeStatus {
    Pending,
    Succeeded,
    Failed,
    Canceled,
    Disputed,
}

/// Refund request
#[derive(Debug, Clone)]
pub struct RefundRequest {
    /// Charge ID to refund
    pub charge_id: String,
    /// Amount to refund (None = full refund)
    pub amount: Option<Money>,
    /// Reason
    pub reason: Option<RefundReason>,
    /// Metadata
    pub metadata: StringMap,
    /// Idempotency key: lets the gateway collapse a retried refund into the one it already made.
    pub idempotency_key: Option<String>,
}

impl RefundRequest {
    /// Create a refund request
    pub fn new(charge_id: &str) -> (r: Self)
        ensures
            r.charge_id@ == charge_id@,
            r.amount is None,
            r.reason is None,
            r.metadata@ == Map::<Seq<char>, Seq<char>>::empty(),
            r.idempotency_key is None,
    {
        RefundRequest {
            charge_id: owned(charge_id),
            amount: None,
            reason: None,
            metadata: StringMap::new(),
            idempotency_key: None,
        }
    }

    /// With an explicit idempotency key
    pub fn idempotency_key(self, key: &str) -> (r: Self)
        ensures
            r == (RefundRequest { idempotency_key: r.idempotency_key, ..self }),
            r.idempotency_key matches Some(s) && s@ == key@,
    {
        let mut r = self;
        r.idempotency_key = Some(owned(key));
        r
    }

    /// Partial refund
    pub fn amount(self, amount: Money) -> (r: Self)
        ensures
            r == (RefundRequest { amount: Some(amount), ..self }),
    {
        let mut r = self;
        r.amount = Some(amount);
        r
    }

    /// With reason
    pub fn reason(self, reason: RefundReason) -> (r: Self)
        ensures
            r == (RefundRequest { reason: Some(reason), ..self }),
    {
        let mut r = self;
        r.reason = Some(reason);
        r
    }
}

/// Refund reason
#[derive(Debug, Clone, Copy, PartialEq, Eq, Structural)]
pub enum RefundReason {
    Duplicate,
    Fraudulent,
    RequestedByCustomer,
}

/// Refund result
#[derive(Debug, Clone)]
pub struct Refund {
    /// Refund ID
    pub id: String,
    /// Charge ID
    pub charge_id: String,
    /// Amount refunded
    pub amount: Money,
    /// Status
    pub status: RefundStatus,
    /// Reason
    pub reason: Option<RefundReason>,
    /// Created timestamp
    pub created_at: Timestamp,
}

/// Refund status
#[derive(Debug, Clone, Copy, PartialEq, Eq, Structural)]
pub enum RefundStatus {
    Pending,
    Succeeded,
    Failed,
    Canceled,
}

/// Create customer request
#[derive(Debug, Clone)]
pub struct CreateCustomerRequest {
    /// Email
    pub email: Option<String>,
    /// Name
    pub name: Option<String>,
    /// Phone
    pub phone: Option<String>,
    /// Description
    pub description: Option<String>,
    /// Default payment method
    pub payment_method: Option<String>,
    /// Metadata
    pub metadata: StringMap,
    /// Address
    pub address: Option<Address>,
}

impl Default for CreateCustomerRequest {
    fn default() -> (r: Self)
        ensures
            r.email is None,
            r.name is None,
            r.phone is None,
            r.description is None,
            r.payment_method is None,
            r.metadata@ == Map::<Seq<char>, Seq<char>>::empty(),
            r.address is None,
    {
        CreateCustomerRequest {
            email: None,
            name: None,
            phone: None,
            description: None,
            payment_method: None,
            metadata: StringMap::new(),
            address: None,
        }
    }
}

impl CreateCustomerRequest {
    /// Create with email
    pub fn with_email(email: &str) -> (r: Self)
        ensures
            r.email matches Some(s) && s@ == email@,
            r.name is None,
            r.phone is None,
            r.description is None,
            r.payment_method is None,
            r.metadata@ == Map::<Seq<char>, Seq<char>>::empty(),
            r.address is None,
    {
        let mut r = CreateCustomerRequest::default();
        r.email = Some(owned(email));
        r
    }

    /// Set name
    pub fn name(self, name: &str) -> (r: Self)
        ensures
            r == (CreateCustomerRequest { name: r.name, ..self }),
            r.name matches Some(s) && s@ == name@,
    {
        let mut r = self;
        r.name = Some(owned(name));
        r
    }

    /// Set phone
    pub fn phone(self, phone: &str) -> (r: Self)
        ensures
            r == (CreateCustomerRequest { phone: r.phone, ..self }),
            r.phone matches Some(s) && s@ == phone@,
    {
        let mut r = self;
        r.phone = Some(owned(phone));
        r
    }

    /// Set metadata
    pub fn metadata(self, key: &str, value: &str) -> (r: Self)
        ensures
            r == (CreateCustomerRequest { metadata: r.metadata, ..self }),
            r.metadata@ == self.metadata@.insert(key@, value@),
    {
        let mut r = self;
        r.metadata.insert(owned(key), owned(value));
        r
    }
}

/// Update customer request
#[derive(Debug, Clone)]
pub struct UpdateCustomerRequest {
    pub email: Option<String>,
    pub name: Option<String>,
    pub phone: Option<String>,
    pub description: Option<String>,
    pub default_payment_method: Option<String>,
    pub metadata: Option<StringMap>,
    pub address: Option<Address>,
}

impl Default for UpdateCustomerRequest {
    fn default() -> (r: Self)
        ensures
            r.email is None,
            r.name is None,
            r.phone is None,
            r.description is None,
            r.default_payment_method is None,
            r.metadata is None,
            r.address is None,
    {
        UpdateCustomerRequest {
            email: None,
            name: None,
            phone: None,
            description: None,
            default_payment_method: None,
            metadata: None,
            address: None,
        }
    }
}

/// Customer
#[derive(Debug, Clone)]
pub struct Customer {
    /// Customer ID
    pub id: String,
    /// Email
    pub email: Option<String>,
    /// Name
    pub name: Option<String>,
    /// Phone
    pub phone: Option<String>,
    /// Description
    pub description: Option<String>,
    /// Default payment method
    pub default_payment_method: Option<String>,
    /// Address
    pub address: Option<Address>,
    /// Metadata
    pub metadata: StringMap,
    /// Created timestamp
    pub created_at: Timestamp,
}

/// Address
#[derive(Debug, Clone)]
pub struct Address {
    pub line1: Option<String>,
    pub line2: Option<String>,
    pub city: Option<String>,
    pub state: Option<String>,
    pub postal_code: Option<String>,
    pub country: Option<String>,
}

impl Default for Address {
    fn default() -> (r: Self)
        ensures
            r.line1 is None,
            r.line2 is None,
            r.city is None,
            r.state is None,
            r.postal_code is None,
            r.country is None,
    {
        Address { line1: None, line2: None, city: None, state: None, postal_code: None, country: None }
    }
}

/// Create payment method request
#[derive(Debug, Clone)]
pub struct CreatePaymentMethodRequest {
    /// Type of payment method
    pub method_type: PaymentMethodType,
    /// Card details (for card type). Only providers that accept raw card data use them.
    pub card: Option<CardDetails>,
    /// Client-generated single-use nonce representing the payment method.
    pub payment_method_nonce: Option<String>,
    /// Billing details
    pub billing_details: Option<BillingDetails>,
}

impl CreatePaymentMethodRequest {
    /// A card payment method built from raw card details.
    pub fn card(card: CardDetails) -> (r: Self)
        ensures
            r == (CreatePaymentMethodRequest {
                method_type: PaymentMethodType::Card,
                card: Some(card),
                payment_method_nonce: None,
                billing_details: None,
            }),
    {
        CreatePaymentMethodRequest {
            method_type: PaymentMethodType::Card,
            card: Some(card),
            payment_method_nonce: None,
            billing_details: None,
        }
    }

    /// A card payment method built from a client-generated nonce.
    pub fn nonce(nonce: &str) -> (r: Self)
        ensures
            r.method_type == PaymentMethodType::Card,
            r.card is None,
            r.payment_method_nonce matches Some(s) && s@ == nonce@,
            r.billing_details is None,
    {
        CreatePaymentMethodRequest {
            method_type: PaymentMethodType::Card,
            card: None,
            payment_method_nonce: Some(owned(nonce)),
            billing_details: None,
        }
    }

    /// Attach billing details.
    pub fn billing_details(self, details: BillingDetails) -> (r: Self)
        ensures
            r == (CreatePaymentMethodRequest { billing_details: Some(details), ..self }),
    {
        let mut r = self;
        r.billing_details = Some(details);
        r
    }
}

/// Payment method type
#[derive(Debug, Clone, Copy, PartialEq, Eq, Structural)]
pub enum PaymentMethodType {
    Card,
    BankAccount,
    Paypal,
}

/// Card details for creating payment method
#[derive(Debug, Clone)]
pub struct CardDetails {
    /// Card number
    pub number: String,
    /// Expiration month (1-12)
    pub exp_month: u32,
    /// Expiration year
    pub exp_year: u32,
    /// CVC
    pub cvc: String,
}

/// Billing details
#[derive(Debug, Clone)]
pub struct BillingDetails {
    pub name: Option<String>,
    pub email: Option<String>,
    pub phone: Option<String>,
    pub address: Option<Address>,
}

impl Default for BillingDetails {
    fn default() -> (r: Self)
        ensures
            r == (BillingDetails { name: None, email: None, phone: None, address: None }),
    {
        BillingDetails { name: None, email: None, phone: None, address: None }
    }
}

/// Payment method
#[derive(Debug, Clone)]
pub struct PaymentMethod {
    /// Payment method ID
    pub id: String,
    /// Type
    pub method_type: PaymentMethodType,
    /// Customer ID (if attached)
    pub customer_id: Option<String>,
    /// Card info (if card type)
    pub card: Option<CardInfo>,
    /// Billing details
    pub billing_details: Option<BillingDetails>,
    /// Created timestamp
    pub created_at: Timestamp,
}

/// Card info (masked)
#[derive(Debug, Clone)]
pub struct CardInfo {
    /// Brand (visa, mastercard, etc.)
    pub brand: String,
    /// Last 4 digits
    pub last4: String,
    /// Expiration month
    pub exp_month: u32,
    /// Expiration year
    pub exp_year: u32,
    /// Funding type
    pub funding: CardFunding,
}

/// Card funding type
#[derive(Debug, Clone, Copy, PartialEq, Eq, Structural)]
pub enum CardFunding {
    Credit,
    Debit,
    Prepaid,
    Unknown,
}

/// Create subscription request
#[derive(Debug, Clone)]
pub struct CreateSubscriptionRequest {
    /// Customer ID
    pub customer_id: String,
    /// Price/Plan ID
    pub price_id: String,
    /// Quantity
    pub quantity: Option<u32>,
    /// Trial period days
    pub trial_days: Option<u32>,
    /// Payment method ID
    pub payment_method: Option<String>,
    /// Metadata
    pub metadata: StringMap,
    /// Coupon code
    pub coupon: Option<String>,
}

impl CreateSubscriptionRequest {
    /// Create a subscription request
    pub fn new(customer_id: &str, price_id: &str) -> (r: Self)
        ensures
            r.customer_id@ == customer_id@,
            r.price_id@ == price_id@,
            r.quantity is None,
            r.trial_days is None,
            r.payment_method is None,
            r.metadata@ == Map::<Seq<char>, Seq<char>>::empty(),
            r.coupon is None,
    {
        CreateSubscriptionRequest {
            customer_id: owned(customer_id),
            price_id: owned(price_id),
            quantity: None,
            trial_days: None,
            payment_method: None,
            metadata: StringMap::new(),
            coupon: None,
        }
    }

    /// Set quantity
    pub fn quantity(self, qty: u32) -> (r: Self)
        ensures
            r == (CreateSubscriptionRequest { quantity: Some(qty), ..self }),
    {
        let mut r = self;
        r.quantity = Some(qty);
        r
    }

    /// Set trial days
    pub fn trial_days(self, days: u32) -> (r: Self)
        ensures
            r == (CreateSubscriptionRequest { trial_days: Some(days), ..self }),
    {
        let mut r = self;
        r.trial_days = Some(days);
        r
    }
}

/// Subscription
#[derive(Debug, Clone)]
pub struct Subscription {
    /// Subscription ID
    pub id: String,
    /// Customer ID, when the provider reports one. Never a placeholder empty string.
    pub customer_id: Option<String>,
    /// Status
    pub status: SubscriptionStatus,
    /// Current billing period start, when the provider reports one.
    pub current_period_start: Option<Timestamp>,
    /// Current billing period end, when the provider reports one.
    pub current_period_end: Option<Timestamp>,
    /// Trial end (if in trial)
    pub trial_end: Option<Timestamp>,
    /// Cancel at period end
    pub cancel_at_period_end: bool,
    /// Canceled at
    pub canceled_at: Option<Timestamp>,
    /// Price ID
    pub price_id: String,
    /// Quantity
    pub quantity: u32,
    /// Metadata
    pub metadata: StringMap,
    /// Created timestamp, when the provider reports one.
    pub created_at: Option<Timestamp>,
}

/// Subscription status
#[derive(Debug, Clone, Copy, PartialEq, Eq, Structural)]
pub enum SubscriptionStatus {
    Active,
    Trialing,
    PastDue,
    Canceled,
    Unpaid,
    Incomplete,
    IncompleteExpired,
    Paused,
}

impl SubscriptionStatus {
    /// Is active (can use service)
    pub fn is_active(&self) -> (r: bool)
        ensures
            r == (self is Active || self is Trialing),
    {
        match self {
            SubscriptionStatus::Active => true,
            SubscriptionStatus::Trialing => true,
            _ => false,
        }
    }

    /// Needs attention
    pub fn needs_attention(&self) -> (r: bool)
        ensures
            r == (self is PastDue || self is Incomplete || self is Unpaid),
    {
        match self {
            SubscriptionStatus::PastDue => true,
            SubscriptionStatus::Incomplete => true,
            SubscriptionStatus::Unpaid => true,
            _ => false,
        }
    }
}

/// Invoice
#[derive(Debug, Clone)]
pub struct Invoice {
    /// Invoice ID
    pub id: String,
    /// Customer ID
    pub customer_id: String,
    /// Subscription ID
    pub subscription_id: Option<String>,
    /// Status
    pub status: InvoiceStatus,
    /// Total amount
    pub total: Money,
    /// Amount paid
    pub amount_paid: Money,
    /// Amount due
    pub amount_due: Money,
    /// Invoice number
    pub number: Option<String>,
    /// PDF URL
    pub pdf_url: Option<String>,
    /// Hosted invoice URL
    pub hosted_url: Option<String>,
    /// Created timestamp
    pub created_at: Timestamp,
    /// Due date
    pub due_date: Option<Timestamp>,
}

/// Invoice status
#[derive(Debug, Clone, Copy, PartialEq, Eq, Structural)]
pub enum InvoiceStatus {
    Draft,
    Open,
    Paid,
    Void,
    Uncollectible,
}

} // verus!
