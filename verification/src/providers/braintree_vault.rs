//! Braintree's customers, payment methods and subscriptions.
use crate::clock::{self, now, reported_at, Timestamp};
use crate::error::{Fault, PaymentError, PaymentResult};
use crate::gateway::{self, settle, settle_unit, Body, BodyFields, GatewayReply, GatewayRequest, Method, RequestFields};
use crate::json::{self, no_members, object, push_opt_text, push_text, wrapped, Json, Tree};
use crate::laws;
use crate::providers::braintree::BraintreeProvider;
use crate::providers::common::{self, or_empty, with_request};
use crate::string_map::StringMap;
use crate::text::{self, concat2, concat3, owned, parse_u32, same};
use crate::types::{
    BillingDetails, CardFunding, CardInfo, CreatePaymentMethodRequest, CreateSubscriptionRequest, Customer,
    PaymentMethod, PaymentMethodType, Subscription, SubscriptionStatus,
};
use vstd::prelude::*;

verus! {

/// A Braintree customer, as the gateway reports it.
#[derive(Debug)]
pub struct BraintreeCustomer {
    pub id: String,
    pub email: Option<String>,
    pub first_name: Option<String>,
    pub last_name: Option<String>,
    pub phone: Option<String>,
    pub credit_cards: Vec<BraintreeCreditCard>,
    pub paypal_accounts: Vec<BraintreePayPalAccount>,
    pub created_at: Option<Timestamp>,
}

/// A card in a customer's vault.
#[derive(Debug)]
pub struct BraintreeCreditCard {
    pub token: String,
    pub card_type: Option<String>,
    pub last_4: Option<String>,
    pub expiration_month: Option<String>,
    pub expiration_year: Option<String>,
    pub created_at: Option<Timestamp>,
}

/// A PayPal account in a customer's vault.
#[derive(Debug)]
pub struct BraintreePayPalAccount {
    pub token: String,
    pub email: Option<String>,
    pub created_at: Option<Timestamp>,
}

/// A vaulted payment method, as the gateway reports it.
#[derive(Debug)]
pub struct BraintreePaymentMethod {
    pub token: String,
    pub customer_id: Option<String>,
    pub card_type: Option<String>,
    pub last_4: Option<String>,
    pub expiration_month: Option<u32>,
    pub expiration_year: Option<u32>,
    pub created_at: Option<Timestamp>,
}

/// A Braintree subscription, as the gateway reports it. A day is counted from the Unix epoch.
#[derive(Debug)]
pub struct BraintreeSubscription {
    pub id: String,
    pub status: String,
    pub plan_id: Option<String>,
    pub quantity: Option<u32>,
    pub billing_period_start_day: Option<i32>,
    pub billing_period_end_day: Option<i32>,
    pub created_at: Option<Timestamp>,
    /// Whether the subscription has no fixed end.
    pub never_expires: Option<bool>,
}

/// The parts of a name that were reported, with a space between them; `None` where that is empty.
pub open spec fn full_name(first: Option<Seq<char>>, last: Option<Seq<char>>) -> Option<Seq<char>> {
    let joined = match (first, last) {
        (Some(f), Some(l)) => f + " "@ + l,
        (Some(f), None) => f,
        (None, Some(l)) => l,
        (None, None) => Seq::empty(),
    };
    if joined.len() == 0 {
        None
    } else {
        Some(joined)
    }
}

/// Whether `c` is the customer that the gateway reports.
pub open spec fn is_customer(c: Customer, cust: BraintreeCustomer, metadata: StringMap, now: Timestamp) -> bool {
    &&& c == (Customer {
        id: cust.id,
        email: cust.email,
        name: c.name,
        phone: cust.phone,
        description: None,
        default_payment_method: None,
        address: None,
        metadata,
        created_at: clock::reported_or(cust.created_at, now),
    })
    &&& text::opt_text(c.name) == full_name(text::opt_text(cust.first_name), text::opt_text(cust.last_name))
}

/// Whether `r` is what a reply about a customer says.
pub open spec fn customer_outcome(
    reply: GatewayReply,
    decoded: Result<BraintreeCustomer, String>,
    not_found: Option<Fault>,
    metadata: StringMap,
    now: Timestamp,
    r: PaymentResult<Customer>,
) -> bool {
    match gateway::settled("braintree"@, reply, decoded, not_found) {
        Ok(cust) => r matches Ok(c) && is_customer(c, cust, metadata, now),
        Err(fault) => r matches Err(e) && e@ == fault,
    }
}

impl BraintreeCustomer {
    /// The customer that the gateway reports, at `now`.
    pub fn into_customer(self, metadata: StringMap, now: Timestamp) -> (r: Customer)
        ensures
            is_customer(r, self, metadata, now),
    {
        let name = match (&self.first_name, &self.last_name) {
            (Some(f), Some(l)) => concat3(f, " ", l),
            (Some(f), None) => f.clone(),
            (None, Some(l)) => l.clone(),
            (None, None) => String::new(),
        };
        let shown = if name.as_str().unicode_len() == 0 {
            None
        } else {
            Some(name)
        };
        Customer {
            id: self.id,
            email: self.email,
            name: shown,
            phone: self.phone,
            description: None,
            default_payment_method: None,
            address: None,
            metadata,
            created_at: reported_at(self.created_at, now),
        }
    }
}

/// What a reply about a customer says, received at `now`.
pub fn customer_result_at(
    reply: &GatewayReply,
    decoded: Result<BraintreeCustomer, String>,
    not_found: Option<PaymentError>,
    metadata: StringMap,
    now: Timestamp,
) -> (r: PaymentResult<Customer>)
    ensures
        customer_outcome(*reply, decoded, gateway::opt_fault(not_found), metadata, now, r),
{
    match settle("braintree", reply, decoded, not_found) {
        Ok(cust) => Ok(cust.into_customer(metadata, now)),
        Err(e) => Err(e),
    }
}

/// The number that a text denotes, or zero.
pub open spec fn number_or_zero(o: Option<String>) -> int {
    match o {
        Some(s) => match text::parsed_int(s@, 0, u32::MAX as int) {
            Some(n) => n,
            None => 0,
        },
        None => 0,
    }
}

fn number_in(o: &Option<String>) -> (r: u32)
    ensures
        r == number_or_zero(*o),
{
    match o {
        Some(s) => match parse_u32(s) {
            Some(n) => n,
            None => 0,
        },
        None => 0,
    }
}

/// Whether `m` is the payment method that a vaulted card is.
pub open spec fn is_card_method(
    m: PaymentMethod,
    card: BraintreeCreditCard,
    customer_id: Seq<char>,
    now: Timestamp,
) -> bool {
    &&& m.id == card.token
    &&& m.method_type == PaymentMethodType::Card
    &&& text::opt_text(m.customer_id) == Some(customer_id)
    &&& m.card matches Some(info) && {
        &&& info.brand@ == common::text_or_empty(card.card_type)
        &&& info.last4@ == common::text_or_empty(card.last_4)
        &&& info.exp_month == number_or_zero(card.expiration_month)
        &&& info.exp_year == number_or_zero(card.expiration_year)
        &&& info.funding == CardFunding::Unknown
    }
    &&& m.billing_details is None
    &&& m.created_at == clock::reported_or(card.created_at, now)
}

/// Whether `m` is the payment method that a vaulted PayPal account is.
pub open spec fn is_account_method(
    m: PaymentMethod,
    account: BraintreePayPalAccount,
    customer_id: Seq<char>,
    now: Timestamp,
) -> bool {
    &&& m.id == account.token
    &&& m.method_type == PaymentMethodType::Paypal
    &&& text::opt_text(m.customer_id) == Some(customer_id)
    &&& m.card is None
    &&& m.billing_details == (match account.email {
        Some(email) => Some(BillingDetails { name: None, email: Some(email), phone: None, address: None }),
        None => None,
    })
    &&& m.created_at == clock::reported_or(account.created_at, now)
}

/// Whether `methods` are the payment methods in a customer's vault: its cards, then its PayPal
/// accounts, each once and in order.
pub open spec fn is_vault(
    methods: Seq<PaymentMethod>,
    cust: BraintreeCustomer,
    customer_id: Seq<char>,
    now: Timestamp,
) -> bool {
    let cards = cust.credit_cards@;
    let accounts = cust.paypal_accounts@;
    &&& methods.len() == cards.len() + accounts.len()
    &&& forall|i: int| 0 <= i < cards.len() ==> is_card_method(#[trigger] methods[i], cards[i], customer_id, now)
    &&& forall|i: int|
        cards.len() <= i < methods.len() ==> is_account_method(
            #[trigger] methods[i],
            accounts[i - cards.len()],
            customer_id,
            now,
        )
}

fn card_method(card: BraintreeCreditCard, customer_id: &str, now: Timestamp) -> (r: PaymentMethod)
    ensures
        is_card_method(r, card, customer_id@, now),
{
    let exp_month: u32 = number_in(&card.expiration_month);
    let exp_year: u32 = number_in(&card.expiration_year);
    PaymentMethod {
        id: card.token,
        method_type: PaymentMethodType::Card,
        customer_id: Some(owned(customer_id)),
        card: Some(
            CardInfo {
                brand: or_empty(card.card_type),
                last4: or_empty(card.last_4),
                exp_month,
                exp_year,
                funding: CardFunding::Unknown,
            },
        ),
        billing_details: None,
        created_at: reported_at(card.created_at, now),
    }
}

fn account_method(account: BraintreePayPalAccount, customer_id: &str, now: Timestamp) -> (r: PaymentMethod)
    ensures
        is_account_method(r, account, customer_id@, now),
{
    let billing_details = match account.email {
        Some(email) => Some(BillingDetails { name: None, email: Some(email), phone: None, address: None }),
        None => None,
    };
    PaymentMethod {
        id: account.token,
        method_type: PaymentMethodType::Paypal,
        customer_id: Some(owned(customer_id)),
        card: None,
        billing_details,
        created_at: reported_at(account.created_at, now),
    }
}

/// The payment methods in a customer's vault, at `now`.
pub fn vaulted_methods(cust: BraintreeCustomer, customer_id: &str, now: Timestamp) -> (r: Vec<PaymentMethod>)
    ensures
        is_vault(r@, cust, customer_id@, now),
{
    let ghost cards = cust.credit_cards@;
    let ghost accounts = cust.paypal_accounts@;
    let mut methods: Vec<PaymentMethod> = Vec::new();
    let credit_cards = cust.credit_cards;
    for card in it: credit_cards
        invariant
            it.seq() == cards,
            methods@.len() == it.index(),
            forall|i: int| 0 <= i < methods@.len() ==> is_card_method(#[trigger] methods@[i], cards[i], customer_id@, now),
    {
        methods.push(card_method(card, customer_id, now));
    }
    let paypal_accounts = cust.paypal_accounts;
    for account in it: paypal_accounts
        invariant
            it.seq() == accounts,
            methods@.len() == cards.len() + it.index(),
            forall|i: int| 0 <= i < cards.len() ==> is_card_method(#[trigger] methods@[i], cards[i], customer_id@, now),
            forall|i: int|
                cards.len() <= i < methods@.len() ==> is_account_method(
                    #[trigger] methods@[i],
                    accounts[i - cards.len()],
                    customer_id@,
                    now,
                ),
    {
        methods.push(account_method(account, customer_id, now));
    }
    methods
}

/// Whether `r` is what a reply says of the payment methods of a customer.
pub open spec fn vault_outcome(
    customer_id: Seq<char>,
    reply: GatewayReply,
    decoded: Result<BraintreeCustomer, String>,
    now: Timestamp,
    r: PaymentResult<Vec<PaymentMethod>>,
) -> bool {
    match gateway::settled("braintree"@, reply, decoded, Some(Fault::CustomerNotFound(customer_id))) {
        Ok(cust) => r matches Ok(methods) && is_vault(methods@, cust, customer_id, now),
        Err(fault) => r matches Err(e) && e@ == fault,
    }
}

/// Whether `m` is the payment method that the gateway created.
pub open spec fn is_created_method(m: PaymentMethod, pm: BraintreePaymentMethod, now: Timestamp) -> bool {
    &&& m.id == pm.token
    &&& m.method_type == PaymentMethodType::Card
    &&& m.customer_id == pm.customer_id
    &&& match pm.card_type {
        Some(brand) => m.card matches Some(info) && {
            &&& info.brand == brand
            &&& info.last4@ == common::text_or_empty(pm.last_4)
            &&& info.exp_month == (match pm.expiration_month {
                Some(n) => n,
                None => 0,
            })
            &&& info.exp_year == (match pm.expiration_year {
                Some(n) => n,
                None => 0,
            })
            &&& info.funding == CardFunding::Unknown
        },
        None => m.card is None,
    }
    &&& m.billing_details is None
    &&& m.created_at == clock::reported_or(pm.created_at, now)
}

/// Whether `r` is what the reply to the creation of a payment method says.
pub open spec fn created_method_outcome(
    reply: GatewayReply,
    decoded: Result<BraintreePaymentMethod, String>,
    now: Timestamp,
    r: PaymentResult<PaymentMethod>,
) -> bool {
    match gateway::settled("braintree"@, reply, decoded, None) {
        Ok(pm) => r matches Ok(m) && is_created_method(m, pm, now),
        Err(fault) => r matches Err(e) && e@ == fault,
    }
}

/// What the reply to the creation of a payment method says, received at `now`.
pub fn created_method_result_at(
    reply: &GatewayReply,
    decoded: Result<BraintreePaymentMethod, String>,
    now: Timestamp,
) -> (r: PaymentResult<PaymentMethod>)
    ensures
        created_method_outcome(*reply, decoded, now, r),
{
    let pm = match settle("braintree", reply, decoded, None) {
        Ok(pm) => pm,
        Err(e) => return Err(e),
    };
    let card = match pm.card_type {
        Some(brand) => Some(
            CardInfo {
                brand,
                last4: or_empty(pm.last_4),
                exp_month: match pm.expiration_month {
                    Some(n) => n,
                    None => 0,
                },
                exp_year: match pm.expiration_year {
                    Some(n) => n,
                    None => 0,
                },
                funding: CardFunding::Unknown,
            },
        ),
        None => None,
    };
    Ok(
        PaymentMethod {
            id: pm.token,
            method_type: PaymentMethodType::Card,
            customer_id: pm.customer_id,
            card,
            billing_details: None,
            created_at: reported_at(pm.created_at, now),
        },
    )
}

/// What the reply to the attachment of a payment method says.
pub open spec fn attached_method_outcome(
    method_id: Seq<char>,
    reply: GatewayReply,
    decoded: Result<BraintreePaymentMethod, String>,
    now: Timestamp,
) -> Result<PaymentMethod, Fault> {
    match gateway::settled("braintree"@, reply, decoded, Some(Fault::PaymentMethodNotFound(method_id))) {
        Ok(pm) => Ok(
            PaymentMethod {
                id: pm.token,
                method_type: PaymentMethodType::Card,
                customer_id: pm.customer_id,
                card: None,
                billing_details: None,
                created_at: clock::reported_or(pm.created_at, now),
            },
        ),
        Err(fault) => Err(fault),
    }
}

/// What the reply to the attachment of a payment method says, received at `now`.
pub fn attached_method_result_at(
    method_id: &str,
    reply: &GatewayReply,
    decoded: Result<BraintreePaymentMethod, String>,
    now: Timestamp,
) -> (r: PaymentResult<PaymentMethod>)
    ensures
        gateway::outcome(r) == attached_method_outcome(method_id@, *reply, decoded, now),
{
    let not_found = PaymentError::PaymentMethodNotFound(owned(method_id));
    match settle("braintree", reply, decoded, Some(not_found)) {
        Ok(pm) => Ok(
            PaymentMethod {
                id: pm.token,
                method_type: PaymentMethodType::Card,
                customer_id: pm.customer_id,
                card: None,
                billing_details: None,
                created_at: reported_at(pm.created_at, now),
            },
        ),
        Err(e) => Err(e),
    }
}

/// Whether `r` is what the reply to the removal of a payment method says.
pub open spec fn detached_method_outcome(
    method_id: Seq<char>,
    reply: GatewayReply,
    now: Timestamp,
    r: PaymentResult<PaymentMethod>,
) -> bool {
    if reply.succeeded() {
        r matches Ok(m) && {
            &&& m.id@ == method_id
            &&& m.method_type == PaymentMethodType::Card
            &&& m.customer_id is None
            &&& m.card is None
            &&& m.billing_details is None
            &&& m.created_at == now
        }
    } else {
        r matches Err(e) && e@ == gateway::reply_fault(
            "braintree"@,
            reply,
            Some(Fault::PaymentMethodNotFound(method_id)),
        )
    }
}

/// What the reply to the removal of a payment method says, received at `now`.
pub fn detached_method_result_at(method_id: &str, reply: &GatewayReply, now: Timestamp) -> (r: PaymentResult<
    PaymentMethod,
>)
    ensures
        detached_method_outcome(method_id@, *reply, now, r),
{
    match settle_unit("braintree", reply, Some(PaymentError::PaymentMethodNotFound(owned(method_id)))) {
        Ok(()) => Ok(
            PaymentMethod {
                id: owned(method_id),
                method_type: PaymentMethodType::Card,
                customer_id: None,
                card: None,
                billing_details: None,
                created_at: now,
            },
        ),
        Err(e) => Err(e),
    }
}

/// The subscription status that the gateway's status stands for.
pub open spec fn subscription_status(status: Seq<char>) -> SubscriptionStatus {
    if status == "Active"@ {
        SubscriptionStatus::Active
    } else if status == "Canceled"@ {
        SubscriptionStatus::Canceled
    } else if status == "Past Due"@ {
        SubscriptionStatus::PastDue
    } else if status == "Pending"@ {
        SubscriptionStatus::Incomplete
    } else if status == "Expired"@ {
        SubscriptionStatus::Canceled
    } else {
        SubscriptionStatus::Active
    }
}

/// The instant a given number of seconds into a day.
pub open spec fn within_day(day: Option<i32>, seconds: int) -> Option<Timestamp> {
    match day {
        Some(d) => Some(Timestamp { secs: (d * 86_400 + seconds) as i64, nanos: 0 }),
        None => None,
    }
}

/// Whether `s` is the subscription that the gateway reports. What it does not report stays absent.
pub open spec fn is_subscription(s: Subscription, sub: BraintreeSubscription) -> bool {
    &&& s.id == sub.id
    &&& s.customer_id is None
    &&& s.status == subscription_status(sub.status@)
    &&& s.current_period_start == within_day(sub.billing_period_start_day, 0)
    &&& s.current_period_end == within_day(sub.billing_period_end_day, 86_399)
    &&& s.trial_end is None
    &&& s.cancel_at_period_end == (sub.never_expires == Some(false))
    &&& s.canceled_at is None
    &&& s.price_id@ == common::text_or_empty(sub.plan_id)
    &&& s.quantity == (match sub.quantity {
        Some(n) => n,
        None => 1,
    })
    &&& s.metadata@ == Map::<Seq<char>, Seq<char>>::empty()
    &&& s.created_at == sub.created_at
}

fn instant_in_day(day: Option<i32>, seconds: i64) -> (r: Option<Timestamp>)
    requires
        0 <= seconds < 86_400,
    ensures
        r == within_day(day, seconds as int),
{
    match day {
        Some(d) => Some(Timestamp { secs: d as i64 * 86_400 + seconds, nanos: 0 }),
        None => None,
    }
}

impl BraintreeSubscription {
    /// The subscription that the gateway reports.
    pub fn into_subscription(self) -> (r: Subscription)
        ensures
            is_subscription(r, self),
            r.status is Canceled <==> self.status@ == "Canceled"@ || self.status@ == "Expired"@,
            r.status is PastDue <==> self.status@ == "Past Due"@,
            r.status is Incomplete <==> self.status@ == "Pending"@,
    {
        proof {
            laws::braintree::statuses_are_read_as_named(self.status@);
        }
        let status = if same(&self.status, "Active") {
            SubscriptionStatus::Active
        } else if same(&self.status, "Canceled") {
            SubscriptionStatus::Canceled
        } else if same(&self.status, "Past Due") {
            SubscriptionStatus::PastDue
        } else if same(&self.status, "Pending") {
            SubscriptionStatus::Incomplete
        } else if same(&self.status, "Expired") {
            SubscriptionStatus::Canceled
        } else {
            SubscriptionStatus::Active
        };
        let cancel_at_period_end: bool = match self.never_expires {
            Some(never) => !never,
            None => false,
        };
        Subscription {
            id: self.id,
            customer_id: None,
            status,
            current_period_start: instant_in_day(self.billing_period_start_day, 0),
            current_period_end: instant_in_day(self.billing_period_end_day, 86_399),
            trial_end: None,
            cancel_at_period_end,
            canceled_at: None,
            price_id: or_empty(self.plan_id),
            quantity: match self.quantity {
                Some(n) => n,
                None => 1,
            },
            metadata: StringMap::new(),
            created_at: self.created_at,
        }
    }
}

/// Whether `r` is what a reply about a subscription says.
pub open spec fn subscription_outcome(
    reply: GatewayReply,
    decoded: Result<BraintreeSubscription, String>,
    not_found: Option<Fault>,
    r: PaymentResult<Subscription>,
) -> bool {
    match gateway::settled("braintree"@, reply, decoded, not_found) {
        Ok(sub) => r matches Ok(s) && is_subscription(s, sub),
        Err(fault) => r matches Err(e) && e@ == fault,
    }
}

/// The payment-method document of a request.
pub open spec fn method_tree(customer_id: Option<Seq<char>>, nonce: Option<Seq<char>>) -> Tree {
    Tree::Object(
        seq![
            (
                "payment_method"@,
                Tree::Object(
                    json::opt_member("customer_id"@, customer_id) + json::opt_member("payment_method_nonce"@, nonce),
                ),
            ),
        ],
    )
}

fn method_body(customer_id: &Option<String>, nonce: &Option<String>) -> (r: Json)
    ensures
        r.tree() == method_tree(text::opt_text(*customer_id), text::opt_text(*nonce)),
{
    let mut members = no_members();
    push_opt_text(&mut members, "customer_id", customer_id);
    proof {
        assert(json::member_trees(members@) =~= json::opt_member("customer_id"@, text::opt_text(*customer_id)));
    }
    push_opt_text(&mut members, "payment_method_nonce", nonce);
    wrapped("payment_method", object(members))
}

/// The subscription document of a request.
pub open spec fn plan_tree(plan_id: Seq<char>, payment_method_token: Option<Seq<char>>) -> Tree {
    Tree::Object(
        seq![
            (
                "subscription"@,
                Tree::Object(
                    seq![("plan_id"@, Tree::Text(plan_id))] + json::opt_member(
                        "payment_method_token"@,
                        payment_method_token,
                    ),
                ),
            ),
        ],
    )
}

fn plan_body(plan_id: &str, payment_method_token: &Option<String>) -> (r: Json)
    ensures
        r.tree() == plan_tree(plan_id@, text::opt_text(*payment_method_token)),
{
    let mut members = no_members();
    push_text(&mut members, "plan_id", plan_id);
    proof {
        assert(json::member_trees(members@) =~= seq![("plan_id"@, Tree::Text(plan_id@))]);
    }
    push_opt_text(&mut members, "payment_method_token", payment_method_token);
    wrapped("subscription", object(members))
}

impl BraintreeProvider {
    /// What the reply to the creation of a customer says.
    pub fn create_customer_result(
        &self,
        metadata: StringMap,
        reply: &GatewayReply,
        decoded: Result<BraintreeCustomer, String>,
    ) -> (r: PaymentResult<Customer>)
        ensures
            exists|now: Timestamp|
                #[trigger] clock::can_be_now(now) && customer_outcome(*reply, decoded, None, metadata, now, r),
    {
        customer_result_at(reply, decoded, None, metadata, now())
    }

    /// What the reply about an existing customer says. The gateway holds no metadata, so the
    /// customer carries the given metadata.
    pub fn customer_result(
        &self,
        id: &str,
        metadata: StringMap,
        reply: &GatewayReply,
        decoded: Result<BraintreeCustomer, String>,
    ) -> (r: PaymentResult<Customer>)
        ensures
            exists|now: Timestamp|
                #[trigger] clock::can_be_now(now) && customer_outcome(*reply, decoded, Some(Fault::CustomerNotFound(id@)), metadata, now, r),
    {
        customer_result_at(reply, decoded, Some(PaymentError::CustomerNotFound(owned(id))), metadata, now())
    }

    /// What a reply says of the payment methods of a customer.
    pub fn list_payment_methods_result(
        &self,
        customer_id: &str,
        reply: &GatewayReply,
        decoded: Result<BraintreeCustomer, String>,
    ) -> (r: PaymentResult<Vec<PaymentMethod>>)
        ensures
            exists|now: Timestamp|
                #[trigger] clock::can_be_now(now) && vault_outcome(customer_id@, *reply, decoded, now, r),
    {
        let current = now();
        let not_found = PaymentError::CustomerNotFound(owned(customer_id));
        let r = match settle("braintree", reply, decoded, Some(not_found)) {
            Ok(cust) => Ok(vaulted_methods(cust, customer_id, current)),
            Err(e) => Err(e),
        };
        proof {
            assert(vault_outcome(customer_id@, *reply, decoded, current, r));
        }
        r
    }

    /// The request that vaults a payment method. Braintree takes only a nonce that was made by its
    /// client-side tools.
    pub fn create_payment_method_request(&self, request: &CreatePaymentMethodRequest) -> (r: PaymentResult<
        GatewayRequest,
    >)
        ensures
            match request.payment_method_nonce {
                Some(nonce) => r matches Ok(q) && q@ == (RequestFields {
                    method: Method::Post,
                    path: "/payment_methods"@,
                    dedup: None,
                    body: BodyFields::Json(method_tree(None, Some(nonce@))),
                }),
                None => r matches Err(e) && e@ == Fault::Validation(
                    "Braintree requires a client-generated payment method nonce; collect one with the Braintree client SDK and set CreatePaymentMethodRequest::payment_method_nonce. Raw card details cannot be sent to Braintree's server API."@,
                ),
            },
    {
        match &request.payment_method_nonce {
            Some(nonce) => {
                let body = method_body(&None, &Some(nonce.clone()));
                Ok(GatewayRequest::plain(Method::Post, owned("/payment_methods"), Body::Json(body)))
            },
            None => Err(
                PaymentError::Validation(
                    owned(
                        "Braintree requires a client-generated payment method nonce; collect one with the Braintree client SDK and set CreatePaymentMethodRequest::payment_method_nonce. Raw card details cannot be sent to Braintree's server API.",
                    ),
                ),
            ),
        }
    }

    /// What the reply to the creation of a payment method says.
    pub fn create_payment_method_result(
        &self,
        reply: &GatewayReply,
        decoded: Result<BraintreePaymentMethod, String>,
    ) -> (r: PaymentResult<PaymentMethod>)
        ensures
            exists|now: Timestamp| #[trigger] clock::can_be_now(now) && created_method_outcome(*reply, decoded, now, r),
    {
        created_method_result_at(reply, decoded, now())
    }

    /// The request that attaches a payment method to a customer.
    pub fn attach_payment_method_request(&self, method_id: &str, customer_id: &str) -> (r: GatewayRequest)
        ensures
            r@ == (RequestFields {
                method: Method::Put,
                path: "/payment_methods/any/"@ + method_id@,
                dedup: None,
                body: BodyFields::Json(method_tree(Some(customer_id@), None)),
            }),
    {
        let body = method_body(&Some(owned(customer_id)), &None);
        GatewayRequest::plain(Method::Put, concat2("/payment_methods/any/", method_id), Body::Json(body))
    }

    /// What the reply to the attachment of a payment method says.
    pub fn attach_payment_method_result(
        &self,
        method_id: &str,
        reply: &GatewayReply,
        decoded: Result<BraintreePaymentMethod, String>,
    ) -> (r: PaymentResult<PaymentMethod>)
        ensures
            exists|now: Timestamp|
                #[trigger] clock::can_be_now(now) && gateway::outcome(r) == attached_method_outcome(method_id@, *reply, decoded, now),
    {
        attached_method_result_at(method_id, reply, decoded, now())
    }

    /// The request that removes a payment method.
    pub fn detach_payment_method_request(&self, method_id: &str) -> (r: GatewayRequest)
        ensures
            r@ == (RequestFields {
                method: Method::Delete,
                path: "/payment_methods/any/"@ + method_id@,
                dedup: None,
                body: BodyFields::Empty,
            }),
    {
        GatewayRequest::plain(Method::Delete, concat2("/payment_methods/any/", method_id), Body::Empty)
    }

    /// What the reply to the removal of a payment method says.
    pub fn detach_payment_method_result(&self, method_id: &str, reply: &GatewayReply) -> (r: PaymentResult<
        PaymentMethod,
    >)
        ensures
            exists|now: Timestamp|
                #[trigger] clock::can_be_now(now) && detached_method_outcome(method_id@, *reply, now, r),
    {
        detached_method_result_at(method_id, reply, now())
    }

    /// The request that creates a subscription.
    pub fn create_subscription_request(&self, request: &CreateSubscriptionRequest) -> (r: GatewayRequest)
        ensures
            r@ == (RequestFields {
                method: Method::Post,
                path: "/subscriptions"@,
                dedup: None,
                body: BodyFields::Json(plan_tree(request.price_id@, text::opt_text(request.payment_method))),
            }),
    {
        let body = plan_body(&request.price_id, &request.payment_method);
        GatewayRequest::plain(Method::Post, owned("/subscriptions"), Body::Json(body))
    }

    /// What the reply to the creation of a subscription says.
    pub fn create_subscription_result(
        &self,
        request: CreateSubscriptionRequest,
        reply: &GatewayReply,
        decoded: Result<BraintreeSubscription, String>,
    ) -> (r: PaymentResult<Subscription>)
        ensures
            match gateway::settled("braintree"@, *reply, decoded, None) {
                Ok(sub) => r matches Ok(s) && exists|base: Subscription| #[trigger]
                    is_subscription(base, sub) && common::is_requested(s, base, request),
                Err(fault) => r matches Err(e) && e@ == fault,
            },
    {
        match settle("braintree", reply, decoded, None) {
            Ok(sub) => {
                let base = sub.into_subscription();
                let ghost b = base;
                let s = with_request(base, request);
                proof {
                    assert(is_subscription(b, sub) && common::is_requested(s, b, request));
                }
                Ok(s)
            },
            Err(e) => Err(e),
        }
    }

    /// The request that reads a subscription.
    pub fn get_subscription_request(&self, id: &str) -> (r: GatewayRequest)
        ensures
            r@ == (RequestFields {
                method: Method::Get,
                path: "/subscriptions/"@ + id@,
                dedup: None,
                body: BodyFields::Empty,
            }),
    {
        GatewayRequest::plain(Method::Get, concat2("/subscriptions/", id), Body::Empty)
    }

    /// The request that moves a subscription to another plan.
    pub fn update_subscription_request(&self, id: &str, price_id: &str) -> (r: GatewayRequest)
        ensures
            r@ == (RequestFields {
                method: Method::Put,
                path: "/subscriptions/"@ + id@,
                dedup: None,
                body: BodyFields::Json(plan_tree(price_id@, None)),
            }),
    {
        let body = plan_body(price_id, &None);
        GatewayRequest::plain(Method::Put, concat2("/subscriptions/", id), Body::Json(body))
    }

    /// The request that cancels a subscription. Braintree cancels at once or not at all.
    pub fn cancel_subscription_request(&self, id: &str, immediate: bool) -> (r: PaymentResult<GatewayRequest>)
        ensures
            if immediate {
                r matches Ok(q) && q@ == (RequestFields {
                    method: Method::Put,
                    path: "/subscriptions/"@ + id@ + "/cancel"@,
                    dedup: None,
                    body: BodyFields::Empty,
                })
            } else {
                r matches Err(e) && e@ == Fault::Unsupported(
                    "Braintree cannot schedule subscription "@ + id@
                        + " to cancel at period end; its cancel endpoint terminates immediately. Let the current term lapse by setting the subscription's number of billing cycles, or call this with immediate = true if that is what you want."@,
                )
            },
    {
        if !immediate {
            return Err(
                PaymentError::Unsupported(
                    concat3(
                        "Braintree cannot schedule subscription ",
                        id,
                        " to cancel at period end; its cancel endpoint terminates immediately. Let the current term lapse by setting the subscription's number of billing cycles, or call this with immediate = true if that is what you want.",
                    ),
                ),
            );
        }
        Ok(GatewayRequest::plain(Method::Put, concat3("/subscriptions/", id, "/cancel"), Body::Empty))
    }

    /// Braintree has no resume endpoint.
    pub fn resume_subscription_request(&self) -> (r: PaymentResult<GatewayRequest>)
        ensures
            r matches Err(e) && e@ == Fault::Unsupported(
                "Braintree has no resume endpoint: a canceled subscription is terminal and cannot be reactivated. Create a new subscription instead."@,
            ),
    {
        Err(
            PaymentError::Unsupported(
                owned(
                    "Braintree has no resume endpoint: a canceled subscription is terminal and cannot be reactivated. Create a new subscription instead.",
                ),
            ),
        )
    }

    /// What the reply about an existing subscription says.
    pub fn subscription_result(
        &self,
        id: &str,
        reply: &GatewayReply,
        decoded: Result<BraintreeSubscription, String>,
    ) -> (r: PaymentResult<Subscription>)
        ensures
            subscription_outcome(*reply, decoded, Some(Fault::SubscriptionNotFound(id@)), r),
    {
        match settle("braintree", reply, decoded, Some(PaymentError::SubscriptionNotFound(owned(id)))) {
            Ok(sub) => Ok(sub.into_subscription()),
            Err(e) => Err(e),
        }
    }
}

} // verus!
