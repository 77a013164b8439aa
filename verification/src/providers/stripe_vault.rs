//! Stripe's customers, payment methods and subscriptions.
use crate::clock::{self, now, timestamp_opt, timestamp_or, Timestamp};
use crate::error::{Fault, PaymentError, PaymentResult};
use crate::gateway::{self, Body, BodyFields, GatewayRequest, Method, RequestFields};
use crate::laws;
use crate::providers::stripe::{self, put_field, stripe_settle, StripeProvider, StripeReply};
use crate::string_map::StringMap;
use crate::text::{self, concat2, concat3, owned, same, unsigned_text};
use crate::types::{
    CardFunding, CardInfo, CreateCustomerRequest, CreatePaymentMethodRequest, CreateSubscriptionRequest, Customer,
    PaymentMethod, PaymentMethodType, Subscription, SubscriptionStatus, UpdateCustomerRequest,
};
use vstd::prelude::*;

verus! {

/// Pages a list walk will follow before giving up. Objects come a hundred to a page, so this still
/// covers far more payment methods than any real customer has.
pub const MAX_LIST_PAGES: usize = 20;

/// A Stripe customer, as the gateway reports it.
#[derive(Debug)]
pub struct StripeCustomer {
    pub id: String,
    pub email: Option<String>,
    pub name: Option<String>,
    pub phone: Option<String>,
    pub description: Option<String>,
    pub default_source: Option<String>,
    pub created: i64,
    pub metadata: StringMap,
}

impl StripeCustomer {
    /// The customer that the gateway reports, read at `now`.
    pub open spec fn projected(self, now: Timestamp) -> Customer {
        Customer {
            id: self.id,
            email: self.email,
            name: self.name,
            phone: self.phone,
            description: self.description,
            default_payment_method: self.default_source,
            address: None,
            metadata: self.metadata,
            created_at: clock::instant_or(self.created, now),
        }
    }

    /// The customer that the gateway reports, read at `now`.
    pub fn into_customer(self, now: Timestamp) -> (r: Customer)
        ensures
            r == self.projected(now),
    {
        Customer {
            id: self.id,
            email: self.email,
            name: self.name,
            phone: self.phone,
            description: self.description,
            default_payment_method: self.default_source,
            address: None,
            metadata: self.metadata,
            created_at: timestamp_or(self.created, now),
        }
    }
}

/// A Stripe payment method, as the gateway reports it.
#[derive(Debug)]
pub struct StripePaymentMethod {
    pub id: String,
    pub customer: Option<String>,
    pub card: Option<StripeCard>,
    pub created: i64,
}

/// The card of a payment method.
#[derive(Debug)]
pub struct StripeCard {
    pub brand: String,
    pub last4: String,
    pub exp_month: u32,
    pub exp_year: u32,
    pub funding: String,
}

/// The funding that a text names.
pub open spec fn funding_named(funding: Seq<char>) -> CardFunding {
    if funding == "credit"@ {
        CardFunding::Credit
    } else if funding == "debit"@ {
        CardFunding::Debit
    } else if funding == "prepaid"@ {
        CardFunding::Prepaid
    } else {
        CardFunding::Unknown
    }
}

/// The card that the gateway reports.
pub open spec fn card_of(card: Option<StripeCard>) -> Option<CardInfo> {
    match card {
        Some(c) => Some(
            CardInfo {
                brand: c.brand,
                last4: c.last4,
                exp_month: c.exp_month,
                exp_year: c.exp_year,
                funding: funding_named(c.funding@),
            },
        ),
        None => None,
    }
}

impl StripePaymentMethod {
    /// The payment method that the gateway reports, read at `now`.
    pub open spec fn projected(self, now: Timestamp) -> PaymentMethod {
        PaymentMethod {
            id: self.id,
            method_type: PaymentMethodType::Card,
            customer_id: self.customer,
            card: card_of(self.card),
            billing_details: None,
            created_at: clock::instant_or(self.created, now),
        }
    }

    /// The payment method that the gateway reports, read at `now`.
    pub fn into_method(self, now: Timestamp) -> (r: PaymentMethod)
        ensures
            r == self.projected(now),
            r.card is Some <==> self.card is Some,
            self.card matches Some(sent) ==> (r.card matches Some(card) && {
                &&& card.funding is Credit <==> sent.funding@ == "credit"@
                &&& card.funding is Debit <==> sent.funding@ == "debit"@
                &&& card.funding is Prepaid <==> sent.funding@ == "prepaid"@
            }),
    {
        proof {
            if self.card is Some {
                laws::stripe::card_is_read_as_named(self.card->0);
            }
        }
        let card = match self.card {
            Some(c) => {
                let funding = if same(&c.funding, "credit") {
                    CardFunding::Credit
                } else if same(&c.funding, "debit") {
                    CardFunding::Debit
                } else if same(&c.funding, "prepaid") {
                    CardFunding::Prepaid
                } else {
                    CardFunding::Unknown
                };
                Some(
                    CardInfo { brand: c.brand, last4: c.last4, exp_month: c.exp_month, exp_year: c.exp_year, funding },
                )
            },
            None => None,
        };
        PaymentMethod {
            id: self.id,
            method_type: PaymentMethodType::Card,
            customer_id: self.customer,
            card,
            billing_details: None,
            created_at: timestamp_or(self.created, now),
        }
    }
}

/// One page of a list of payment methods.
#[derive(Debug)]
pub struct StripeMethodPage {
    pub data: Vec<StripePaymentMethod>,
    /// Whether there are more objects behind this page.
    pub has_more: bool,
}

/// The payment methods on a page, read at `now`.
pub open spec fn methods_on(data: Seq<StripePaymentMethod>, now: Timestamp) -> Seq<PaymentMethod> {
    data.map_values(|m: StripePaymentMethod| m.projected(now))
}

/// Whether a walk goes on behind a page that is the `pages`-th.
pub open spec fn goes_on(page: StripeMethodPage, pages: int) -> bool {
    page.has_more && page.data@.len() > 0 && pages < MAX_LIST_PAGES
}

/// A walk over the pages of a customer's payment methods.
pub struct MethodWalk {
    customer_id: String,
    methods: Vec<PaymentMethod>,
    cursor: Option<String>,
    pages: usize,
}

/// How far a walk has come.
pub struct WalkFields {
    pub customer_id: Seq<char>,
    /// The methods found so far.
    pub methods: Seq<PaymentMethod>,
    /// The id of the last object found, behind which the next page begins.
    pub cursor: Option<Seq<char>>,
    /// The pages seen so far.
    pub pages: int,
}

impl View for MethodWalk {
    type V = WalkFields;

    closed spec fn view(&self) -> WalkFields {
        WalkFields {
            customer_id: self.customer_id@,
            methods: self.methods@,
            cursor: text::opt_text(self.cursor),
            pages: self.pages as int,
        }
    }
}

/// What comes after a page.
pub enum WalkStep {
    /// Ask for another page.
    More(MethodWalk),
    /// These are the customer's payment methods.
    Done(Vec<PaymentMethod>),
}

/// Whether `step` is what comes after `page` on a walk that has come so far, received at `now`.
pub open spec fn is_step(step: WalkStep, walk: WalkFields, page: StripeMethodPage, now: Timestamp) -> bool {
    match step {
        WalkStep::More(next) => goes_on(page, walk.pages + 1) && next@ == (WalkFields {
            customer_id: walk.customer_id,
            methods: walk.methods + methods_on(page.data@, now),
            cursor: Some(page.data@.last().id@),
            pages: walk.pages + 1,
        }),
        WalkStep::Done(methods) => !goes_on(page, walk.pages + 1) && methods@ == walk.methods + methods_on(
            page.data@,
            now,
        ),
    }
}

/// The path of the next page of a walk.
pub open spec fn page_path(customer_id: Seq<char>, cursor: Option<Seq<char>>) -> Seq<char> {
    let first = "/payment_methods?customer="@ + customer_id + "&type=card&limit=100"@;
    match cursor {
        Some(id) => first + "&starting_after="@ + id,
        None => first,
    }
}

impl MethodWalk {
    #[verifier::type_invariant]
    spec fn unfinished(self) -> bool {
        self.pages < MAX_LIST_PAGES
    }

    /// A walk that has seen no page yet.
    pub fn start(customer_id: &str) -> (r: Self)
        ensures
            r@ == (WalkFields { customer_id: customer_id@, methods: Seq::empty(), cursor: None, pages: 0 }),
    {
        MethodWalk { customer_id: owned(customer_id), methods: Vec::new(), cursor: None, pages: 0 }
    }

    /// The request for the next page.
    pub fn next_request(&self) -> (r: GatewayRequest)
        ensures
            r@ == (RequestFields {
                method: Method::Get,
                path: page_path(self@.customer_id, self@.cursor),
                dedup: None,
                body: BodyFields::Empty,
            }),
    {
        let mut path = concat3("/payment_methods?customer=", &self.customer_id, "&type=card&limit=100");
        match &self.cursor {
            Some(id) => {
                path.append("&starting_after=");
                path.append(id);
            },
            None => {},
        }
        GatewayRequest::plain(Method::Get, path, Body::Empty)
    }

    /// Takes a page in, received at `now`. The walk goes on while there is more and the page was not
    /// empty, but never over more than [`MAX_LIST_PAGES`] pages.
    pub fn take_page(self, page: StripeMethodPage, now: Timestamp) -> (r: WalkStep)
        ensures
            is_step(r, self@, page, now),
    {
        proof {
            use_type_invariant(&self);
        }
        let ghost found = self@.methods;
        let ghost before = page.data@;
        let pages: usize = self.pages + 1;
        let last_id = if page.data.len() > 0 {
            Some(page.data[page.data.len() - 1].id.clone())
        } else {
            None
        };
        let has_more: bool = page.has_more;
        let mut methods = self.methods;
        for method in it: page.data
            invariant
                it.seq() == before,
                methods@ == found + methods_on(before.take(it.index() as int), now),
        {
            methods.push(method.into_method(now));
            proof {
                let k = it.index() as int;
                assert(methods_on(before.take(k + 1), now) =~= methods_on(before.take(k), now).push(
                    before[k].projected(now),
                ));
                assert(methods@ =~= found + methods_on(before.take(k + 1), now));
            }
        }
        proof {
            assert(before.take(before.len() as int) =~= before);
        }
        match last_id {
            Some(id) => if has_more && pages < MAX_LIST_PAGES {
                return WalkStep::More(MethodWalk { customer_id: self.customer_id, methods, cursor: Some(id), pages });
            },
            None => {},
        }
        WalkStep::Done(methods)
    }
}

/// The methods that a walk returns which has found `found` on `pages` pages, where it is answered
/// with the given pages in turn, each with the instant at which it was received.
pub open spec fn gathered(found: Seq<PaymentMethod>, pages: int, answers: Seq<(StripeMethodPage, Timestamp)>) -> Seq<
    PaymentMethod,
>
    decreases answers.len(),
{
    if answers.len() == 0 {
        found
    } else {
        let more = found + methods_on(answers[0].0.data@, answers[0].1);
        if goes_on(answers[0].0, pages + 1) {
            gathered(more, pages + 1, answers.skip(1))
        } else {
            more
        }
    }
}

/// The methods on all of the given pages, in order.
pub open spec fn all_methods(answers: Seq<(StripeMethodPage, Timestamp)>) -> Seq<PaymentMethod>
    decreases answers.len(),
{
    if answers.len() == 0 {
        Seq::empty()
    } else {
        methods_on(answers[0].0.data@, answers[0].1) + all_methods(answers.skip(1))
    }
}

/// No page is lost: a walk whose pages all say that there is more, but for the last, returns the
/// methods of every one of them in order, as far as [`MAX_LIST_PAGES`] reaches.
pub proof fn walk_loses_no_page(found: Seq<PaymentMethod>, pages: int, answers: Seq<(StripeMethodPage, Timestamp)>)
    requires
        0 <= pages,
        pages + answers.len() <= MAX_LIST_PAGES,
        forall|i: int|
            0 <= i < answers.len() - 1 ==> (#[trigger] answers[i]).0.has_more && answers[i].0.data@.len() > 0,
    ensures
        gathered(found, pages, answers) == found + all_methods(answers),
    decreases answers.len(),
{
    if answers.len() > 0 {
        let more = found + methods_on(answers[0].0.data@, answers[0].1);
        let rest = answers.skip(1);
        if answers.len() > 1 {
            assert forall|i: int| 0 <= i < rest.len() - 1 implies (#[trigger] rest[i]).0.has_more
                && rest[i].0.data@.len() > 0 by {
                assert(rest[i] == answers[i + 1]);
            }
            walk_loses_no_page(more, pages + 1, rest);
            assert(more + all_methods(rest) =~= found + all_methods(answers));
        } else {
            assert(all_methods(rest) =~= Seq::<PaymentMethod>::empty());
            assert(all_methods(answers) =~= methods_on(answers[0].0.data@, answers[0].1));
            assert(gathered(more, pages + 1, rest) == more);
        }
    } else {
        assert(found + all_methods(answers) =~= found);
    }
}

/// A walk ends, however often it is told that there is more.
pub proof fn walk_is_bounded(page: StripeMethodPage, pages: int)
    requires
        pages >= MAX_LIST_PAGES,
    ensures
        !goes_on(page, pages),
{
}

/// A Stripe subscription, as the gateway reports it.
#[derive(Debug)]
pub struct StripeSubscription {
    pub id: String,
    pub customer: String,
    pub status: String,
    pub current_period_start: i64,
    pub current_period_end: i64,
    pub trial_end: Option<i64>,
    pub cancel_at_period_end: bool,
    pub canceled_at: Option<i64>,
    pub created: i64,
    pub metadata: StringMap,
    pub items: Vec<StripeSubscriptionItem>,
}

/// An item of a subscription.
#[derive(Debug)]
pub struct StripeSubscriptionItem {
    /// The id of its price.
    pub price: Option<String>,
    pub quantity: Option<u32>,
}

/// The subscription status that the gateway's status stands for.
pub open spec fn subscription_status(status: Seq<char>) -> SubscriptionStatus {
    if status == "trialing"@ {
        SubscriptionStatus::Trialing
    } else if status == "past_due"@ {
        SubscriptionStatus::PastDue
    } else if status == "canceled"@ {
        SubscriptionStatus::Canceled
    } else if status == "unpaid"@ {
        SubscriptionStatus::Unpaid
    } else if status == "incomplete"@ {
        SubscriptionStatus::Incomplete
    } else if status == "incomplete_expired"@ {
        SubscriptionStatus::IncompleteExpired
    } else if status == "paused"@ {
        SubscriptionStatus::Paused
    } else {
        SubscriptionStatus::Active
    }
}

/// The instant of an optional whole second, where a calendar date can be given for it.
pub open spec fn opt_instant(secs: Option<i64>) -> Option<Timestamp> {
    match secs {
        Some(s) => clock::instant(s),
        None => None,
    }
}

fn read_instant(secs: Option<i64>) -> (r: Option<Timestamp>)
    ensures
        r == opt_instant(secs),
{
    match secs {
        Some(s) => timestamp_opt(s),
        None => None,
    }
}

/// The price of the first item, and an empty text where there is none.
pub open spec fn first_price(items: Seq<StripeSubscriptionItem>) -> Seq<char> {
    if items.len() > 0 {
        match items[0].price {
            Some(id) => id@,
            None => Seq::empty(),
        }
    } else {
        Seq::empty()
    }
}

/// The quantity of the first item, and one where there is none.
pub open spec fn first_quantity(items: Seq<StripeSubscriptionItem>) -> u32 {
    if items.len() > 0 {
        match items[0].quantity {
            Some(n) => n,
            None => 1,
        }
    } else {
        1
    }
}

/// Whether `s` is the subscription that the gateway reports.
pub open spec fn is_subscription(s: Subscription, sub: StripeSubscription) -> bool {
    &&& s.id == sub.id
    &&& s.customer_id == Some(sub.customer)
    &&& s.status == subscription_status(sub.status@)
    &&& s.current_period_start == clock::instant(sub.current_period_start)
    &&& s.current_period_end == clock::instant(sub.current_period_end)
    &&& s.trial_end == opt_instant(sub.trial_end)
    &&& s.cancel_at_period_end == sub.cancel_at_period_end
    &&& s.canceled_at == opt_instant(sub.canceled_at)
    &&& s.price_id@ == first_price(sub.items@)
    &&& s.quantity == first_quantity(sub.items@)
    &&& s.metadata == sub.metadata
    &&& s.created_at == clock::instant(sub.created)
}

impl StripeSubscription {
    /// The subscription that the gateway reports.
    pub fn into_subscription(self) -> (r: Subscription)
        ensures
            is_subscription(r, self),
            r.status is Trialing <==> self.status@ == "trialing"@,
            r.status is PastDue <==> self.status@ == "past_due"@,
            r.status is Canceled <==> self.status@ == "canceled"@,
            r.status is Unpaid <==> self.status@ == "unpaid"@,
            r.status is Incomplete <==> self.status@ == "incomplete"@,
            r.status is IncompleteExpired <==> self.status@ == "incomplete_expired"@,
            r.status is Paused <==> self.status@ == "paused"@,
    {
        proof {
            laws::stripe::subscription_statuses_are_told_apart(self.status@);
        }
        let status = if same(&self.status, "trialing") {
            SubscriptionStatus::Trialing
        } else if same(&self.status, "past_due") {
            SubscriptionStatus::PastDue
        } else if same(&self.status, "canceled") {
            SubscriptionStatus::Canceled
        } else if same(&self.status, "unpaid") {
            SubscriptionStatus::Unpaid
        } else if same(&self.status, "incomplete") {
            SubscriptionStatus::Incomplete
        } else if same(&self.status, "incomplete_expired") {
            SubscriptionStatus::IncompleteExpired
        } else if same(&self.status, "paused") {
            SubscriptionStatus::Paused
        } else {
            SubscriptionStatus::Active
        };
        let (price_id, quantity) = if self.items.len() > 0 {
            let price = match &self.items[0].price {
                Some(id) => id.clone(),
                None => String::new(),
            };
            let quantity: u32 = match self.items[0].quantity {
                Some(n) => n,
                None => 1,
            };
            (price, quantity)
        } else {
            (String::new(), 1)
        };
        Subscription {
            id: self.id,
            customer_id: Some(self.customer),
            status,
            current_period_start: timestamp_opt(self.current_period_start),
            current_period_end: timestamp_opt(self.current_period_end),
            trial_end: read_instant(self.trial_end),
            cancel_at_period_end: self.cancel_at_period_end,
            canceled_at: read_instant(self.canceled_at),
            price_id,
            quantity,
            metadata: self.metadata,
            created_at: timestamp_opt(self.created),
        }
    }
}

/// What a reply about a customer says, received at `now`.
pub open spec fn customer_outcome(
    reply: StripeReply,
    decoded: Result<StripeCustomer, String>,
    not_found: Option<Fault>,
    now: Timestamp,
) -> Result<Customer, Fault> {
    match stripe::stripe_settled(reply, decoded, not_found) {
        Ok(c) => Ok(c.projected(now)),
        Err(fault) => Err(fault),
    }
}

/// What a reply about a customer says, received at `now`.
pub fn customer_result_at(
    reply: &StripeReply,
    decoded: Result<StripeCustomer, String>,
    not_found: Option<PaymentError>,
    now: Timestamp,
) -> (r: PaymentResult<Customer>)
    ensures
        gateway::outcome(r) == customer_outcome(*reply, decoded, gateway::opt_fault(not_found), now),
{
    match stripe_settle(reply, decoded, not_found) {
        Ok(c) => Ok(c.into_customer(now)),
        Err(e) => Err(e),
    }
}

/// What a reply about a payment method says, received at `now`.
pub open spec fn method_outcome(
    reply: StripeReply,
    decoded: Result<StripePaymentMethod, String>,
    not_found: Option<Fault>,
    now: Timestamp,
) -> Result<PaymentMethod, Fault> {
    match stripe::stripe_settled(reply, decoded, not_found) {
        Ok(m) => Ok(m.projected(now)),
        Err(fault) => Err(fault),
    }
}

/// What a reply about a payment method says, received at `now`.
pub fn method_result_at(
    reply: &StripeReply,
    decoded: Result<StripePaymentMethod, String>,
    not_found: Option<PaymentError>,
    now: Timestamp,
) -> (r: PaymentResult<PaymentMethod>)
    ensures
        gateway::outcome(r) == method_outcome(*reply, decoded, gateway::opt_fault(not_found), now),
{
    match stripe_settle(reply, decoded, not_found) {
        Ok(m) => Ok(m.into_method(now)),
        Err(e) => Err(e),
    }
}

/// Whether `r` is what the reply to the request for a page says, received at `now`.
pub open spec fn page_outcome(
    walk: WalkFields,
    reply: StripeReply,
    decoded: Result<StripeMethodPage, String>,
    now: Timestamp,
    r: PaymentResult<WalkStep>,
) -> bool {
    match stripe::stripe_settled(reply, decoded, None) {
        Ok(page) => r matches Ok(step) && is_step(step, walk, page, now),
        Err(fault) => r matches Err(e) && e@ == fault,
    }
}

/// What the reply to the request for a page says, received at `now`.
pub fn page_result_at(
    walk: MethodWalk,
    reply: &StripeReply,
    decoded: Result<StripeMethodPage, String>,
    now: Timestamp,
) -> (r: PaymentResult<WalkStep>)
    ensures
        page_outcome(walk@, *reply, decoded, now, r),
{
    match stripe_settle(reply, decoded, None) {
        Ok(page) => Ok(walk.take_page(page, now)),
        Err(e) => Err(e),
    }
}

/// Whether `r` is what a reply about a subscription says.
pub open spec fn subscription_outcome(
    reply: StripeReply,
    decoded: Result<StripeSubscription, String>,
    not_found: Option<Fault>,
    r: PaymentResult<Subscription>,
) -> bool {
    match stripe::stripe_settled(reply, decoded, not_found) {
        Ok(sub) => r matches Ok(s) && is_subscription(s, sub),
        Err(fault) => r matches Err(e) && e@ == fault,
    }
}

/// The form of a customer to create.
pub open spec fn customer_form(request: CreateCustomerRequest) -> Map<Seq<char>, Seq<char>> {
    let email = stripe::with_field(Map::empty(), "email"@, text::opt_text(request.email));
    let name = stripe::with_field(email, "name"@, text::opt_text(request.name));
    let phone = stripe::with_field(name, "phone"@, text::opt_text(request.phone));
    stripe::with_field(phone, "description"@, text::opt_text(request.description))
}

/// The form of a change to a customer.
pub open spec fn customer_change_form(request: UpdateCustomerRequest) -> Map<Seq<char>, Seq<char>> {
    let email = stripe::with_field(Map::empty(), "email"@, text::opt_text(request.email));
    let name = stripe::with_field(email, "name"@, text::opt_text(request.name));
    stripe::with_field(name, "phone"@, text::opt_text(request.phone))
}

/// The form of a payment method to create.
pub open spec fn method_form(request: CreatePaymentMethodRequest) -> Map<Seq<char>, Seq<char>> {
    let kind = Map::<Seq<char>, Seq<char>>::empty().insert("type"@, "card"@);
    match request.card {
        Some(card) => kind.insert("card[number]"@, card.number@).insert(
            "card[exp_month]"@,
            text::int_text(card.exp_month as int),
        ).insert("card[exp_year]"@, text::int_text(card.exp_year as int)).insert("card[cvc]"@, card.cvc@),
        None => kind,
    }
}

/// The text of an optional number.
pub open spec fn opt_number_text(n: Option<u32>) -> Option<Seq<char>> {
    match n {
        Some(n) => Some(text::int_text(n as int)),
        None => None,
    }
}

fn number_shown(n: Option<u32>) -> (r: Option<String>)
    ensures
        text::opt_text(r) == opt_number_text(n),
{
    match n {
        Some(n) => Some(unsigned_text(n as u64)),
        None => None,
    }
}

/// The form of a subscription to create.
pub open spec fn subscription_form(request: CreateSubscriptionRequest) -> Map<Seq<char>, Seq<char>> {
    let plan = Map::<Seq<char>, Seq<char>>::empty().insert("customer"@, request.customer_id@).insert(
        "items[0][price]"@,
        request.price_id@,
    );
    let quantity = stripe::with_field(plan, "items[0][quantity]"@, opt_number_text(request.quantity));
    let trial = stripe::with_field(quantity, "trial_period_days"@, opt_number_text(request.trial_days));
    stripe::with_field(trial, "default_payment_method"@, text::opt_text(request.payment_method))
}

/// A request that posts a form.
pub open spec fn form_post(path: Seq<char>, form: Map<Seq<char>, Seq<char>>) -> RequestFields {
    RequestFields { method: Method::Post, path, dedup: None, body: BodyFields::Form(form) }
}

/// A request without a body.
pub open spec fn bare(method: Method, path: Seq<char>) -> RequestFields {
    RequestFields { method, path, dedup: None, body: BodyFields::Empty }
}

impl StripeProvider {
    /// The request that creates a customer.
    pub fn create_customer_request(&self, request: &CreateCustomerRequest) -> (r: GatewayRequest)
        ensures
            r@ == form_post("/customers"@, customer_form(*request)),
    {
        let mut form = StringMap::new();
        put_field(&mut form, "email", &request.email);
        put_field(&mut form, "name", &request.name);
        put_field(&mut form, "phone", &request.phone);
        put_field(&mut form, "description", &request.description);
        GatewayRequest::plain(Method::Post, owned("/customers"), Body::Form(form))
    }

    /// What the reply to the creation of a customer says.
    pub fn create_customer_result(&self, reply: &StripeReply, decoded: Result<StripeCustomer, String>) -> (r:
        PaymentResult<Customer>)
        ensures
            exists|now: Timestamp|
                #[trigger] clock::can_be_now(now) && gateway::outcome(r) == customer_outcome(*reply, decoded, None, now),
    {
        customer_result_at(reply, decoded, None, now())
    }

    /// The request that reads a customer.
    pub fn get_customer_request(&self, id: &str) -> (r: GatewayRequest)
        ensures
            r@ == bare(Method::Get, "/customers/"@ + id@),
    {
        GatewayRequest::plain(Method::Get, concat2("/customers/", id), Body::Empty)
    }

    /// The request that changes a customer.
    pub fn update_customer_request(&self, id: &str, request: &UpdateCustomerRequest) -> (r: GatewayRequest)
        ensures
            r@ == form_post("/customers/"@ + id@, customer_change_form(*request)),
    {
        let mut form = StringMap::new();
        put_field(&mut form, "email", &request.email);
        put_field(&mut form, "name", &request.name);
        put_field(&mut form, "phone", &request.phone);
        GatewayRequest::plain(Method::Post, concat2("/customers/", id), Body::Form(form))
    }

    /// What the reply about an existing customer says.
    pub fn customer_result(&self, id: &str, reply: &StripeReply, decoded: Result<StripeCustomer, String>) -> (r:
        PaymentResult<Customer>)
        ensures
            exists|now: Timestamp|
                #[trigger] clock::can_be_now(now) && gateway::outcome(r) == customer_outcome(*reply, decoded, Some(Fault::CustomerNotFound(id@)), now),
    {
        customer_result_at(reply, decoded, Some(PaymentError::CustomerNotFound(owned(id))), now())
    }

    /// The request that deletes a customer.
    pub fn delete_customer_request(&self, id: &str) -> (r: GatewayRequest)
        ensures
            r@ == bare(Method::Delete, "/customers/"@ + id@),
    {
        GatewayRequest::plain(Method::Delete, concat2("/customers/", id), Body::Empty)
    }

    /// What the reply to the deletion of a customer says.
    pub fn delete_customer_result(&self, id: &str, reply: &StripeReply) -> (r: PaymentResult<()>)
        ensures
            gateway::outcome(r) == stripe::stripe_settled(
                *reply,
                Ok::<(), String>(()),
                Some(Fault::CustomerNotFound(id@)),
            ),
    {
        stripe_settle(reply, Ok(()), Some(PaymentError::CustomerNotFound(owned(id))))
    }

    /// The request that creates a payment method.
    pub fn create_payment_method_request(&self, request: &CreatePaymentMethodRequest) -> (r: GatewayRequest)
        ensures
            r@ == form_post("/payment_methods"@, method_form(*request)),
    {
        let mut form = StringMap::new();
        form.insert(owned("type"), owned("card"));
        match &request.card {
            Some(card) => {
                form.insert(owned("card[number]"), card.number.clone());
                form.insert(owned("card[exp_month]"), unsigned_text(card.exp_month as u64));
                form.insert(owned("card[exp_year]"), unsigned_text(card.exp_year as u64));
                form.insert(owned("card[cvc]"), card.cvc.clone());
            },
            None => {},
        }
        GatewayRequest::plain(Method::Post, owned("/payment_methods"), Body::Form(form))
    }

    /// What the reply to the creation of a payment method says.
    pub fn create_payment_method_result(
        &self,
        reply: &StripeReply,
        decoded: Result<StripePaymentMethod, String>,
    ) -> (r: PaymentResult<PaymentMethod>)
        ensures
            exists|now: Timestamp|
                #[trigger] clock::can_be_now(now) && gateway::outcome(r) == method_outcome(*reply, decoded, None, now),
    {
        method_result_at(reply, decoded, None, now())
    }

    /// The request that attaches a payment method to a customer.
    pub fn attach_payment_method_request(&self, method_id: &str, customer_id: &str) -> (r: GatewayRequest)
        ensures
            r@ == form_post(
                "/payment_methods/"@ + method_id@ + "/attach"@,
                Map::empty().insert("customer"@, customer_id@),
            ),
    {
        let mut form = StringMap::new();
        form.insert(owned("customer"), owned(customer_id));
        GatewayRequest::plain(Method::Post, concat3("/payment_methods/", method_id, "/attach"), Body::Form(form))
    }

    /// The request that detaches a payment method from its customer.
    pub fn detach_payment_method_request(&self, method_id: &str) -> (r: GatewayRequest)
        ensures
            r@ == form_post("/payment_methods/"@ + method_id@ + "/detach"@, Map::empty()),
    {
        let path = concat3("/payment_methods/", method_id, "/detach");
        GatewayRequest::plain(Method::Post, path, Body::Form(StringMap::new()))
    }

    /// What the reply about an existing payment method says.
    pub fn payment_method_result(
        &self,
        method_id: &str,
        reply: &StripeReply,
        decoded: Result<StripePaymentMethod, String>,
    ) -> (r: PaymentResult<PaymentMethod>)
        ensures
            exists|now: Timestamp|
                #[trigger] clock::can_be_now(now) && gateway::outcome(r) == method_outcome(
                    *reply,
                    decoded,
                    Some(Fault::PaymentMethodNotFound(method_id@)),
                    now,
                ),
    {
        method_result_at(reply, decoded, Some(PaymentError::PaymentMethodNotFound(owned(method_id))), now())
    }

    /// A walk over a customer's card payment methods.
    pub fn list_payment_methods(&self, customer_id: &str) -> (r: MethodWalk)
        ensures
            r@ == (WalkFields { customer_id: customer_id@, methods: Seq::empty(), cursor: None, pages: 0 }),
    {
        MethodWalk::start(customer_id)
    }

    /// Takes the reply to the request for a page into a walk.
    pub fn list_payment_methods_step(
        &self,
        walk: MethodWalk,
        reply: &StripeReply,
        decoded: Result<StripeMethodPage, String>,
    ) -> (r: PaymentResult<WalkStep>)
        ensures
            exists|now: Timestamp| #[trigger] clock::can_be_now(now) && page_outcome(walk@, *reply, decoded, now, r),
    {
        page_result_at(walk, reply, decoded, now())
    }

    /// The request that creates a subscription.
    pub fn create_subscription_request(&self, request: &CreateSubscriptionRequest) -> (r: GatewayRequest)
        ensures
            r@ == form_post("/subscriptions"@, subscription_form(*request)),
    {
        let mut form = StringMap::new();
        form.insert(owned("customer"), request.customer_id.clone());
        form.insert(owned("items[0][price]"), request.price_id.clone());
        put_field(&mut form, "items[0][quantity]", &number_shown(request.quantity));
        put_field(&mut form, "trial_period_days", &number_shown(request.trial_days));
        put_field(&mut form, "default_payment_method", &request.payment_method);
        GatewayRequest::plain(Method::Post, owned("/subscriptions"), Body::Form(form))
    }

    /// The request that reads a subscription.
    pub fn get_subscription_request(&self, id: &str) -> (r: GatewayRequest)
        ensures
            r@ == bare(Method::Get, "/subscriptions/"@ + id@),
    {
        GatewayRequest::plain(Method::Get, concat2("/subscriptions/", id), Body::Empty)
    }

    /// What the reply to the reading of a subscription says.
    pub fn get_subscription_result(
        &self,
        id: &str,
        reply: &StripeReply,
        decoded: Result<StripeSubscription, String>,
    ) -> (r: PaymentResult<Subscription>)
        ensures
            subscription_outcome(*reply, decoded, Some(Fault::SubscriptionNotFound(id@)), r),
    {
        match stripe_settle(reply, decoded, Some(PaymentError::SubscriptionNotFound(owned(id)))) {
            Ok(sub) => Ok(sub.into_subscription()),
            Err(e) => Err(e),
        }
    }

    /// The request that moves a subscription to another price.
    pub fn update_subscription_request(&self, id: &str, price_id: &str) -> (r: GatewayRequest)
        ensures
            r@ == form_post("/subscriptions/"@ + id@, Map::empty().insert("items[0][price]"@, price_id@)),
    {
        let mut form = StringMap::new();
        form.insert(owned("items[0][price]"), owned(price_id));
        GatewayRequest::plain(Method::Post, concat2("/subscriptions/", id), Body::Form(form))
    }

    /// The request that cancels a subscription, at once or when the current period ends.
    pub fn cancel_subscription_request(&self, id: &str, immediate: bool) -> (r: GatewayRequest)
        ensures
            r@ == (if immediate {
                bare(Method::Delete, "/subscriptions/"@ + id@)
            } else {
                form_post("/subscriptions/"@ + id@, Map::empty().insert("cancel_at_period_end"@, "true"@))
            }),
    {
        let path = concat2("/subscriptions/", id);
        if immediate {
            return GatewayRequest::plain(Method::Delete, path, Body::Empty);
        }
        let mut form = StringMap::new();
        form.insert(owned("cancel_at_period_end"), owned("true"));
        GatewayRequest::plain(Method::Post, path, Body::Form(form))
    }

    /// The request that takes back a cancellation at the end of the period.
    pub fn resume_subscription_request(&self, id: &str) -> (r: GatewayRequest)
        ensures
            r@ == form_post("/subscriptions/"@ + id@, Map::empty().insert("cancel_at_period_end"@, "false"@)),
    {
        let mut form = StringMap::new();
        form.insert(owned("cancel_at_period_end"), owned("false"));
        GatewayRequest::plain(Method::Post, concat2("/subscriptions/", id), Body::Form(form))
    }

    /// What the reply to the creation of or to a change to a subscription says.
    pub fn subscription_result(&self, reply: &StripeReply, decoded: Result<StripeSubscription, String>) -> (r:
        PaymentResult<Subscription>)
        ensures
            subscription_outcome(*reply, decoded, None, r),
    {
        match stripe_settle(reply, decoded, None) {
            Ok(sub) => Ok(sub.into_subscription()),
            Err(e) => Err(e),
        }
    }
}

} // verus!
