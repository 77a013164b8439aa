//! Typed webhook payloads, read out of JSON documents.
//!
//! A payload is an object whose members are the fields by name, or an array of the fields in order.
//! Members that no field names are ignored.
use crate::json::{self, Json, Number, NumberTree, Tree};
use crate::string_map::{self, StringMap};
use crate::text;
use crate::webhook::{EventClass, WebhookEventType};
use vstd::prelude::*;

verus! {

/// An optional integer.
pub open spec fn opt_int(o: Option<i64>) -> Option<int> {
    match o {
        Some(n) => Some(n as int),
        None => None,
    }
}

/// The field at a position of an array, or under a name of an object.
pub open spec fn field(t: Tree, index: nat, name: Seq<char>) -> Option<Tree> {
    match t {
        Tree::Object(_) => json::member(t, name),
        Tree::Array(items) => if index < items.len() {
            Some(items[index as int])
        } else {
            None
        },
        _ => None,
    }
}

/// Whether a document can hold the given number of fields: it is an object, or an array that is not
/// longer.
pub open spec fn holds_fields(t: Tree, count: nat) -> bool {
    match t {
        Tree::Object(_) => true,
        Tree::Array(items) => items.len() <= count,
        _ => false,
    }
}

/// A field that must be a text.
pub open spec fn text_at(t: Tree, index: nat, name: Seq<char>) -> Option<Seq<char>> {
    match field(t, index, name) {
        Some(Tree::Text(s)) => Some(s),
        _ => None,
    }
}

/// A field that may be absent or null, and must otherwise be a text.
pub open spec fn opt_text_at(t: Tree, index: nat, name: Seq<char>) -> Option<Option<Seq<char>>> {
    match field(t, index, name) {
        None => Some(None),
        Some(Tree::Null) => Some(None),
        Some(Tree::Text(s)) => Some(Some(s)),
        _ => None,
    }
}

/// The 64-bit integer that a document is.
pub open spec fn integer(t: Tree) -> Option<int> {
    match t {
        Tree::Number(NumberTree::Int(n)) => if i64::MIN <= n <= i64::MAX {
            Some(n)
        } else {
            None
        },
        _ => None,
    }
}

/// A field that must be an integer.
pub open spec fn int_at(t: Tree, index: nat, name: Seq<char>) -> Option<int> {
    match field(t, index, name) {
        Some(v) => integer(v),
        None => None,
    }
}

/// A field that is zero where it is absent, and must otherwise be an integer.
pub open spec fn int_or_zero_at(t: Tree, index: nat, name: Seq<char>) -> Option<int> {
    match field(t, index, name) {
        Some(v) => integer(v),
        None => Some(0),
    }
}

/// A field that may be absent or null, and must otherwise be an integer.
pub open spec fn opt_int_at(t: Tree, index: nat, name: Seq<char>) -> Option<Option<int>> {
    match field(t, index, name) {
        None => Some(None),
        Some(Tree::Null) => Some(None),
        Some(v) => match integer(v) {
            Some(n) => Some(Some(n)),
            None => None,
        },
    }
}

/// A field that is false where it is absent, and must otherwise be a boolean.
pub open spec fn flag_at(t: Tree, index: nat, name: Seq<char>) -> Option<bool> {
    match field(t, index, name) {
        None => Some(false),
        Some(Tree::Bool(b)) => Some(b),
        _ => None,
    }
}

/// The members of an object whose values are all texts.
pub open spec fn text_members(members: Seq<(Seq<char>, Tree)>) -> Seq<(Seq<char>, Seq<char>)> {
    members.map_values(|m: (Seq<char>, Tree)| (m.0, m.1->Text_0))
}

/// A field that is empty where it is absent, and must otherwise be an object of texts.
pub open spec fn map_at(t: Tree, index: nat, name: Seq<char>) -> Option<Map<Seq<char>, Seq<char>>> {
    match field(t, index, name) {
        None => Some(Map::empty()),
        Some(Tree::Object(members)) => if forall|i: int|
            0 <= i < members.len() ==> (#[trigger] members[i]).1 is Text {
            Some(string_map::map_of(text_members(members)))
        } else {
            None
        },
        _ => None,
    }
}

fn read_field<'a>(raw: &'a Json, index: usize, name: &str) -> (r: Option<&'a Json>)
    ensures
        match r {
            Some(j) => field(raw.tree(), index as nat, name@) == Some(j.tree()),
            None => field(raw.tree(), index as nat, name@) is None,
        },
{
    match raw {
        Json::Object(members) => {
            proof {
                json::lemma_object_tree(*members);
            }
            raw.get(name)
        },
        Json::Array(items) => {
            proof {
                json::lemma_array_tree(*items);
            }
            if index < items.len() {
                Some(&items[index])
            } else {
                None
            }
        },
        _ => None,
    }
}

fn fits(raw: &Json, count: usize) -> (r: bool)
    ensures
        r == holds_fields(raw.tree(), count as nat),
{
    match raw {
        Json::Object(_) => true,
        Json::Array(items) => {
            proof {
                json::lemma_array_tree(*items);
            }
            items.len() <= count
        },
        _ => false,
    }
}

fn read_text(raw: &Json, index: usize, name: &str) -> (r: Option<String>)
    ensures
        text::opt_text(r) == text_at(raw.tree(), index as nat, name@),
{
    match read_field(raw, index, name) {
        Some(Json::Text(s)) => Some(s.clone()),
        _ => None,
    }
}

fn read_opt_text(raw: &Json, index: usize, name: &str) -> (r: Option<Option<String>>)
    ensures
        match r {
            Some(o) => opt_text_at(raw.tree(), index as nat, name@) == Some(text::opt_text(o)),
            None => opt_text_at(raw.tree(), index as nat, name@) is None,
        },
{
    match read_field(raw, index, name) {
        None => Some(None),
        Some(Json::Null) => Some(None),
        Some(Json::Text(s)) => Some(Some(s.clone())),
        _ => None,
    }
}

fn read_integer(value: &Json) -> (r: Option<i64>)
    ensures
        opt_int(r) == integer(value.tree()),
{
    match value {
        Json::Number(Number::PosInt(n)) => if *n <= i64::MAX as u64 {
            Some(*n as i64)
        } else {
            None
        },
        Json::Number(Number::NegInt(n)) => Some(*n),
        _ => None,
    }
}

fn read_int(raw: &Json, index: usize, name: &str) -> (r: Option<i64>)
    ensures
        opt_int(r) == int_at(raw.tree(), index as nat, name@),
{
    match read_field(raw, index, name) {
        Some(v) => read_integer(v),
        None => None,
    }
}

fn read_int_or_zero(raw: &Json, index: usize, name: &str) -> (r: Option<i64>)
    ensures
        opt_int(r) == int_or_zero_at(raw.tree(), index as nat, name@),
{
    match read_field(raw, index, name) {
        Some(v) => read_integer(v),
        None => Some(0),
    }
}

fn read_opt_int(raw: &Json, index: usize, name: &str) -> (r: Option<Option<i64>>)
    ensures
        match r {
            Some(o) => opt_int_at(raw.tree(), index as nat, name@) == Some(opt_int(o)),
            None => opt_int_at(raw.tree(), index as nat, name@) is None,
        },
{
    match read_field(raw, index, name) {
        None => Some(None),
        Some(Json::Null) => Some(None),
        Some(v) => match read_integer(v) {
            Some(n) => Some(Some(n)),
            None => None,
        },
    }
}

fn read_flag(raw: &Json, index: usize, name: &str) -> (r: Option<bool>)
    ensures
        r == flag_at(raw.tree(), index as nat, name@),
{
    match read_field(raw, index, name) {
        None => Some(false),
        Some(Json::Bool(b)) => Some(*b),
        _ => None,
    }
}

fn read_map(raw: &Json, index: usize, name: &str) -> (r: Option<StringMap>)
    ensures
        match r {
            Some(m) => map_at(raw.tree(), index as nat, name@) == Some(m@),
            None => map_at(raw.tree(), index as nat, name@) is None,
        },
{
    match read_field(raw, index, name) {
        None => Some(StringMap::new()),
        Some(Json::Object(members)) => {
            let mut out = StringMap::new();
            let ghost all = json::member_trees(members@);
            let ghost p = text_members(all);
            let mut i: usize = 0;
            proof {
                json::lemma_object_tree(*members);
                assert(p.take(0) =~= Seq::<(Seq<char>, Seq<char>)>::empty());
            }
            while i < members.len()
                invariant
                    i <= members.len(),
                    all == json::member_trees(members@),
                    p == text_members(all),
                    map_at(raw.tree(), index as nat, name@) == (if forall|j: int|
                        0 <= j < all.len() ==> (#[trigger] all[j]).1 is Text {
                        Some(string_map::map_of(p))
                    } else {
                        None
                    }),
                    forall|j: int| 0 <= j < i ==> (#[trigger] all[j]).1 is Text,
                    out@ == string_map::map_of(p.take(i as int)),
                decreases members.len() - i,
            {
                proof {
                    assert(all[i as int] == (members@[i as int].0@, members@[i as int].1.tree()));
                }
                match &members[i].1 {
                    Json::Text(value) => {
                        out.insert(members[i].0.clone(), value.clone());
                        proof {
                            assert(p.take(i as int + 1).drop_last() =~= p.take(i as int));
                            assert(p.take(i as int + 1).last() == (members@[i as int].0@, value@));
                        }
                    },
                    _ => {
                        proof {
                            assert(!(all[i as int].1 is Text));
                        }
                        return None;
                    },
                }
                i += 1;
            }
            proof {
                assert(p.take(p.len() as int) =~= p);
            }
            Some(out)
        },
        _ => None,
    }
}

/// Charge webhook data
#[derive(Debug, Clone)]
pub struct ChargeWebhookData {
    pub id: String,
    pub amount: i64,
    pub currency: String,
    pub status: String,
    pub customer: Option<String>,
    pub payment_method: Option<String>,
    pub failure_code: Option<String>,
    pub failure_message: Option<String>,
    pub metadata: StringMap,
}

/// What a [`ChargeWebhookData`] holds.
pub struct ChargeFields {
    pub id: Seq<char>,
    pub amount: int,
    pub currency: Seq<char>,
    pub status: Seq<char>,
    pub customer: Option<Seq<char>>,
    pub payment_method: Option<Seq<char>>,
    pub failure_code: Option<Seq<char>>,
    pub failure_message: Option<Seq<char>>,
    pub metadata: Map<Seq<char>, Seq<char>>,
}

impl View for ChargeWebhookData {
    type V = ChargeFields;

    open spec fn view(&self) -> ChargeFields {
        ChargeFields {
            id: self.id@,
            amount: self.amount as int,
            currency: self.currency@,
            status: self.status@,
            customer: text::opt_text(self.customer),
            payment_method: text::opt_text(self.payment_method),
            failure_code: text::opt_text(self.failure_code),
            failure_message: text::opt_text(self.failure_message),
            metadata: self.metadata@,
        }
    }
}

/// The charge data that a document holds.
pub open spec fn charge_fields(t: Tree) -> Option<ChargeFields> {
    match (
        text_at(t, 0, "id"@),
        int_at(t, 1, "amount"@),
        text_at(t, 2, "currency"@),
        text_at(t, 3, "status"@),
        opt_text_at(t, 4, "customer"@),
        opt_text_at(t, 5, "payment_method"@),
        opt_text_at(t, 6, "failure_code"@),
        opt_text_at(t, 7, "failure_message"@),
        map_at(t, 8, "metadata"@),
    ) {
        (
            Some(id),
            Some(amount),
            Some(currency),
            Some(status),
            Some(customer),
            Some(payment_method),
            Some(failure_code),
            Some(failure_message),
            Some(metadata),
        ) => if holds_fields(t, 9) {
            Some(ChargeFields { id, amount, currency, status, customer, payment_method, failure_code, failure_message, metadata })
        } else {
            None
        },
        _ => None,
    }
}

impl ChargeWebhookData {
    /// Reads the data out of a document, where it has the fields.
    pub fn from_json(raw: &Json) -> (r: Option<Self>)
        ensures
            match r {
                Some(d) => charge_fields(raw.tree()) == Some(d@),
                None => charge_fields(raw.tree()) is None,
            },
    {
        if !fits(raw, 9) {
            return None;
        }
        match (
            read_text(raw, 0, "id"),
            read_int(raw, 1, "amount"),
            read_text(raw, 2, "currency"),
            read_text(raw, 3, "status"),
            read_opt_text(raw, 4, "customer"),
            read_opt_text(raw, 5, "payment_method"),
            read_opt_text(raw, 6, "failure_code"),
            read_opt_text(raw, 7, "failure_message"),
            read_map(raw, 8, "metadata"),
        ) {
            (
                Some(id),
                Some(amount),
                Some(currency),
                Some(status),
                Some(customer),
                Some(payment_method),
                Some(failure_code),
                Some(failure_message),
                Some(metadata),
            ) => Some(ChargeWebhookData { id, amount, currency, status, customer, payment_method, failure_code, failure_message, metadata }),
            _ => None,
        }
    }
}

/// Customer webhook data
#[derive(Debug, Clone)]
pub struct CustomerWebhookData {
    pub id: String,
    pub email: Option<String>,
    pub name: Option<String>,
    pub metadata: StringMap,
}

/// What a [`CustomerWebhookData`] holds.
pub struct CustomerFields {
    pub id: Seq<char>,
    pub email: Option<Seq<char>>,
    pub name: Option<Seq<char>>,
    pub metadata: Map<Seq<char>, Seq<char>>,
}

impl View for CustomerWebhookData {
    type V = CustomerFields;

    open spec fn view(&self) -> CustomerFields {
        CustomerFields {
            id: self.id@,
            email: text::opt_text(self.email),
            name: text::opt_text(self.name),
            metadata: self.metadata@,
        }
    }
}

/// The customer data that a document holds.
pub open spec fn customer_fields(t: Tree) -> Option<CustomerFields> {
    match (
        text_at(t, 0, "id"@),
        opt_text_at(t, 1, "email"@),
        opt_text_at(t, 2, "name"@),
        map_at(t, 3, "metadata"@),
    ) {
        (
            Some(id),
            Some(email),
            Some(name),
            Some(metadata),
        ) => if holds_fields(t, 4) {
            Some(CustomerFields { id, email, name, metadata })
        } else {
            None
        },
        _ => None,
    }
}

impl CustomerWebhookData {
    /// Reads the data out of a document, where it has the fields.
    pub fn from_json(raw: &Json) -> (r: Option<Self>)
        ensures
            match r {
                Some(d) => customer_fields(raw.tree()) == Some(d@),
                None => customer_fields(raw.tree()) is None,
            },
    {
        if !fits(raw, 4) {
            return None;
        }
        match (
            read_text(raw, 0, "id"),
            read_opt_text(raw, 1, "email"),
            read_opt_text(raw, 2, "name"),
            read_map(raw, 3, "metadata"),
        ) {
            (
                Some(id),
                Some(email),
                Some(name),
                Some(metadata),
            ) => Some(CustomerWebhookData { id, email, name, metadata }),
            _ => None,
        }
    }
}

/// Subscription webhook data
#[derive(Debug, Clone)]
pub struct SubscriptionWebhookData {
    pub id: String,
    pub customer: String,
    pub status: String,
    pub current_period_start: i64,
    pub current_period_end: i64,
    pub cancel_at_period_end: bool,
    pub trial_end: Option<i64>,
    pub metadata: StringMap,
}

/// What a [`SubscriptionWebhookData`] holds.
pub struct SubscriptionFields {
    pub id: Seq<char>,
    pub customer: Seq<char>,
    pub status: Seq<char>,
    pub current_period_start: int,
    pub current_period_end: int,
    pub cancel_at_period_end: bool,
    pub trial_end: Option<int>,
    pub metadata: Map<Seq<char>, Seq<char>>,
}

impl View for SubscriptionWebhookData {
    type V = SubscriptionFields;

    open spec fn view(&self) -> SubscriptionFields {
        SubscriptionFields {
            id: self.id@,
            customer: self.customer@,
            status: self.status@,
            current_period_start: self.current_period_start as int,
            current_period_end: self.current_period_end as int,
            cancel_at_period_end: self.cancel_at_period_end,
            trial_end: opt_int(self.trial_end),
            metadata: self.metadata@,
        }
    }
}

/// The subscription data that a document holds.
pub open spec fn subscription_fields(t: Tree) -> Option<SubscriptionFields> {
    match (
        text_at(t, 0, "id"@),
        text_at(t, 1, "customer"@),
        text_at(t, 2, "status"@),
        int_or_zero_at(t, 3, "current_period_start"@),
        int_or_zero_at(t, 4, "current_period_end"@),
        flag_at(t, 5, "cancel_at_period_end"@),
        opt_int_at(t, 6, "trial_end"@),
        map_at(t, 7, "metadata"@),
    ) {
        (
            Some(id),
            Some(customer),
            Some(status),
            Some(current_period_start),
            Some(current_period_end),
            Some(cancel_at_period_end),
            Some(trial_end),
            Some(metadata),
        ) => if holds_fields(t, 8) {
            Some(SubscriptionFields { id, customer, status, current_period_start, current_period_end, cancel_at_period_end, trial_end, metadata })
        } else {
            None
        },
        _ => None,
    }
}

impl SubscriptionWebhookData {
    /// Reads the data out of a document, where it has the fields.
    pub fn from_json(raw: &Json) -> (r: Option<Self>)
        ensures
            match r {
                Some(d) => subscription_fields(raw.tree()) == Some(d@),
                None => subscription_fields(raw.tree()) is None,
            },
    {
        if !fits(raw, 8) {
            return None;
        }
        match (
            read_text(raw, 0, "id"),
            read_text(raw, 1, "customer"),
            read_text(raw, 2, "status"),
            read_int_or_zero(raw, 3, "current_period_start"),
            read_int_or_zero(raw, 4, "current_period_end"),
            read_flag(raw, 5, "cancel_at_period_end"),
            read_opt_int(raw, 6, "trial_end"),
            read_map(raw, 7, "metadata"),
        ) {
            (
                Some(id),
                Some(customer),
                Some(status),
                Some(current_period_start),
                Some(current_period_end),
                Some(cancel_at_period_end),
                Some(trial_end),
                Some(metadata),
            ) => Some(SubscriptionWebhookData { id, customer, status, current_period_start, current_period_end, cancel_at_period_end, trial_end, metadata }),
            _ => None,
        }
    }
}

/// Invoice webhook data
#[derive(Debug, Clone)]
pub struct InvoiceWebhookData {
    pub id: String,
    pub customer: String,
    pub subscription: Option<String>,
    pub status: String,
    pub amount_due: i64,
    pub amount_paid: i64,
    pub currency: String,
    pub hosted_invoice_url: Option<String>,
    pub pdf: Option<String>,
}

/// What a [`InvoiceWebhookData`] holds.
pub struct InvoiceFields {
    pub id: Seq<char>,
    pub customer: Seq<char>,
    pub subscription: Option<Seq<char>>,
    pub status: Seq<char>,
    pub amount_due: int,
    pub amount_paid: int,
    pub currency: Seq<char>,
    pub hosted_invoice_url: Option<Seq<char>>,
    pub pdf: Option<Seq<char>>,
}

impl View for InvoiceWebhookData {
    type V = InvoiceFields;

    open spec fn view(&self) -> InvoiceFields {
        InvoiceFields {
            id: self.id@,
            customer: self.customer@,
            subscription: text::opt_text(self.subscription),
            status: self.status@,
            amount_due: self.amount_due as int,
            amount_paid: self.amount_paid as int,
            currency: self.currency@,
            hosted_invoice_url: text::opt_text(self.hosted_invoice_url),
            pdf: text::opt_text(self.pdf),
        }
    }
}

/// The invoice data that a document holds.
pub open spec fn invoice_fields(t: Tree) -> Option<InvoiceFields> {
    match (
        text_at(t, 0, "id"@),
        text_at(t, 1, "customer"@),
        opt_text_at(t, 2, "subscription"@),
        text_at(t, 3, "status"@),
        int_or_zero_at(t, 4, "amount_due"@),
        int_or_zero_at(t, 5, "amount_paid"@),
        text_at(t, 6, "currency"@),
        opt_text_at(t, 7, "hosted_invoice_url"@),
        opt_text_at(t, 8, "pdf"@),
    ) {
        (
            Some(id),
            Some(customer),
            Some(subscription),
            Some(status),
            Some(amount_due),
            Some(amount_paid),
            Some(currency),
            Some(hosted_invoice_url),
            Some(pdf),
        ) => if holds_fields(t, 9) {
            Some(InvoiceFields { id, customer, subscription, status, amount_due, amount_paid, currency, hosted_invoice_url, pdf })
        } else {
            None
        },
        _ => None,
    }
}

impl InvoiceWebhookData {
    /// Reads the data out of a document, where it has the fields.
    pub fn from_json(raw: &Json) -> (r: Option<Self>)
        ensures
            match r {
                Some(d) => invoice_fields(raw.tree()) == Some(d@),
                None => invoice_fields(raw.tree()) is None,
            },
    {
        if !fits(raw, 9) {
            return None;
        }
        match (
            read_text(raw, 0, "id"),
            read_text(raw, 1, "customer"),
            read_opt_text(raw, 2, "subscription"),
            read_text(raw, 3, "status"),
            read_int_or_zero(raw, 4, "amount_due"),
            read_int_or_zero(raw, 5, "amount_paid"),
            read_text(raw, 6, "currency"),
            read_opt_text(raw, 7, "hosted_invoice_url"),
            read_opt_text(raw, 8, "pdf"),
        ) {
            (
                Some(id),
                Some(customer),
                Some(subscription),
                Some(status),
                Some(amount_due),
                Some(amount_paid),
                Some(currency),
                Some(hosted_invoice_url),
                Some(pdf),
            ) => Some(InvoiceWebhookData { id, customer, subscription, status, amount_due, amount_paid, currency, hosted_invoice_url, pdf }),
            _ => None,
        }
    }
}

/// Payment method webhook data
#[derive(Debug, Clone)]
pub struct PaymentMethodWebhookData {
    pub id: String,
    pub customer: Option<String>,
    pub method_type: String,
}

/// What a [`PaymentMethodWebhookData`] holds.
pub struct PaymentMethodFields {
    pub id: Seq<char>,
    pub customer: Option<Seq<char>>,
    pub method_type: Seq<char>,
}

impl View for PaymentMethodWebhookData {
    type V = PaymentMethodFields;

    open spec fn view(&self) -> PaymentMethodFields {
        PaymentMethodFields {
            id: self.id@,
            customer: text::opt_text(self.customer),
            method_type: self.method_type@,
        }
    }
}

/// The payment method data that a document holds.
pub open spec fn payment_method_fields(t: Tree) -> Option<PaymentMethodFields> {
    match (
        text_at(t, 0, "id"@),
        opt_text_at(t, 1, "customer"@),
        text_at(t, 2, "type"@),
    ) {
        (
            Some(id),
            Some(customer),
            Some(method_type),
        ) => if holds_fields(t, 3) {
            Some(PaymentMethodFields { id, customer, method_type })
        } else {
            None
        },
        _ => None,
    }
}

impl PaymentMethodWebhookData {
    /// Reads the data out of a document, where it has the fields.
    pub fn from_json(raw: &Json) -> (r: Option<Self>)
        ensures
            match r {
                Some(d) => payment_method_fields(raw.tree()) == Some(d@),
                None => payment_method_fields(raw.tree()) is None,
            },
    {
        if !fits(raw, 3) {
            return None;
        }
        match (
            read_text(raw, 0, "id"),
            read_opt_text(raw, 1, "customer"),
            read_text(raw, 2, "type"),
        ) {
            (
                Some(id),
                Some(customer),
                Some(method_type),
            ) => Some(PaymentMethodWebhookData { id, customer, method_type }),
            _ => None,
        }
    }
}

/// Webhook data payload
#[derive(Debug, Clone)]
pub enum WebhookData {
    /// Charge data
    Charge(ChargeWebhookData),
    /// Customer data
    Customer(CustomerWebhookData),
    /// Subscription data
    Subscription(SubscriptionWebhookData),
    /// Invoice data
    Invoice(InvoiceWebhookData),
    /// Payment method data
    PaymentMethod(PaymentMethodWebhookData),
    /// Generic/Unknown data
    Generic(Json),
}

/// What a [`WebhookData`] holds.
pub enum DataFields {
    Charge(ChargeFields),
    Customer(CustomerFields),
    Subscription(SubscriptionFields),
    Invoice(InvoiceFields),
    PaymentMethod(PaymentMethodFields),
    Generic(Tree),
}

impl View for WebhookData {
    type V = DataFields;

    open spec fn view(&self) -> DataFields {
        match *self {
            WebhookData::Charge(d) => DataFields::Charge(d@),
            WebhookData::Customer(d) => DataFields::Customer(d@),
            WebhookData::Subscription(d) => DataFields::Subscription(d@),
            WebhookData::Invoice(d) => DataFields::Invoice(d@),
            WebhookData::PaymentMethod(d) => DataFields::PaymentMethod(d@),
            WebhookData::Generic(j) => DataFields::Generic(j.tree()),
        }
    }
}

/// What a raw object is, for an event whose payload describes an object of the given class: the
/// typed data where it has the fields, and otherwise itself.
pub open spec fn interpreted(class: EventClass, raw: Tree) -> DataFields {
    match class {
        EventClass::Charge => match charge_fields(raw) {
            Some(d) => DataFields::Charge(d),
            None => DataFields::Generic(raw),
        },
        EventClass::Customer => match customer_fields(raw) {
            Some(d) => DataFields::Customer(d),
            None => DataFields::Generic(raw),
        },
        EventClass::Subscription => match subscription_fields(raw) {
            Some(d) => DataFields::Subscription(d),
            None => DataFields::Generic(raw),
        },
        EventClass::Invoice => match invoice_fields(raw) {
            Some(d) => DataFields::Invoice(d),
            None => DataFields::Generic(raw),
        },
        EventClass::PaymentMethod => match payment_method_fields(raw) {
            Some(d) => DataFields::PaymentMethod(d),
            None => DataFields::Generic(raw),
        },
        EventClass::Other => DataFields::Generic(raw),
    }
}

impl WebhookData {
    /// Interpret a raw webhook object according to its event type.
    ///
    /// This is total and loses nothing: a payload that does not have the fields of the typed shape
    /// stays as it is.
    pub fn from_event_type(event_type: &WebhookEventType, raw: Json) -> (r: WebhookData)
        ensures
            r@ == interpreted(event_type.class(), raw.tree()),
    {
        match event_type {
            WebhookEventType::ChargeSucceeded
            | WebhookEventType::ChargeFailed
            | WebhookEventType::ChargeRefunded
            | WebhookEventType::ChargeDisputed
            | WebhookEventType::ChargeCaptured
            | WebhookEventType::PaymentIntentSucceeded
            | WebhookEventType::PaymentIntentFailed
            | WebhookEventType::PaymentIntentCanceled
            | WebhookEventType::PaymentIntentProcessing
            | WebhookEventType::PaymentIntentRequiresAction => match ChargeWebhookData::from_json(&raw) {
                Some(d) => WebhookData::Charge(d),
                None => WebhookData::Generic(raw),
            },
            WebhookEventType::CustomerCreated
            | WebhookEventType::CustomerUpdated
            | WebhookEventType::CustomerDeleted => match CustomerWebhookData::from_json(&raw) {
                Some(d) => WebhookData::Customer(d),
                None => WebhookData::Generic(raw),
            },
            WebhookEventType::SubscriptionCreated
            | WebhookEventType::SubscriptionUpdated
            | WebhookEventType::SubscriptionCanceled
            | WebhookEventType::SubscriptionTrialEnding
            | WebhookEventType::SubscriptionPastDue => match SubscriptionWebhookData::from_json(&raw) {
                Some(d) => WebhookData::Subscription(d),
                None => WebhookData::Generic(raw),
            },
            WebhookEventType::InvoiceCreated
            | WebhookEventType::InvoicePaid
            | WebhookEventType::InvoicePaymentFailed
            | WebhookEventType::InvoiceUpcoming
            | WebhookEventType::InvoiceFinalized => match InvoiceWebhookData::from_json(&raw) {
                Some(d) => WebhookData::Invoice(d),
                None => WebhookData::Generic(raw),
            },
            WebhookEventType::PaymentMethodAttached
            | WebhookEventType::PaymentMethodDetached
            | WebhookEventType::PaymentMethodUpdated => match PaymentMethodWebhookData::from_json(&raw) {
                Some(d) => WebhookData::PaymentMethod(d),
                None => WebhookData::Generic(raw),
            },
            _ => WebhookData::Generic(raw),
        }
    }
}

/// A payload is never lost: what does not become typed data is handed on unchanged.
pub proof fn untyped_payload_is_kept(class: EventClass, raw: Tree)
    ensures
        interpreted(class, raw) matches DataFields::Generic(kept) ==> kept == raw,
        class is Other ==> interpreted(class, raw) == DataFields::Generic(raw),
{
}

} // verus!
