//! What typed payloads take from a document.
use crate::json::{self, NumberTree, Tree};
use crate::payload::{
    self, ChargeWebhookData, CustomerWebhookData, DataFields, InvoiceWebhookData, PaymentMethodWebhookData,
    SubscriptionWebhookData, WebhookData,
};
use crate::string_map;
use crate::text;
use crate::webhook::EventClass;
use vstd::prelude::*;

verus! {

/// Whether what was found is the given text.
pub open spec fn reads_text(found: Option<Tree>, value: Seq<char>) -> bool {
    found == Some(Tree::Text(value))
}

/// Whether what was found, or was not, stands for the given optional text.
pub open spec fn reads_opt_text(found: Option<Tree>, value: Option<Seq<char>>) -> bool {
    match value {
        Some(s) => found == Some(Tree::Text(s)),
        None => found is None || found == Some(Tree::Null),
    }
}

/// Whether what was found is the given integer of 64 bits.
pub open spec fn reads_int(found: Option<Tree>, value: int) -> bool {
    found == Some(Tree::Number(NumberTree::Int(value))) && i64::MIN <= value <= i64::MAX
}

/// Whether what was found, or was not, stands for the given integer, which is zero where nothing was.
pub open spec fn reads_int_or_zero(found: Option<Tree>, value: int) -> bool {
    (found is None && value == 0) || reads_int(found, value)
}

/// Whether what was found, or was not, stands for the given optional integer.
pub open spec fn reads_opt_int(found: Option<Tree>, value: Option<int>) -> bool {
    match value {
        Some(n) => reads_int(found, n),
        None => found is None || found == Some(Tree::Null),
    }
}

/// Whether what was found, or was not, stands for the given flag, which is not set where nothing was.
pub open spec fn reads_flag(found: Option<Tree>, value: bool) -> bool {
    (found is None && !value) || found == Some(Tree::Bool(value))
}

/// Whether what was found, or was not, stands for the given texts by name.
pub open spec fn reads_map(found: Option<Tree>, value: Map<Seq<char>, Seq<char>>) -> bool {
    match found {
        None => value == Map::<Seq<char>, Seq<char>>::empty(),
        Some(Tree::Object(members)) => {
            &&& forall|i: int| 0 <= i < members.len() ==> (#[trigger] members[i]).1 is Text
            &&& value == string_map::map_of(payload::text_members(members))
        },
        _ => false,
    }
}

/// A part of a document is found by its name where the document is an object, and by its place where
/// it is a list. Nothing else has parts.
pub proof fn parts_are_found_by_name_or_place(t: Tree, index: nat, name: Seq<char>)
    ensures
        t is Object ==> payload::field(t, index, name) == json::member(t, name),
        t matches Tree::Array(items) ==> (index < items.len() ==> payload::field(t, index, name) == Some(
            items[index as int],
        )),
        t matches Tree::Array(items) ==> (index >= items.len() ==> payload::field(t, index, name) is None),
        !(t is Object) && !(t is Array) ==> payload::field(t, index, name) is None,
        payload::holds_fields(t, index) <==> t is Object || (t is Array && t->Array_0.len() <= index),
{
}

proof fn lemma_reads(t: Tree, index: nat, name: Seq<char>)
    ensures
        ({
            let found = payload::field(t, index, name);
            &&& payload::text_at(t, index, name) matches Some(v) ==> reads_text(found, v)
            &&& payload::opt_text_at(t, index, name) matches Some(v) ==> reads_opt_text(found, v)
            &&& payload::int_at(t, index, name) matches Some(v) ==> reads_int(found, v)
            &&& payload::int_or_zero_at(t, index, name) matches Some(v) ==> reads_int_or_zero(found, v)
            &&& payload::opt_int_at(t, index, name) matches Some(v) ==> reads_opt_int(found, v)
            &&& payload::flag_at(t, index, name) matches Some(v) ==> reads_flag(found, v)
            &&& payload::map_at(t, index, name) matches Some(v) ==> reads_map(found, v)
            &&& forall|v: Seq<char>| #[trigger] reads_text(found, v) ==> payload::text_at(t, index, name) == Some(v)
            &&& forall|v: Option<Seq<char>>| #[trigger]
                reads_opt_text(found, v) ==> payload::opt_text_at(t, index, name) == Some(v)
            &&& forall|v: int| #[trigger] reads_int(found, v) ==> payload::int_at(t, index, name) == Some(v)
            &&& forall|v: int| #[trigger]
                reads_int_or_zero(found, v) ==> payload::int_or_zero_at(t, index, name) == Some(v)
            &&& forall|v: Option<int>| #[trigger]
                reads_opt_int(found, v) ==> payload::opt_int_at(t, index, name) == Some(v)
            &&& forall|v: bool| #[trigger] reads_flag(found, v) ==> payload::flag_at(t, index, name) == Some(v)
            &&& forall|v: Map<Seq<char>, Seq<char>>| #[trigger]
                reads_map(found, v) ==> payload::map_at(t, index, name) == Some(v)
        }),
{
}

/// A charge is taken from a document by the names of its parts, or by their places in a list. Its
/// id, amount, currency and status must be there; the others may be absent.
pub proof fn charge_is_taken_by_name(t: Tree, d: payload::ChargeFields)
    ensures
        payload::charge_fields(t) == Some(d) <==> {
            &&& t is Object || (t is Array && t->Array_0.len() <= 9)
            &&& reads_text(payload::field(t, 0, "id"@), d.id)
            &&& reads_int(payload::field(t, 1, "amount"@), d.amount)
            &&& reads_text(payload::field(t, 2, "currency"@), d.currency)
            &&& reads_text(payload::field(t, 3, "status"@), d.status)
            &&& reads_opt_text(payload::field(t, 4, "customer"@), d.customer)
            &&& reads_opt_text(payload::field(t, 5, "payment_method"@), d.payment_method)
            &&& reads_opt_text(payload::field(t, 6, "failure_code"@), d.failure_code)
            &&& reads_opt_text(payload::field(t, 7, "failure_message"@), d.failure_message)
            &&& reads_map(payload::field(t, 8, "metadata"@), d.metadata)
        },
{
    lemma_reads(t, 0, "id"@);
    lemma_reads(t, 1, "amount"@);
    lemma_reads(t, 2, "currency"@);
    lemma_reads(t, 3, "status"@);
    lemma_reads(t, 4, "customer"@);
    lemma_reads(t, 5, "payment_method"@);
    lemma_reads(t, 6, "failure_code"@);
    lemma_reads(t, 7, "failure_message"@);
    lemma_reads(t, 8, "metadata"@);
}

/// A customer is taken from a document in the same way. Its id must be there; the others may be
/// absent.
pub proof fn customer_is_taken_by_name(t: Tree, d: payload::CustomerFields)
    ensures
        payload::customer_fields(t) == Some(d) <==> {
            &&& t is Object || (t is Array && t->Array_0.len() <= 4)
            &&& reads_text(payload::field(t, 0, "id"@), d.id)
            &&& reads_opt_text(payload::field(t, 1, "email"@), d.email)
            &&& reads_opt_text(payload::field(t, 2, "name"@), d.name)
            &&& reads_map(payload::field(t, 3, "metadata"@), d.metadata)
        },
{
    lemma_reads(t, 0, "id"@);
    lemma_reads(t, 1, "email"@);
    lemma_reads(t, 2, "name"@);
    lemma_reads(t, 3, "metadata"@);
}

/// A subscription is taken from a document in the same way. Its id, customer and status must be
/// there. An absent period is zero, and an absent flag is not set.
pub proof fn subscription_is_taken_by_name(t: Tree, d: payload::SubscriptionFields)
    ensures
        payload::subscription_fields(t) == Some(d) <==> {
            &&& t is Object || (t is Array && t->Array_0.len() <= 8)
            &&& reads_text(payload::field(t, 0, "id"@), d.id)
            &&& reads_text(payload::field(t, 1, "customer"@), d.customer)
            &&& reads_text(payload::field(t, 2, "status"@), d.status)
            &&& reads_int_or_zero(payload::field(t, 3, "current_period_start"@), d.current_period_start)
            &&& reads_int_or_zero(payload::field(t, 4, "current_period_end"@), d.current_period_end)
            &&& reads_flag(payload::field(t, 5, "cancel_at_period_end"@), d.cancel_at_period_end)
            &&& reads_opt_int(payload::field(t, 6, "trial_end"@), d.trial_end)
            &&& reads_map(payload::field(t, 7, "metadata"@), d.metadata)
        },
{
    lemma_reads(t, 0, "id"@);
    lemma_reads(t, 1, "customer"@);
    lemma_reads(t, 2, "status"@);
    lemma_reads(t, 3, "current_period_start"@);
    lemma_reads(t, 4, "current_period_end"@);
    lemma_reads(t, 5, "cancel_at_period_end"@);
    lemma_reads(t, 6, "trial_end"@);
    lemma_reads(t, 7, "metadata"@);
}

/// An invoice is taken from a document in the same way. Its id, customer, status and currency must
/// be there; an absent amount is zero.
pub proof fn invoice_is_taken_by_name(t: Tree, d: payload::InvoiceFields)
    ensures
        payload::invoice_fields(t) == Some(d) <==> {
            &&& t is Object || (t is Array && t->Array_0.len() <= 9)
            &&& reads_text(payload::field(t, 0, "id"@), d.id)
            &&& reads_text(payload::field(t, 1, "customer"@), d.customer)
            &&& reads_opt_text(payload::field(t, 2, "subscription"@), d.subscription)
            &&& reads_text(payload::field(t, 3, "status"@), d.status)
            &&& reads_int_or_zero(payload::field(t, 4, "amount_due"@), d.amount_due)
            &&& reads_int_or_zero(payload::field(t, 5, "amount_paid"@), d.amount_paid)
            &&& reads_text(payload::field(t, 6, "currency"@), d.currency)
            &&& reads_opt_text(payload::field(t, 7, "hosted_invoice_url"@), d.hosted_invoice_url)
            &&& reads_opt_text(payload::field(t, 8, "pdf"@), d.pdf)
        },
{
    lemma_reads(t, 0, "id"@);
    lemma_reads(t, 1, "customer"@);
    lemma_reads(t, 2, "subscription"@);
    lemma_reads(t, 3, "status"@);
    lemma_reads(t, 4, "amount_due"@);
    lemma_reads(t, 5, "amount_paid"@);
    lemma_reads(t, 6, "currency"@);
    lemma_reads(t, 7, "hosted_invoice_url"@);
    lemma_reads(t, 8, "pdf"@);
}

/// A payment method is taken from a document in the same way. Its id and its type must be there.
pub proof fn payment_method_is_taken_by_name(t: Tree, d: payload::PaymentMethodFields)
    ensures
        payload::payment_method_fields(t) == Some(d) <==> {
            &&& t is Object || (t is Array && t->Array_0.len() <= 3)
            &&& reads_text(payload::field(t, 0, "id"@), d.id)
            &&& reads_opt_text(payload::field(t, 1, "customer"@), d.customer)
            &&& reads_text(payload::field(t, 2, "type"@), d.method_type)
        },
{
    lemma_reads(t, 0, "id"@);
    lemma_reads(t, 1, "customer"@);
    lemma_reads(t, 2, "type"@);
}

/// What typed data is said to hold is what its fields hold.
pub proof fn data_holds_its_fields(
    charge: ChargeWebhookData,
    customer: CustomerWebhookData,
    subscription: SubscriptionWebhookData,
    invoice: InvoiceWebhookData,
    method: PaymentMethodWebhookData,
)
    ensures
        charge@.id == charge.id@,
        charge@.amount == charge.amount as int,
        charge@.currency == charge.currency@,
        charge@.status == charge.status@,
        charge@.customer == text::opt_text(charge.customer),
        charge@.payment_method == text::opt_text(charge.payment_method),
        charge@.failure_code == text::opt_text(charge.failure_code),
        charge@.failure_message == text::opt_text(charge.failure_message),
        charge@.metadata == charge.metadata@,
        customer@.id == customer.id@,
        customer@.email == text::opt_text(customer.email),
        customer@.name == text::opt_text(customer.name),
        customer@.metadata == customer.metadata@,
        subscription@.id == subscription.id@,
        subscription@.customer == subscription.customer@,
        subscription@.status == subscription.status@,
        subscription@.current_period_start == subscription.current_period_start as int,
        subscription@.current_period_end == subscription.current_period_end as int,
        subscription@.cancel_at_period_end == subscription.cancel_at_period_end,
        subscription@.trial_end == payload::opt_int(subscription.trial_end),
        subscription@.metadata == subscription.metadata@,
        invoice@.id == invoice.id@,
        invoice@.customer == invoice.customer@,
        invoice@.subscription == text::opt_text(invoice.subscription),
        invoice@.status == invoice.status@,
        invoice@.amount_due == invoice.amount_due as int,
        invoice@.amount_paid == invoice.amount_paid as int,
        invoice@.currency == invoice.currency@,
        invoice@.hosted_invoice_url == text::opt_text(invoice.hosted_invoice_url),
        invoice@.pdf == text::opt_text(invoice.pdf),
        method@.id == method.id@,
        method@.customer == text::opt_text(method.customer),
        method@.method_type == method.method_type@,
        WebhookData::Charge(charge)@ == DataFields::Charge(charge@),
        WebhookData::Customer(customer)@ == DataFields::Customer(customer@),
        WebhookData::Subscription(subscription)@ == DataFields::Subscription(subscription@),
        WebhookData::Invoice(invoice)@ == DataFields::Invoice(invoice@),
        WebhookData::PaymentMethod(method)@ == DataFields::PaymentMethod(method@),
{
}

/// A payload is read as the object that the event is about, where it has the parts of one, and is
/// otherwise kept as it is. It is never read as anything else.
pub proof fn payload_is_read_as_its_object(class: EventClass, raw: Tree)
    ensures
        ({
            let data = payload::interpreted(class, raw);
            &&& class is Charge ==> (payload::charge_fields(raw) matches Some(d) ==> data == DataFields::Charge(d))
            &&& class is Charge ==> (payload::charge_fields(raw) is None ==> data == DataFields::Generic(raw))
            &&& data is Charge ==> class is Charge
            &&& class is Customer ==> (payload::customer_fields(raw) matches Some(d) ==> data == DataFields::Customer(d))
            &&& class is Customer ==> (payload::customer_fields(raw) is None ==> data == DataFields::Generic(raw))
            &&& data is Customer ==> class is Customer
            &&& class is Subscription ==> (payload::subscription_fields(raw) matches Some(d) ==> data == DataFields::Subscription(d))
            &&& class is Subscription ==> (payload::subscription_fields(raw) is None ==> data == DataFields::Generic(raw))
            &&& data is Subscription ==> class is Subscription
            &&& class is Invoice ==> (payload::invoice_fields(raw) matches Some(d) ==> data == DataFields::Invoice(d))
            &&& class is Invoice ==> (payload::invoice_fields(raw) is None ==> data == DataFields::Generic(raw))
            &&& data is Invoice ==> class is Invoice
            &&& class is PaymentMethod ==> (payload::payment_method_fields(raw) matches Some(d) ==> data == DataFields::PaymentMethod(d))
            &&& class is PaymentMethod ==> (payload::payment_method_fields(raw) is None ==> data == DataFields::Generic(raw))
            &&& data is PaymentMethod ==> class is PaymentMethod
            &&& class is Other ==> data == DataFields::Generic(raw)
        }),
{
}

} // verus!
