//! What Braintree is sent, and how its answers are read.
use crate::clock::{self, Timestamp};
use crate::crypto;
use crate::error::{Fault, PaymentResult};
use crate::gateway::{self, GatewayReply};
use crate::json::{self, Tree};
use crate::money::{self, Currency, Money};
use crate::providers::braintree::{self, BraintreeTransaction};
use crate::providers::braintree_vault::{
    self, BraintreeCreditCard, BraintreeCustomer, BraintreePayPalAccount, BraintreePaymentMethod, BraintreeSubscription,
};
use crate::string_map::StringMap;
use crate::text;
use crate::types::{
    CardFunding, Charge, ChargeRequest, ChargeStatus, Customer, PaymentMethod, PaymentMethodType, PaymentSource,
    RefundRequest, RefundStatus, Subscription, SubscriptionStatus,
};
use vstd::prelude::*;
use vstd::utf8::*;

verus! {

/// The API of a merchant is below its gateway, under the merchant's id, however many slashes the
/// origin ends with; the keys go along in one credential.
pub proof fn merchant_is_below_its_gateway(origin: Seq<char>, merchant_id: Seq<char>, public: Seq<char>, private: Seq<char>)
    ensures
        braintree::merchant_url(origin, merchant_id) == text::trim_end_of(origin, '/') + "/merchants/"@ + merchant_id,
        braintree::merchant_url(origin.push('/'), merchant_id) == braintree::merchant_url(origin, merchant_id),
        braintree::basic_credential(public, private) == "Basic "@ + crypto::base64_text(
            encode_utf8(public + ":"@ + private),
        ),
{
    assert(origin.push('/').drop_last() =~= origin);
}

/// A card's nonce and a vaulted method's token each travel as what they are. A customer alone, or the
/// token of a bank account, cannot be charged.
pub proof fn sources_are_told_apart(source: PaymentSource)
    ensures
        source matches PaymentSource::Card { token } ==> braintree::instrument(source) == Ok::<_, Fault>(
            (Some(token@), None::<Seq<char>>),
        ),
        source matches PaymentSource::PaymentMethod { id } ==> braintree::instrument(source) == Ok::<_, Fault>(
            (None::<Seq<char>>, Some(id@)),
        ),
        source is Customer || source is Bank ==> (braintree::instrument(source) matches Err(fault) && fault is Validation),
{
}

/// What is found in the transaction of a charge request is the first of its parts that has the name.
proof fn lemma_transaction(request: ChargeRequest, nonce: Option<Seq<char>>, token: Option<Seq<char>>, name: Seq<char>)
    ensures
        "amount"@.len() == 6,
        "payment_method_nonce"@.len() == 20 && "payment_method_nonce"@[15] == 'n',
        "payment_method_token"@.len() == 20 && "payment_method_token"@[15] == 't',
        "customer_id"@.len() == 11,
        "custom_fields"@.len() == 13,
        "options"@.len() == 7,
        ({
            let sent = json::member(braintree::transaction_tree(request, nonce, token), "transaction"@);
            let customer = text::opt_text(request.customer_id);
            &&& sent is Some
            &&& json::member(sent->0, name) == (if name == "amount"@ {
                Some(Tree::Text(money::gateway_text(request.amount)))
            } else if name == "payment_method_nonce"@ && nonce is Some {
                Some(Tree::Text(nonce->0))
            } else if name == "payment_method_token"@ && token is Some {
                Some(Tree::Text(token->0))
            } else if name == "customer_id"@ && customer is Some {
                Some(Tree::Text(customer->0))
            } else if name == "custom_fields"@ && request.metadata@ != Map::<Seq<char>, Seq<char>>::empty() {
                Some(json::text_tree(request.metadata.listed()))
            } else if name == "options"@ {
                Some(Tree::Object(seq![("submit_for_settlement"@, Tree::Bool(request.capture))]))
            } else {
                None
            })
        }),
{
    reveal_strlit("amount");
    reveal_strlit("payment_method_nonce");
    reveal_strlit("payment_method_token");
    reveal_strlit("customer_id");
    reveal_strlit("custom_fields");
    reveal_strlit("options");
    let amount = Tree::Text(money::gateway_text(request.amount));
    let customer = text::opt_text(request.customer_id);
    let listed = json::text_tree(request.metadata.listed());
    let options = Tree::Object(seq![("submit_for_settlement"@, Tree::Bool(request.capture))]);
    let a = seq![("amount"@, amount)];
    let b = json::opt_member("payment_method_nonce"@, nonce);
    let c = json::opt_member("payment_method_token"@, token);
    let d = json::opt_member("customer_id"@, customer);
    let bare = request.metadata@ == Map::<Seq<char>, Seq<char>>::empty();
    let e = if bare {
        Seq::<(Seq<char>, Tree)>::empty()
    } else {
        seq![("custom_fields"@, listed)]
    };
    let f = seq![("options"@, options)];
    json::front_is_found_first(a, b, name);
    json::front_is_found_first(a + b, c, name);
    json::front_is_found_first(a + b + c, d, name);
    json::front_is_found_first(a + b + c + d, e, name);
    json::front_is_found_first(a + b + c + d + e, f, name);
    json::single_member_is_found("amount"@, amount, None, name);
    json::single_member_is_found("payment_method_nonce"@, amount, nonce, name);
    json::single_member_is_found("payment_method_token"@, amount, token, name);
    json::single_member_is_found("customer_id"@, amount, customer, name);
    json::single_member_is_found("custom_fields"@, listed, None, name);
    json::single_member_is_found("options"@, options, None, name);
    json::single_member_is_found("transaction"@, Tree::Object(a + b + c + d + e + f), None, "transaction"@);
}

/// In the document of every accepted charge, the transaction is submitted for settlement exactly where
/// the charge is to be captured. The amount is its text in its currency; the nonce, the token and the
/// customer are there where there are any, and each metadata entry is a custom field under its own
/// name.
pub proof fn charge_says_what_was_asked(request: ChargeRequest, nonce: Option<Seq<char>>, token: Option<Seq<char>>)
    requires
        braintree::instrument(request.source) == Ok::<_, Fault>((nonce, token)),
    ensures
        ({
            let sent = json::member(braintree::transaction_tree(request, nonce, token), "transaction"@)->0;
            let options = json::member(sent, "options"@)->0;
            &&& json::member(braintree::transaction_tree(request, nonce, token), "transaction"@) is Some
            &&& json::member(sent, "options"@) is Some
            &&& request.capture ==> json::member(options, "submit_for_settlement"@) == Some(Tree::Bool(true))
            &&& !request.capture ==> json::member(options, "submit_for_settlement"@) == Some(Tree::Bool(false))
            &&& json::member(sent, "amount"@) == Some(Tree::Text(money::gateway_text(request.amount)))
            &&& request.source matches PaymentSource::Card { token: t } ==> json::member(sent, "payment_method_nonce"@)
                == Some(Tree::Text(t@)) && json::member(sent, "payment_method_token"@) is None
            &&& request.source matches PaymentSource::PaymentMethod { id } ==> json::member(
                sent,
                "payment_method_token"@,
            ) == Some(Tree::Text(id@)) && json::member(sent, "payment_method_nonce"@) is None
            &&& request.customer_id matches Some(id) ==> json::member(sent, "customer_id"@) == Some(Tree::Text(id@))
            &&& request.customer_id is None ==> json::member(sent, "customer_id"@) is None
            &&& request.metadata@ == Map::<Seq<char>, Seq<char>>::empty() ==> json::member(sent, "custom_fields"@) is None
            &&& request.metadata@ != Map::<Seq<char>, Seq<char>>::empty() ==> json::member(sent, "custom_fields"@)
                == Some(json::text_tree(request.metadata.listed()))
        }),
{
    lemma_transaction(request, nonce, token, "amount"@);
    lemma_transaction(request, nonce, token, "payment_method_nonce"@);
    lemma_transaction(request, nonce, token, "payment_method_token"@);
    lemma_transaction(request, nonce, token, "customer_id"@);
    lemma_transaction(request, nonce, token, "custom_fields"@);
    lemma_transaction(request, nonce, token, "options"@);
    json::single_member_is_found(
        "submit_for_settlement"@,
        Tree::Bool(request.capture),
        None,
        "submit_for_settlement"@,
    );
}

/// A refund or a capture names an amount exactly where only a part is meant, as its text in its
/// currency.
pub proof fn part_is_named(amount: Option<Money>)
    ensures
        amount matches Some(m) ==> json::member(braintree::amount_tree(amount), "amount"@) == Some(
            Tree::Text(money::gateway_text(m)),
        ),
        amount is None ==> braintree::amount_tree(amount) == Tree::Object(Seq::<(Seq<char>, Tree)>::empty()),
        json::member(Tree::Object(seq![("transaction"@, braintree::amount_tree(amount))]), "transaction"@) == Some(
            braintree::amount_tree(amount),
        ),
{
    let shown = match amount {
        Some(m) => Some(money::gateway_text(m)),
        None => None,
    };
    json::single_member_is_found("amount"@, Tree::Null, shown, "amount"@);
    json::single_member_is_found("transaction"@, braintree::amount_tree(amount), None, "transaction"@);
}

proof fn lemma_words()
    ensures
        "authorized"@.len() == 10 && "authorized"@[0] == 'a',
        "submitted_for_settlement"@.len() == 24,
        "settling"@.len() == 8,
        "settled"@.len() == 7,
        "voided"@.len() == 6 && "voided"@[0] == 'v',
        "processor_declined"@.len() == 18,
        "gateway_rejected"@.len() == 16,
        "failed"@.len() == 6 && "failed"@[0] == 'f',
        "Active"@.len() == 6,
        "Canceled"@.len() == 8 && "Canceled"@[0] == 'C',
        "Past Due"@.len() == 8 && "Past Due"@[0] == 'P',
        "Pending"@.len() == 7 && "Pending"@[0] == 'P',
        "Expired"@.len() == 7 && "Expired"@[0] == 'E',
{
    reveal_strlit("authorized");
    reveal_strlit("submitted_for_settlement");
    reveal_strlit("settling");
    reveal_strlit("settled");
    reveal_strlit("voided");
    reveal_strlit("processor_declined");
    reveal_strlit("gateway_rejected");
    reveal_strlit("failed");
    reveal_strlit("Active");
    reveal_strlit("Canceled");
    reveal_strlit("Past Due");
    reveal_strlit("Pending");
    reveal_strlit("Expired");
}

/// A charge has succeeded or failed, a refund has succeeded, failed or was canceled, and a subscription
/// has ended, is overdue or waits, exactly where Braintree names a status that says so.
pub proof fn statuses_are_read_as_named(status: Seq<char>)
    ensures
        braintree::charge_status(status) == ChargeStatus::Succeeded <==> status == "authorized"@ || status
            == "submitted_for_settlement"@ || status == "settling"@ || status == "settled"@,
        braintree::charge_status(status) == ChargeStatus::Failed <==> status == "voided"@ || status
            == "processor_declined"@ || status == "gateway_rejected"@,
        braintree::charge_status(status) == ChargeStatus::Pending <==> !(status == "authorized"@ || status
            == "submitted_for_settlement"@ || status == "settling"@ || status == "settled"@ || status == "voided"@
            || status == "processor_declined"@ || status == "gateway_rejected"@),
        braintree::refund_status(status) == RefundStatus::Succeeded <==> status == "settled"@ || status == "settling"@,
        braintree::refund_status(status) == RefundStatus::Failed <==> status == "processor_declined"@ || status
            == "gateway_rejected"@ || status == "failed"@,
        braintree::refund_status(status) == RefundStatus::Canceled <==> status == "voided"@,
        braintree_vault::subscription_status(status) == SubscriptionStatus::Canceled <==> status == "Canceled"@ || status
            == "Expired"@,
        braintree_vault::subscription_status(status) == SubscriptionStatus::PastDue <==> status == "Past Due"@,
        braintree_vault::subscription_status(status) == SubscriptionStatus::Incomplete <==> status == "Pending"@,
        braintree_vault::subscription_status(status) == SubscriptionStatus::Active <==> status != "Canceled"@ && status
            != "Expired"@ && status != "Past Due"@ && status != "Pending"@,
{
    lemma_words();
}

/// The amount of a transaction is read in the currency it names, dollars where it names none that is
/// known; one that cannot be read is an error that is not retried, and never an amount.
pub proof fn amount_is_read_or_refused(txn: BraintreeTransaction)
    ensures
        ({
            let code = text::opt_text(txn.currency_iso_code);
            let currency = braintree::currency_of(code);
            &&& code is None ==> currency == Currency::USD
            &&& code matches Some(c) ==> (money::currency_named(c) is None ==> currency == Currency::USD)
            &&& code matches Some(c) ==> (money::currency_named(c) matches Some(named) ==> currency == named)
            &&& money::gateway_money(txn.amount@, currency) matches Some(m) ==> braintree::amount_of(txn) == Ok::<
                Money,
                Fault,
            >(m)
            &&& money::gateway_money(txn.amount@, currency) is None ==> (braintree::amount_of(txn) matches Err(fault)
                && fault is Serialization && !fault.retryable())
        }),
{
}

/// What a reply to a charge or a capture says, is what the transaction says: its id, its status, its
/// amount, its customer, its method and what the processor said. It is captured exactly where it is
/// settled or settling.
pub proof fn transaction_is_read_as_given(
    reply: GatewayReply,
    decoded: Result<BraintreeTransaction, String>,
    not_found: Option<Fault>,
    metadata: StringMap,
    now: Timestamp,
)
    ensures
        ({
            let out = braintree::charge_outcome(reply, decoded, not_found, metadata, now);
            &&& out matches Ok(charge) ==> {
                &&& 200 <= reply.status < 300
                &&& decoded matches Ok(txn) && {
                    &&& charge.id == txn.id
                    &&& braintree::amount_of(txn) == Ok::<Money, Fault>(charge.amount)
                    &&& charge.amount_refunded.amount == 0 && charge.amount_refunded.currency == charge.amount.currency
                    &&& charge.status == ChargeStatus::Succeeded <==> txn.status@ == "authorized"@ || txn.status@
                        == "submitted_for_settlement"@ || txn.status@ == "settling"@ || txn.status@ == "settled"@
                    &&& charge.status == ChargeStatus::Failed <==> txn.status@ == "voided"@ || txn.status@
                        == "processor_declined"@ || txn.status@ == "gateway_rejected"@
                    &&& charge.captured <==> txn.status@ == "settled"@ || txn.status@ == "settling"@
                    &&& charge.customer_id == txn.customer_id
                    &&& charge.payment_method == txn.payment_method_token
                    &&& charge.failure_reason == txn.processor_response_text
                    &&& charge.description is None && charge.receipt_url is None
                    &&& charge.metadata == metadata
                    &&& !charge.refunded && !charge.disputed
                    &&& txn.created_at matches Some(t) ==> charge.created_at == t
                    &&& txn.created_at is None ==> charge.created_at == now
                }
            }
            &&& out is Ok <==> 200 <= reply.status < 300 && decoded is Ok && braintree::amount_of(decoded->Ok_0) is Ok
            &&& reply.status == 404 && not_found is Some ==> out == Err::<Charge, Fault>(not_found->0)
        }),
{
    lemma_words();
}

/// What a reply to a refund says, is what the transaction says: its id, its status and its amount. The
/// charge and the reason are those of the request.
pub proof fn refund_is_read_as_given(
    request: RefundRequest,
    reply: GatewayReply,
    decoded: Result<BraintreeTransaction, String>,
    now: Timestamp,
)
    ensures
        ({
            let out = braintree::refund_outcome(request, reply, decoded, now);
            &&& out matches Ok(refund) ==> {
                &&& decoded matches Ok(txn) && {
                    &&& refund.id == txn.id
                    &&& refund.charge_id == request.charge_id && refund.reason == request.reason
                    &&& braintree::amount_of(txn) == Ok::<Money, Fault>(refund.amount)
                    &&& refund.status == RefundStatus::Succeeded <==> txn.status@ == "settled"@ || txn.status@
                        == "settling"@
                    &&& refund.status == RefundStatus::Failed <==> txn.status@ == "processor_declined"@ || txn.status@
                        == "gateway_rejected"@ || txn.status@ == "failed"@
                    &&& refund.status == RefundStatus::Canceled <==> txn.status@ == "voided"@
                    &&& txn.created_at matches Some(t) ==> refund.created_at == t
                    &&& txn.created_at is None ==> refund.created_at == now
                }
            }
            &&& out is Ok <==> 200 <= reply.status < 300 && decoded is Ok && braintree::amount_of(decoded->Ok_0) is Ok
            &&& reply.status == 404 ==> (out matches Err(fault) && fault == Fault::ChargeNotFound(request.charge_id@))
        }),
{
    lemma_words();
}

/// The first word of a name is the first name, and all the others, in order and with a space between
/// them, are the last name. A blank name has two empty parts, and no name has none.
pub proof fn name_is_split_at_the_first_word(name: Seq<char>, first: Seq<char>, second: Seq<char>)
    ensures
        braintree::name_parts(None) == (None::<Seq<char>>, None::<Seq<char>>),
        text::words(name) == Seq::<Seq<char>>::empty() ==> braintree::name_parts(Some(name)) == (
            Some(Seq::<char>::empty()),
            Some(Seq::<char>::empty()),
        ),
        text::words(name) == seq![first] ==> braintree::name_parts(Some(name)) == (
            Some(first),
            Some(Seq::<char>::empty()),
        ),
        text::words(name) == seq![first, second] ==> braintree::name_parts(Some(name)) == (Some(first), Some(second)),
        text::words(name).len() > 0 ==> braintree::name_parts(Some(name)) == (
            Some(text::words(name)[0]),
            Some(text::join(text::words(name).skip(1), " "@)),
        ),
{
    assert(seq![first].skip(1) =~= Seq::<Seq<char>>::empty());
    assert(seq![first, second].skip(1) =~= seq![second]);
}

/// The document of a customer has the address, the two parts of the name and the number where there
/// are any, each under its own name.
pub proof fn customer_says_what_was_asked(email: Option<String>, name: Option<String>, phone: Option<String>)
    ensures
        ({
            let sent = json::member(braintree::customer_tree(email, name, phone), "customer"@)->0;
            let parts = braintree::name_parts(text::opt_text(name));
            &&& json::member(braintree::customer_tree(email, name, phone), "customer"@) is Some
            &&& email matches Some(s) ==> json::member(sent, "email"@) == Some(Tree::Text(s@))
            &&& email is None ==> json::member(sent, "email"@) is None
            &&& parts.0 matches Some(s) ==> json::member(sent, "first_name"@) == Some(Tree::Text(s))
            &&& parts.0 is None ==> json::member(sent, "first_name"@) is None
            &&& parts.1 matches Some(s) ==> json::member(sent, "last_name"@) == Some(Tree::Text(s))
            &&& parts.1 is None ==> json::member(sent, "last_name"@) is None
            &&& phone matches Some(s) ==> json::member(sent, "phone"@) == Some(Tree::Text(s@))
            &&& phone is None ==> json::member(sent, "phone"@) is None
        }),
{
    lemma_customer(email, name, phone, "email"@);
    lemma_customer(email, name, phone, "first_name"@);
    lemma_customer(email, name, phone, "last_name"@);
    lemma_customer(email, name, phone, "phone"@);
}

proof fn lemma_customer(email: Option<String>, name: Option<String>, phone: Option<String>, wanted: Seq<char>)
    ensures
        "email"@.len() == 5 && "email"@[0] == 'e',
        "first_name"@.len() == 10,
        "last_name"@.len() == 9,
        "phone"@.len() == 5 && "phone"@[0] == 'p',
        ({
            let sent = json::member(braintree::customer_tree(email, name, phone), "customer"@);
            let parts = braintree::name_parts(text::opt_text(name));
            &&& sent is Some
            &&& json::member(sent->0, wanted) == (if wanted == "email"@ && email is Some {
                Some(Tree::Text((email->0)@))
            } else if wanted == "first_name"@ && parts.0 is Some {
                Some(Tree::Text(parts.0->0))
            } else if wanted == "last_name"@ && parts.1 is Some {
                Some(Tree::Text(parts.1->0))
            } else if wanted == "phone"@ && phone is Some {
                Some(Tree::Text((phone->0)@))
            } else {
                None
            })
        }),
{
    reveal_strlit("email");
    reveal_strlit("first_name");
    reveal_strlit("last_name");
    reveal_strlit("phone");
    let parts = braintree::name_parts(text::opt_text(name));
    let none = Seq::<(Seq<char>, Tree)>::empty();
    let a = json::opt_member("email"@, text::opt_text(email));
    let b = json::opt_member("first_name"@, parts.0);
    let c = json::opt_member("last_name"@, parts.1);
    let d = json::opt_member("phone"@, text::opt_text(phone));
    json::front_is_found_first(none, a, wanted);
    json::front_is_found_first(none + a, b, wanted);
    json::front_is_found_first(none + a + b, c, wanted);
    json::front_is_found_first(none + a + b + c, d, wanted);
    json::single_member_is_found("email"@, Tree::Null, text::opt_text(email), wanted);
    json::single_member_is_found("first_name"@, Tree::Null, parts.0, wanted);
    json::single_member_is_found("last_name"@, Tree::Null, parts.1, wanted);
    json::single_member_is_found("phone"@, Tree::Null, text::opt_text(phone), wanted);
    json::single_member_is_found("customer"@, Tree::Object(none + a + b + c + d), None, "customer"@);
}

/// The document of a payment method has the customer it goes to and the nonce it is made from, where
/// there are any. The document of a subscription has its plan, and the method that pays for it where
/// there is one.
pub proof fn vault_says_what_was_asked(
    customer_id: Option<Seq<char>>,
    nonce: Option<Seq<char>>,
    plan_id: Seq<char>,
    token: Option<Seq<char>>,
)
    ensures
        ({
            let sent = json::member(braintree_vault::method_tree(customer_id, nonce), "payment_method"@)->0;
            &&& json::member(braintree_vault::method_tree(customer_id, nonce), "payment_method"@) is Some
            &&& customer_id matches Some(s) ==> json::member(sent, "customer_id"@) == Some(Tree::Text(s))
            &&& customer_id is None ==> json::member(sent, "customer_id"@) is None
            &&& nonce matches Some(s) ==> json::member(sent, "payment_method_nonce"@) == Some(Tree::Text(s))
            &&& nonce is None ==> json::member(sent, "payment_method_nonce"@) is None
        }),
        ({
            let sent = json::member(braintree_vault::plan_tree(plan_id, token), "subscription"@)->0;
            &&& json::member(braintree_vault::plan_tree(plan_id, token), "subscription"@) is Some
            &&& json::member(sent, "plan_id"@) == Some(Tree::Text(plan_id))
            &&& token matches Some(s) ==> json::member(sent, "payment_method_token"@) == Some(Tree::Text(s))
            &&& token is None ==> json::member(sent, "payment_method_token"@) is None
        }),
{
    reveal_strlit("customer_id");
    reveal_strlit("payment_method_nonce");
    reveal_strlit("plan_id");
    reveal_strlit("payment_method_token");
    assert("customer_id"@.len() == 11 && "payment_method_nonce"@.len() == 20);
    assert("plan_id"@.len() == 7 && "payment_method_token"@.len() == 20);
    let a = json::opt_member("customer_id"@, customer_id);
    let b = json::opt_member("payment_method_nonce"@, nonce);
    json::front_is_found_first(a, b, "customer_id"@);
    json::front_is_found_first(a, b, "payment_method_nonce"@);
    json::single_member_is_found("customer_id"@, Tree::Null, customer_id, "customer_id"@);
    json::single_member_is_found("customer_id"@, Tree::Null, customer_id, "payment_method_nonce"@);
    json::single_member_is_found("payment_method_nonce"@, Tree::Null, nonce, "customer_id"@);
    json::single_member_is_found("payment_method_nonce"@, Tree::Null, nonce, "payment_method_nonce"@);
    json::single_member_is_found("payment_method"@, Tree::Object(a + b), None, "payment_method"@);
    let plan = Tree::Text(plan_id);
    let c = seq![("plan_id"@, plan)];
    let d = json::opt_member("payment_method_token"@, token);
    json::front_is_found_first(c, d, "plan_id"@);
    json::front_is_found_first(c, d, "payment_method_token"@);
    json::single_member_is_found("plan_id"@, plan, None, "plan_id"@);
    json::single_member_is_found("plan_id"@, plan, None, "payment_method_token"@);
    json::single_member_is_found("payment_method_token"@, plan, token, "payment_method_token"@);
    json::single_member_is_found("subscription"@, Tree::Object(c + d), None, "subscription"@);
}

/// A customer is reported as Braintree gives it, with both parts of the name in one. A customer
/// without a name, or with a blank one of one part, has none.
pub proof fn customer_is_read_as_given(c: Customer, sent: BraintreeCustomer, metadata: StringMap, now: Timestamp)
    requires
        braintree_vault::is_customer(c, sent, metadata, now),
    ensures
        c.id == sent.id && c.email == sent.email && c.phone == sent.phone,
        c.metadata == metadata,
        c.description is None && c.default_payment_method is None && c.address is None,
        sent.first_name matches Some(f) ==> (sent.last_name matches Some(l) ==> text::opt_text(c.name) == Some(
            f@ + " "@ + l@,
        )),
        sent.first_name matches Some(f) ==> (sent.last_name is None && f@.len() > 0 ==> text::opt_text(c.name) == Some(
            f@,
        )),
        sent.last_name matches Some(l) ==> (sent.first_name is None && l@.len() > 0 ==> text::opt_text(c.name) == Some(
            l@,
        )),
        sent.first_name is None && sent.last_name is None ==> c.name is None,
        sent.created_at matches Some(t) ==> c.created_at == t,
        sent.created_at is None ==> c.created_at == now,
{
    reveal_strlit(" ");
    assert(" "@.len() == 1);
}

/// A vaulted card is a payment method of the customer with the card's token, brand, last digits and
/// month and year of expiry, as far as they are given. A vaulted account is one with its address.
pub proof fn vaulted_methods_are_read_as_given(
    m: PaymentMethod,
    card: BraintreeCreditCard,
    account: BraintreePayPalAccount,
    customer_id: Seq<char>,
    now: Timestamp,
)
    ensures
        braintree_vault::is_card_method(m, card, customer_id, now) ==> {
            &&& m.id == card.token
            &&& m.method_type == PaymentMethodType::Card
            &&& m.customer_id matches Some(id) && id@ == customer_id
            &&& m.card matches Some(info) && {
                &&& card.card_type matches Some(s) ==> info.brand@ == s@
                &&& card.last_4 matches Some(s) ==> info.last4@ == s@
                &&& card.expiration_month matches Some(s) ==> (text::parsed_int(s@, 0, u32::MAX as int) matches Some(n)
                    ==> info.exp_month == n)
                &&& card.expiration_year matches Some(s) ==> (text::parsed_int(s@, 0, u32::MAX as int) matches Some(n)
                    ==> info.exp_year == n)
                &&& card.card_type is None ==> info.brand@.len() == 0
                &&& card.last_4 is None ==> info.last4@.len() == 0
                &&& card.expiration_month is None ==> info.exp_month == 0
                &&& card.expiration_year is None ==> info.exp_year == 0
                &&& card.expiration_month matches Some(s) ==> (text::parsed_int(s@, 0, u32::MAX as int) is None
                    ==> info.exp_month == 0)
                &&& card.expiration_year matches Some(s) ==> (text::parsed_int(s@, 0, u32::MAX as int) is None
                    ==> info.exp_year == 0)
                &&& info.funding == CardFunding::Unknown
            }
            &&& m.billing_details is None
            &&& m.created_at == clock::reported_or(card.created_at, now)
        },
        braintree_vault::is_account_method(m, account, customer_id, now) ==> {
            &&& m.id == account.token
            &&& m.method_type == PaymentMethodType::Paypal
            &&& m.customer_id matches Some(id) && id@ == customer_id
            &&& m.card is None
            &&& account.email is None ==> m.billing_details is None
            &&& account.email matches Some(address) ==> (m.billing_details matches Some(b) && b.email == Some(address)
                && b.name is None && b.phone is None && b.address is None)
            &&& m.created_at == clock::reported_or(account.created_at, now)
        },
{
}

/// The vault of a customer is its cards and then its accounts, each once and in order.
pub proof fn vault_is_listed_in_full(
    methods: Seq<PaymentMethod>,
    sent: BraintreeCustomer,
    customer_id: Seq<char>,
    now: Timestamp,
)
    requires
        braintree_vault::is_vault(methods, sent, customer_id, now),
    ensures
        methods.len() == sent.credit_cards@.len() + sent.paypal_accounts@.len(),
        forall|i: int| 0 <= i < sent.credit_cards@.len() ==> methods[i].id == (#[trigger] sent.credit_cards@[i]).token,
        forall|i: int|
            0 <= i < sent.paypal_accounts@.len() ==> methods[sent.credit_cards@.len() + i].id == (
            #[trigger] sent.paypal_accounts@[i]).token,
{
    let n = sent.credit_cards@.len() as int;
    assert forall|i: int| 0 <= i < sent.credit_cards@.len() implies methods[i].id == (
    #[trigger] sent.credit_cards@[i]).token by {
        assert(braintree_vault::is_card_method(methods[i], sent.credit_cards@[i], customer_id, now));
    }
    assert forall|i: int| 0 <= i < sent.paypal_accounts@.len() implies methods[n + i].id == (
    #[trigger] sent.paypal_accounts@[i]).token by {
        assert(braintree_vault::is_account_method(methods[n + i], sent.paypal_accounts@[n + i - n], customer_id, now));
    }
}

/// A new payment method has the token and the customer that Braintree gives, and a card exactly where
/// Braintree names its type.
pub proof fn created_method_is_read_as_given(m: PaymentMethod, sent: BraintreePaymentMethod, now: Timestamp)
    requires
        braintree_vault::is_created_method(m, sent, now),
    ensures
        m.id == sent.token,
        m.method_type == PaymentMethodType::Card,
        m.customer_id == sent.customer_id,
        m.card is Some <==> sent.card_type is Some,
        m.card matches Some(info) ==> {
            &&& info.brand == sent.card_type->0
            &&& sent.last_4 matches Some(s) ==> info.last4@ == s@
            &&& sent.expiration_month matches Some(n) ==> info.exp_month == n
            &&& sent.expiration_year matches Some(n) ==> info.exp_year == n
            &&& sent.last_4 is None ==> info.last4@.len() == 0
            &&& sent.expiration_month is None ==> info.exp_month == 0
            &&& sent.expiration_year is None ==> info.exp_year == 0
            &&& info.funding == CardFunding::Unknown
        },
        m.billing_details is None,
        sent.created_at matches Some(t) ==> m.created_at == t,
        sent.created_at is None ==> m.created_at == now,
{
}

/// What a reply to an attachment or a removal of a payment method says: the method, or that there is
/// none, or the error of the status. An attached method belongs to the customer that Braintree names,
/// a removed one to none.
pub proof fn method_answers_are_told_apart(
    method_id: Seq<char>,
    reply: GatewayReply,
    decoded: Result<BraintreePaymentMethod, String>,
    now: Timestamp,
    r: PaymentResult<PaymentMethod>,
)
    ensures
        braintree_vault::attached_method_outcome(method_id, reply, decoded, now) matches Ok(m) ==> {
            &&& 200 <= reply.status < 300
            &&& decoded matches Ok(sent) && {
                &&& m.id == sent.token && m.customer_id == sent.customer_id
                &&& m.method_type == PaymentMethodType::Card
                &&& m.card is None && m.billing_details is None
                &&& m.created_at == clock::reported_or(sent.created_at, now)
            }
        },
        200 <= reply.status < 300 && decoded is Ok ==> braintree_vault::attached_method_outcome(
            method_id,
            reply,
            decoded,
            now,
        ) is Ok,
        reply.status == 404 ==> (braintree_vault::attached_method_outcome(method_id, reply, decoded, now) matches Err(
            fault,
        ) && fault == Fault::PaymentMethodNotFound(method_id)),
        braintree_vault::detached_method_outcome(method_id, reply, now, r) ==> {
            &&& r is Ok <==> 200 <= reply.status < 300
            &&& r matches Ok(m) ==> m.id@ == method_id && m.customer_id is None && m.card is None
            &&& r matches Ok(m) ==> m.method_type == PaymentMethodType::Card && m.created_at == now
            &&& r matches Err(e) ==> (reply.status != 404 ==> e@ == gateway::status_fault(
                "braintree"@,
                reply.status,
                reply.body@,
                reply.retry_after,
            ))
            &&& reply.status == 404 ==> (r matches Err(e) && e@ == Fault::PaymentMethodNotFound(method_id))
        },
{
}

/// A subscription is reported as Braintree gives it. Its period runs from the first second of its first
/// day to the last second of its last day, and it ends then exactly where it is said to expire.
pub proof fn subscription_is_read_as_given(s: Subscription, sent: BraintreeSubscription)
    requires
        braintree_vault::is_subscription(s, sent),
    ensures
        s.id == sent.id,
        s.customer_id is None,
        s.status == SubscriptionStatus::Canceled <==> sent.status@ == "Canceled"@ || sent.status@ == "Expired"@,
        s.status == SubscriptionStatus::PastDue <==> sent.status@ == "Past Due"@,
        s.status == SubscriptionStatus::Incomplete <==> sent.status@ == "Pending"@,
        sent.billing_period_start_day matches Some(d) ==> (s.current_period_start matches Some(t) && t.secs == d * 86_400
            && t.nanos == 0),
        sent.billing_period_start_day is None ==> s.current_period_start is None,
        sent.billing_period_end_day matches Some(d) ==> (s.current_period_end matches Some(t) && t.secs == (d + 1)
            * 86_400 - 1 && t.nanos == 0),
        sent.billing_period_end_day is None ==> s.current_period_end is None,
        s.cancel_at_period_end <==> sent.never_expires == Some(false),
        s.trial_end is None && s.canceled_at is None,
        s.metadata@ == Map::<Seq<char>, Seq<char>>::empty(),
        sent.plan_id matches Some(plan) ==> s.price_id@ == plan@,
        sent.plan_id is None ==> s.price_id@.len() == 0,
        sent.quantity matches Some(n) ==> s.quantity == n,
        sent.quantity is None ==> s.quantity == 1,
        s.created_at == sent.created_at,
{
    lemma_words();
}

/// What a reply about a customer, a vault, a new payment method or a subscription says: the resource as
/// it is read from what was sent, or the error that the reply stands for and nothing else.
pub proof fn vault_answers_are_told_apart(
    reply: GatewayReply,
    customer: Result<BraintreeCustomer, String>,
    method: Result<BraintreePaymentMethod, String>,
    subscription: Result<BraintreeSubscription, String>,
    not_found: Option<Fault>,
    customer_id: Seq<char>,
    metadata: StringMap,
    now: Timestamp,
    read_customer: PaymentResult<Customer>,
    read_vault: PaymentResult<Vec<PaymentMethod>>,
    read_method: PaymentResult<PaymentMethod>,
    read_subscription: PaymentResult<Subscription>,
)
    ensures
        braintree_vault::customer_outcome(reply, customer, not_found, metadata, now, read_customer) ==> {
            &&& read_customer is Ok <==> 200 <= reply.status < 300 && customer is Ok
            &&& read_customer matches Ok(c) ==> braintree_vault::is_customer(c, customer->Ok_0, metadata, now)
            &&& read_customer matches Err(e) ==> gateway::settled("braintree"@, reply, customer, not_found) == Err::<
                BraintreeCustomer,
                Fault,
            >(e@)
        },
        braintree_vault::vault_outcome(customer_id, reply, customer, now, read_vault) ==> {
            &&& read_vault is Ok <==> 200 <= reply.status < 300 && customer is Ok
            &&& read_vault matches Ok(methods) ==> braintree_vault::is_vault(
                methods@,
                customer->Ok_0,
                customer_id,
                now,
            )
            &&& reply.status == 404 ==> (read_vault matches Err(e) && e@ == Fault::CustomerNotFound(customer_id))
        },
        braintree_vault::created_method_outcome(reply, method, now, read_method) ==> {
            &&& read_method is Ok <==> 200 <= reply.status < 300 && method is Ok
            &&& read_method matches Ok(m) ==> braintree_vault::is_created_method(m, method->Ok_0, now)
            &&& read_method matches Err(e) ==> gateway::settled("braintree"@, reply, method, None) == Err::<
                BraintreePaymentMethod,
                Fault,
            >(e@)
        },
        braintree_vault::subscription_outcome(reply, subscription, not_found, read_subscription) ==> {
            &&& read_subscription is Ok <==> 200 <= reply.status < 300 && subscription is Ok
            &&& read_subscription matches Ok(s) ==> braintree_vault::is_subscription(s, subscription->Ok_0)
            &&& read_subscription matches Err(e) ==> gateway::settled("braintree"@, reply, subscription, not_found)
                == Err::<BraintreeSubscription, Fault>(e@)
        },
{
}

/// Why a source cannot be charged, and why an amount cannot be read.
pub proof fn refusals_are_explained(source: PaymentSource, txn: BraintreeTransaction)
    ensures
        source is Customer ==> (braintree::instrument(source) matches Err(fault) && fault == Fault::Validation(
            "Braintree cannot charge a customer's default payment method implicitly; look up the customer's vaulted payment methods with list_payment_methods and pass one as PaymentSource::PaymentMethod."@,
        )),
        source is Bank ==> (braintree::instrument(source) matches Err(fault) && fault == Fault::Validation(
            "Braintree does not accept bank-account tokens through this API; ACH must be tokenized client-side into a payment method nonce and passed as PaymentSource::Card, or vaulted and passed as PaymentSource::PaymentMethod."@,
        )),
        braintree::amount_of(txn) matches Err(fault) ==> fault == Fault::Serialization(
            "Braintree returned an unparseable transaction amount "@ + text::debug_text(txn.amount@)
                + " for transaction "@ + text::debug_text(txn.id@) + " (currency "@ + braintree::currency_of(
                text::opt_text(txn.currency_iso_code),
            ).spec_code()
                + "). The transaction may well have been processed — reconcile it against the gateway rather than assuming it did not happen."@,
        ),
{
}

} // verus!
