//! How webhooks are read, and when one is authentic.
use crate::clock::{self, Timestamp};
use crate::crypto;
use crate::error::{Fault, PaymentResult};
use crate::json::{self, Tree};
use crate::payload;
use crate::providers::notification::{self, BraintreeNotification, NotificationFields};
use crate::providers::paypal::PayPalFields;
use crate::providers::paypal_webhook::{self, PayPalVerifyRequest, PayPalVerifyResponse, PayPalWebhookEvent};
use crate::providers::stripe_webhook::{self, StripeWebhookEvent};
use crate::router;
use crate::text;
use crate::webhook::{self, WebhookEvent, WebhookEventType};
use crate::xml::{self, XmlToken};
use vstd::prelude::*;
use vstd::utf8::*;

verus! {

/// A header is found under its name in any case, and of two with one name the later counts.
pub proof fn later_header_counts(
    sent: Seq<(Seq<char>, Seq<char>)>,
    name: Seq<char>,
    value: Seq<char>,
    asked: Seq<char>,
)
    ensures
        webhook::header(webhook::header_set(sent.push((name, value))), asked) == (if text::lowercase(asked)
            == text::lowercase(name) {
            Some(value)
        } else {
            webhook::header(webhook::header_set(sent), asked)
        }),
        webhook::header(webhook::header_set(Seq::empty()), asked) is None,
{
    assert(sent.push((name, value)).drop_last() =~= sent);
    webhook::header_after_insert(webhook::header_set(sent), name, value, asked);
}

/// Two event types go to the same handler exactly where they are the same: by their name, and an
/// unknown event is never taken for a known one.
pub proof fn handlers_are_told_apart(a: WebhookEventType, b: WebhookEventType)
    ensures
        !(a is Unknown) && !(b is Unknown) ==> (router::type_key(a) == router::type_key(b) <==> a == b),
        a is Unknown && !(b is Unknown) ==> router::type_key(a) != router::type_key(b),
        a matches WebhookEventType::Unknown(x) ==> (b matches WebhookEventType::Unknown(y) ==> (router::type_key(a)
            == router::type_key(b) <==> x@ == y@)),
{
    if !(a is Unknown) && !(b is Unknown) && a.name() == b.name() {
        webhook::event_names_are_distinct(a, b);
    }
}

/// Of two handlers for one event type the later counts, and no other event type is touched.
pub proof fn later_handler_counts<H>(routes: Seq<(WebhookEventType, H)>, t: WebhookEventType, handler: H, other: WebhookEventType)
    ensures
        ({
            let table = router::handler_table(routes.push((t, handler)));
            &&& table.dom().contains(router::type_key(t))
            &&& table[router::type_key(t)] == handler
            &&& router::type_key(other) != router::type_key(t) ==> {
                &&& table.dom().contains(router::type_key(other)) <==> router::handler_table(routes).dom().contains(
                    router::type_key(other),
                )
                &&& table[router::type_key(other)] == router::handler_table(routes)[router::type_key(other)]
            }
        }),
{
    assert(routes.push((t, handler)).drop_last() =~= routes);
}

/// A part of Stripe's header is read as a name and a value: what stands before and behind its first
/// equals sign, without white space around it.
pub proof fn part_is_a_name_and_a_value(part: Seq<char>, name: Seq<char>, value: Seq<char>)
    requires
        text::lacks(name, '='),
    ensures
        stripe_webhook::part_value(part, name) == Some(value) <==> text::trim(part) == name + seq!['='] + value,
{
    let t = text::trim(part);
    text::divided_at_the_first(t, '=');
    if t == name + seq!['='] + value {
        text::lemma_split_once(name, '=', value);
    }
}

/// The signed time of Stripe's header is the last part named `t`, and its signatures are the parts
/// named `v1`, in order.
pub proof fn parts_are_read_by_name(parts: Seq<Seq<char>>, part: Seq<char>)
    ensures
        stripe_webhook::signed_time(Seq::empty()) is None,
        stripe_webhook::signatures(Seq::empty()).len() == 0,
        stripe_webhook::part_value(part, "t"@) matches Some(v) ==> stripe_webhook::signed_time(parts.push(part)) == Some(
            v,
        ),
        stripe_webhook::part_value(part, "t"@) is None ==> stripe_webhook::signed_time(parts.push(part))
            == stripe_webhook::signed_time(parts),
        stripe_webhook::part_value(part, "v1"@) matches Some(v) ==> stripe_webhook::signatures(parts.push(part))
            == stripe_webhook::signatures(parts).push(v),
        stripe_webhook::part_value(part, "v1"@) is None ==> stripe_webhook::signatures(parts.push(part))
            == stripe_webhook::signatures(parts),
{
    assert(parts.push(part).drop_last() =~= parts);
}

/// A signed time is recent enough exactly where it is no further from now than the tolerance, before
/// or behind; without a tolerance any is, and with one a time that is no number never is.
pub proof fn time_is_recent_within_the_tolerance(time: Seq<char>, limit: i64, now: Timestamp)
    ensures
        stripe_webhook::is_fresh(time, None, now),
        text::parsed_int(time, i64::MIN as int, i64::MAX as int) is None ==> !stripe_webhook::is_fresh(
            time,
            Some(limit),
            now,
        ),
        text::parsed_int(time, i64::MIN as int, i64::MAX as int) matches Some(signed_at) ==> (stripe_webhook::is_fresh(
            time,
            Some(limit),
            now,
        ) <==> now.secs - signed_at <= limit && signed_at - now.secs <= limit),
{
}

/// A body from Stripe is authentic exactly where a secret is set, the signature header is there and
/// has at most 1024 bytes and eight signatures, its time is recent enough, and one of its signatures
/// is the code, under the secret, of that time, a dot and the body.
pub proof fn stripe_body_is_authentic_when_signed(
    secret: Seq<char>,
    tolerance: Option<i64>,
    payload: Seq<u8>,
    headers: Map<Seq<char>, Seq<char>>,
    now: Timestamp,
)
    ensures
        stripe_webhook::verification(None, tolerance, payload, headers, now) == Err::<(), Fault>(
            Fault::Config("Webhook secret not configured"@),
        ),
        secret.len() == 0 ==> stripe_webhook::verification(Some(secret), tolerance, payload, headers, now) == Err::<
            (),
            Fault,
        >(Fault::Config("Webhook secret must not be empty"@)),
        secret.len() > 0 ==> {
            let verdict = stripe_webhook::verification(Some(secret), tolerance, payload, headers, now);
            let field = webhook::header(headers, "stripe-signature"@);
            let parts = text::split(field->0, ',');
            let time = stripe_webhook::signed_time(parts);
            let tags = stripe_webhook::signatures(parts);
            let content = encode_utf8(time->0) + seq![0x2eu8] + payload;
            &&& verdict is Ok <==> {
                &&& field is Some
                &&& encode_utf8(field->0).len() <= 1024
                &&& tags.len() <= 8
                &&& time is Some
                &&& stripe_webhook::is_fresh(time->0, tolerance, now)
                &&& exists|i: int|
                    0 <= i < tags.len() && crypto::hex_bytes(#[trigger] tags[i]) == Some(
                        crypto::hmac_sha256(encode_utf8(secret), content),
                    )
            }
            &&& verdict is Err ==> verdict == Err::<(), Fault>(Fault::InvalidWebhookSignature)
        },
{
    if secret.len() > 0 {
        let field = webhook::header(headers, "stripe-signature"@);
        let parts = text::split(field->0, ',');
        let time = stripe_webhook::signed_time(parts);
        let tags = stripe_webhook::signatures(parts);
        let content = encode_utf8(time->0) + seq![0x2eu8] + payload;
        assert(content =~= stripe_webhook::signed_content(time->0, payload));
        if stripe_webhook::any_signature(tags, secret, content) {
            let i = choose|i: int|
                0 <= i < tags.len() && stripe_webhook::is_signature(#[trigger] tags[i], secret, content);
            assert(crypto::hex_bytes(tags[i]) == Some(crypto::hmac_sha256(encode_utf8(secret), content)));
        }
        if exists|i: int|
            0 <= i < tags.len() && crypto::hex_bytes(#[trigger] tags[i]) == Some(
                crypto::hmac_sha256(encode_utf8(secret), content),
            ) {
            let i = choose|i: int|
                0 <= i < tags.len() && crypto::hex_bytes(#[trigger] tags[i]) == Some(
                    crypto::hmac_sha256(encode_utf8(secret), content),
                );
            assert(stripe_webhook::is_signature(tags[i], secret, content));
        }
    }
}

/// An event from Stripe is read as it was sent: its id, the type that its name tells, its time, and
/// whether it is live.
pub proof fn stripe_event_is_read_as_sent(e: WebhookEvent, sent: StripeWebhookEvent, now: Timestamp)
    requires
        stripe_webhook::is_event(e, sent, now),
    ensures
        e.id == sent.id,
        e.event_type.name() == sent.event_type@,
        e.livemode == sent.livemode,
        e.provider@ == "stripe"@,
        e.created_at == clock::instant_or(sent.created, now),
        e.data@ == payload::interpreted(e.event_type.class(), sent.object.tree()),
        sent.event_type@ == "charge.succeeded"@ <==> e.event_type is ChargeSucceeded,
        sent.event_type@ == "charge.failed"@ <==> e.event_type is ChargeFailed,
        sent.event_type@ == "charge.refunded"@ <==> e.event_type is ChargeRefunded,
        sent.event_type@ == "charge.dispute.created"@ <==> e.event_type is DisputeCreated,
        sent.event_type@ == "invoice.paid"@ <==> e.event_type is InvoicePaid,
        sent.event_type@ == "invoice.payment_failed"@ <==> e.event_type is InvoicePaymentFailed,
        sent.event_type@ == "customer.subscription.deleted"@ <==> e.event_type is SubscriptionCanceled,
{
    webhook::name_tells_the_event(sent.event_type@, e.event_type);
}

/// A body from Stripe that is not authentic is never handed back, and the reason is; one that is
/// authentic comes to the event that it is, or to why it cannot be read.
pub proof fn stripe_refusal_is_handed_back(
    verified: Result<(), Fault>,
    decoded: Result<StripeWebhookEvent, String>,
    now: Timestamp,
    r: PaymentResult<WebhookEvent>,
)
    requires
        stripe_webhook::handled(verified, decoded, now, r),
    ensures
        verified matches Err(fault) ==> (r matches Err(e) && e@ == fault),
        r is Ok <==> verified is Ok && decoded is Ok,
        verified is Ok ==> (decoded matches Err(reason) ==> (r matches Err(e) && e@ == Fault::Serialization(reason@))),
        r matches Ok(e) ==> stripe_webhook::is_event(e, decoded->Ok_0, now),
{
}

/// Of a webhook from PayPal, the body and the five headers of the transmission go back to PayPal,
/// each as what it is, with the id of the webhook. They go back exactly where an id is set, the body
/// has at most 262144 bytes and is a JSON document, and all five headers are there.
pub proof fn paypal_is_asked_about_what_came(
    webhook_id: Option<Seq<char>>,
    payload: Seq<u8>,
    headers: Map<Seq<char>, Seq<char>>,
)
    ensures
        ({
            let asked = paypal_webhook::forwarded(webhook_id, payload, headers);
            &&& asked is Ok <==> {
                &&& webhook_id is Some
                &&& payload.len() <= 262_144
                &&& valid_utf8(payload)
                &&& paypal_webhook::is_json_text(decode_utf8(payload))
                &&& webhook::header(headers, "paypal-auth-algo"@) is Some
                &&& webhook::header(headers, "paypal-cert-url"@) is Some
                &&& webhook::header(headers, "paypal-transmission-id"@) is Some
                &&& webhook::header(headers, "paypal-transmission-sig"@) is Some
                &&& webhook::header(headers, "paypal-transmission-time"@) is Some
            }
            &&& asked matches Ok(q) ==> {
                &&& Some(q.auth_algo) == webhook::header(headers, "paypal-auth-algo"@)
                &&& Some(q.cert_url) == webhook::header(headers, "paypal-cert-url"@)
                &&& Some(q.transmission_id) == webhook::header(headers, "paypal-transmission-id"@)
                &&& Some(q.transmission_sig) == webhook::header(headers, "paypal-transmission-sig"@)
                &&& Some(q.transmission_time) == webhook::header(headers, "paypal-transmission-time"@)
                &&& Some(q.webhook_id) == webhook_id
            }
            &&& webhook_id is None ==> (asked matches Err(fault) && fault is Config)
            &&& webhook_id is Some && asked is Err ==> asked->Err_0 == Fault::InvalidWebhookSignature
        }),
        paypal_webhook::PAYPAL_VERIFY_PATH@ == "/v1/notifications/verify-webhook-signature"@,
{
}

/// The body that goes back to PayPal is the very text that came, but for white space around it.
pub proof fn paypal_sees_the_text_that_came(s: Seq<char>) -> (ends: (Seq<char>, Seq<char>))
    ensures
        ({
            let kept = paypal_webhook::before_space(paypal_webhook::after_space(s));
            &&& s == ends.0 + kept + ends.1
            &&& forall|i: int| 0 <= i < ends.0.len() ==> text::whitespace(#[trigger] ends.0[i])
            &&& forall|i: int| 0 <= i < ends.1.len() ==> text::whitespace(#[trigger] ends.1[i])
        }),
{
    let cut = lemma_after_space(s);
    let t = s.skip(cut);
    let kept = lemma_before_space(t);
    assert(s =~= s.take(cut) + t.take(kept) + t.skip(kept));
    (s.take(cut), t.skip(kept))
}

proof fn lemma_after_space(s: Seq<char>) -> (cut: int)
    ensures
        0 <= cut <= s.len(),
        paypal_webhook::after_space(s) == s.skip(cut),
        forall|i: int| 0 <= i < cut ==> text::whitespace(#[trigger] s.take(cut)[i]),
    decreases s.len(),
{
    if s.len() > 0 && paypal_webhook::json_space(s[0]) {
        let rest = lemma_after_space(s.skip(1));
        assert(s.skip(1).skip(rest) =~= s.skip(rest + 1));
        assert forall|i: int| 0 <= i < rest + 1 implies text::whitespace(#[trigger] s.take(rest + 1)[i]) by {
            if i > 0 {
                assert(s.skip(1).take(rest)[i - 1] == s[i]);
            }
        }
        rest + 1
    } else {
        assert(s.skip(0) =~= s);
        0
    }
}

proof fn lemma_before_space(s: Seq<char>) -> (kept: int)
    ensures
        0 <= kept <= s.len(),
        paypal_webhook::before_space(s) == s.take(kept),
        forall|i: int| 0 <= i < s.len() - kept ==> text::whitespace(#[trigger] s.skip(kept)[i]),
    decreases s.len(),
{
    if s.len() > 0 && paypal_webhook::json_space(s.last()) {
        let kept = lemma_before_space(s.drop_last());
        assert(s.drop_last().take(kept) =~= s.take(kept));
        assert forall|i: int| 0 <= i < s.len() - kept implies text::whitespace(#[trigger] s.skip(kept)[i]) by {
            if kept + i < s.len() - 1 {
                assert(s.drop_last().skip(kept)[i] == s[kept + i]);
            }
        }
        kept
    } else {
        assert(s.take(s.len() as int) =~= s);
        s.len() as int
    }
}

/// A webhook from PayPal is authentic exactly where PayPal answers with a success and says so in a
/// word. No other answer will do, and none that cannot be read.
pub proof fn paypal_says_so_in_a_word(status: u16, verdict: Option<PayPalVerifyResponse>)
    ensures
        paypal_webhook::is_verified(status, verdict) <==> 200 <= status < 300 && verdict is Some
            && (verdict->0).verification_status@ == "SUCCESS"@,
{
}

/// An event from PayPal is read as it was sent: its id, the type that its name tells and its time. It
/// is live exactly where the provider is not set to the sandbox.
pub proof fn paypal_event_is_read_as_sent(e: WebhookEvent, p: PayPalFields, sent: PayPalWebhookEvent, now: Timestamp)
    requires
        paypal_webhook::is_event(e, p, sent, now),
    ensures
        e.id == sent.id,
        e.event_type.name() == sent.event_type@,
        e.livemode <==> !p.sandbox,
        e.provider@ == "paypal"@,
        sent.create_time matches Some(t) ==> e.created_at == t,
        sent.create_time is None ==> e.created_at == now,
        e.data@ == payload::interpreted(e.event_type.class(), sent.resource.tree()),
{
}

/// What a webhook from PayPal says: the event, or why it cannot be read.
pub proof fn paypal_event_is_told_from_an_error(
    p: PayPalFields,
    decoded: Result<PayPalWebhookEvent, String>,
    now: Timestamp,
    r: PaymentResult<WebhookEvent>,
)
    requires
        paypal_webhook::event_outcome(p, decoded, now, r),
    ensures
        r is Ok <==> decoded is Ok,
        r matches Ok(e) ==> paypal_webhook::is_event(e, p, decoded->Ok_0, now),
        decoded matches Err(reason) ==> (r matches Err(e) && e@ == Fault::Serialization(reason@)),
{
}

/// A payload from Braintree is authentic exactly where both keys are set, the signature field is
/// there, it has a signature for the public key, and that is the code of the payload under the digest
/// of the private key.
pub proof fn braintree_payload_is_authentic_when_signed(
    public_key: Seq<char>,
    private_key: Seq<char>,
    payload: Seq<u8>,
    headers: Map<Seq<char>, Seq<char>>,
)
    ensures
        ({
            let verdict = notification::verification(public_key, private_key, payload, headers);
            let field = webhook::header(headers, "bt_signature"@);
            let tag = notification::signature_for(field->0, public_key);
            &&& verdict is Ok <==> {
                &&& public_key.len() > 0 && private_key.len() > 0
                &&& field is Some
                &&& tag is Some
                &&& crypto::hex_bytes(tag->0) == Some(
                    crypto::hmac_sha1(crypto::sha1_digest(encode_utf8(private_key)), payload),
                )
            }
            &&& public_key.len() == 0 || private_key.len() == 0 ==> (verdict matches Err(fault) && fault is Config)
            &&& public_key.len() > 0 && private_key.len() > 0 && verdict is Err ==> verdict->Err_0
                == Fault::InvalidWebhookSignature
        }),
{
}

/// The signature for a key is the one behind the first bar of the first pair that has the key before
/// it. Pairs are divided by commas, within groups that are divided by ampersands.
pub proof fn first_pair_of_the_key_counts(pairs: Seq<Seq<char>>, groups: Seq<Seq<char>>, key: Seq<char>, field: Seq<char>)
    ensures
        notification::signature_in(Seq::empty(), key) is None,
        pairs.len() > 0 && text::split_once(text::trim(pairs[0]), '|') is Some && (text::split_once(
            text::trim(pairs[0]),
            '|',
        )->0).0 == key ==> notification::signature_in(pairs, key) == Some(
            (text::split_once(text::trim(pairs[0]), '|')->0).1,
        ),
        pairs.len() > 0 && (text::split_once(text::trim(pairs[0]), '|') is None || (text::split_once(
            text::trim(pairs[0]),
            '|',
        )->0).0 != key) ==> notification::signature_in(pairs, key) == notification::signature_in(pairs.skip(1), key),
        notification::signature_among(Seq::empty(), key) is None,
        groups.len() > 0 && notification::signature_in(text::split(groups[0], ','), key) is Some
            ==> notification::signature_among(groups, key) == notification::signature_in(
            text::split(groups[0], ','),
            key,
        ),
        groups.len() > 0 && notification::signature_in(text::split(groups[0], ','), key) is None
            ==> notification::signature_among(groups, key) == notification::signature_among(groups.skip(1), key),
        notification::signature_for(field, key) == notification::signature_among(text::split(field, '&'), key),
{
}

/// Compacting keeps every byte but spaces, tabs, line feeds, form feeds and carriage returns, in
/// order.
pub proof fn compacting_drops_white_space_only(bytes: Seq<u8>, byte: u8)
    ensures
        notification::compacted(Seq::empty()) == Seq::<u8>::empty(),
        byte == 0x20 || byte == 0x09 || byte == 0x0a || byte == 0x0c || byte == 0x0d ==> notification::compacted(
            bytes.push(byte),
        ) == notification::compacted(bytes),
        !(byte == 0x20 || byte == 0x09 || byte == 0x0a || byte == 0x0c || byte == 0x0d) ==> notification::compacted(
            bytes.push(byte),
        ) == notification::compacted(bytes).push(byte),
{
    assert(bytes.push(byte).drop_last() =~= bytes);
}

/// The id of a payload from Braintree is the digest of the payload without white space, in
/// hexadecimal digits behind `bt_`.
pub proof fn braintree_id_is_the_digest(payload: Seq<u8>)
    ensures
        notification::event_id(payload) == "bt_"@ + crypto::hex_text(
            crypto::sha256_digest(notification::compacted(payload)),
        ),
{
}

/// A notification from Braintree must have a kind; its subject and its time are there where they can
/// be read.
pub proof fn notification_is_read_by_name(root: Tree)
    ensures
        notification::notification_in(root) is Ok <==> json::member(root, "kind"@) is Some && json::member(
            root,
            "kind"@,
        )->0 is Text,
        notification::notification_in(root) matches Ok(n) ==> {
            &&& json::member(root, "kind"@) == Some(Tree::Text(n.kind))
            &&& json::member(root, "subject"@) matches Some(t) ==> n.subject == t
            &&& json::member(root, "subject"@) is None ==> n.subject == Tree::Null
            &&& json::member(root, "timestamp"@) is None ==> n.timestamp is None
            &&& json::member(root, "timestamp"@) matches Some(t) ==> (!(t is Text) ==> n.timestamp is None)
            &&& json::member(root, "timestamp"@) matches Some(Tree::Text(s)) ==> (clock::rfc3339(s) is None
                <==> n.timestamp is None)
            &&& json::member(root, "timestamp"@) matches Some(Tree::Text(s)) ==> (n.timestamp matches Some(t)
                ==> clock::rfc3339(s) == Some((t.secs, t.nanos)))
        },
{
}

/// The document of a notification has its content behind the first opening tag, which must be named
/// `notification`; what stands before it does not count, unless it is broken.
pub proof fn root_is_the_first_tag(ev: Seq<XmlToken>, at: int)
    requires
        0 <= at < ev.len(),
    ensures
        ev[at] matches XmlToken::Start(tag) ==> (xml::local(tag.name) == "notification"@
            ==> notification::root_content(ev, at) == Ok::<int, Seq<char>>(at + 1)),
        ev[at] matches XmlToken::Start(tag) ==> (xml::local(tag.name) != "notification"@
            ==> notification::root_content(ev, at) is Err),
        ev[at] is Broken ==> notification::root_content(ev, at) is Err,
        !(ev[at] is Start) && !(ev[at] is Broken) ==> notification::root_content(ev, at) == notification::root_content(
            ev,
            at + 1,
        ),
        notification::root_content(ev, ev.len() as int) is Err,
{
}

/// An event from Braintree is read as it was sent: the type that its kind tells, its subject and its
/// time. It is always live.
pub proof fn braintree_event_is_read_as_sent(e: WebhookEvent, sent: Seq<u8>, n: NotificationFields, now: Timestamp)
    requires
        notification::is_event(e, sent, n, now),
    ensures
        e.id@ == "bt_"@ + crypto::hex_text(crypto::sha256_digest(notification::compacted(sent))),
        e.event_type.name() == n.kind,
        n.timestamp matches Some(t) ==> e.created_at == t,
        n.timestamp is None ==> e.created_at == now,
        e.data@ == payload::interpreted(e.event_type.class(), n.subject),
        e.provider@ == "braintree"@,
        e.livemode,
{
}

/// What a payload from Braintree says: the event of the notification inside it, or why there is none.
pub proof fn braintree_event_is_told_from_an_error(sent: Seq<u8>, now: Timestamp, r: PaymentResult<WebhookEvent>)
    requires
        notification::event_outcome(sent, now, r),
    ensures
        ({
            let document = crypto::base64_bytes(notification::compacted(sent));
            let n = notification::notification_of(xml::document_events(document->Ok_0));
            &&& r is Ok <==> document is Ok && n is Ok
            &&& r matches Ok(e) ==> notification::is_event(e, sent, n->Ok_0, now)
            &&& r matches Err(e) ==> e@ is Serialization
        }),
{
}

/// Why a notification from Braintree is refused, in words.
pub proof fn refused_notifications_are_explained(
    ev: Seq<XmlToken>,
    at: int,
    root: Tree,
    depth: nat,
    held: Seq<char>,
    children: Seq<(Seq<char>, Tree)>,
    public_key: Seq<char>,
    private_key: Seq<char>,
    sent: Seq<u8>,
    headers: Map<Seq<char>, Seq<char>>,
    now: Timestamp,
    r: PaymentResult<WebhookEvent>,
)
    requires
        0 <= at < ev.len(),
    ensures
        notification::root_content(ev, ev.len() as int) == Err::<int, Seq<char>>(
            "Braintree notification XML contains no elements"@,
        ),
        ev[at] matches XmlToken::Start(tag) ==> (xml::local(tag.name) != "notification"@
            ==> notification::root_content(ev, at) == Err::<int, Seq<char>>(
            "Braintree notification root element is <"@ + xml::local(tag.name) + ">, expected <notification>"@,
        )),
        ev[at] matches XmlToken::Broken(reason) ==> notification::root_content(ev, at) == Err::<int, Seq<char>>(
            "malformed Braintree notification XML: "@ + reason,
        ),
        notification::notification_in(root) matches Err(reason) ==> reason
            == "Braintree notification is missing its <kind> element"@,
        xml::content(ev, ev.len() as int, depth, held, children) matches Err(reason) ==> reason
            == "Braintree notification XML ended inside an open element"@,
        ev[at] matches XmlToken::Broken(reason) ==> (xml::content(ev, at, depth, held, children) matches Err(shown)
            && shown == "malformed Braintree notification XML: "@ + reason),
        ev[at] matches XmlToken::Text(b) ==> (xml::unescaped(b) matches Err(reason) ==> (xml::content(
            ev,
            at,
            depth,
            held,
            children,
        ) matches Err(shown) && shown == "malformed text in Braintree notification XML: "@ + reason)),
        depth > 64 ==> (xml::element(ev, at, false, false, depth) matches Err(reason) && reason
            == "Braintree notification XML nests deeper than "@ + text::int_text(64) + " elements"@),
        public_key.len() == 0 || private_key.len() == 0 ==> notification::verification(
            public_key,
            private_key,
            sent,
            headers,
        ) == Err::<(), Fault>(Fault::Config("Braintree public_key and private_key must not be empty"@)),
        notification::event_outcome(sent, now, r) ==> (crypto::base64_bytes(notification::compacted(sent)) matches Err(
            reason,
        ) ==> (r matches Err(e) && e@ == Fault::Serialization(
            "Braintree bt_payload is not valid base64: "@ + reason
                + ". Pass the bt_payload form field verbatim, not the decoded XML."@,
        ))),
{
}

/// What a request for verification, or a notification, is said to hold is what it holds.
pub proof fn views_hold_the_fields(q: PayPalVerifyRequest, n: BraintreeNotification)
    ensures
        q@.auth_algo == q.auth_algo@,
        q@.cert_url == q.cert_url@,
        q@.transmission_id == q.transmission_id@,
        q@.transmission_sig == q.transmission_sig@,
        q@.transmission_time == q.transmission_time@,
        q@.webhook_id == q.webhook_id@,
        q@.webhook_event == q.webhook_event@,
        n@.kind == n.kind@,
        n@.timestamp == n.timestamp,
        n@.subject == n.subject.tree(),
{
}

} // verus!
