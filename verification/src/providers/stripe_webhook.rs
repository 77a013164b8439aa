//! Stripe's webhooks: a header with a time and signatures over that time and the body.
use crate::clock::{self, now, timestamp_or, Timestamp};
use crate::crypto::{self, hex_decode, hmac_sha256_matches};
use crate::error::{Fault, PaymentError, PaymentResult};
use crate::gateway;
use crate::json::Json;
use crate::payload::{self, WebhookData};
use crate::providers::common;
use crate::providers::stripe::StripeProvider;
use crate::text::{self, owned, parse_i64, same, split_once_text, split_text, trim_text};
use crate::webhook::{self, WebhookEvent, WebhookEventType, WebhookHeaders};
use vstd::prelude::*;
use vstd::utf8::*;

verus! {

/// The header Stripe signs each webhook with.
pub const STRIPE_SIGNATURE_HEADER: &'static str = "stripe-signature";

/// Maximum number of signatures accepted from a single header. Stripe sends at most two during a
/// secret rotation, and each of them costs a pass over a body that is not authenticated yet.
pub const MAX_V1_CANDIDATES: usize = 8;

/// Maximum accepted length of the signature header, in bytes.
pub const MAX_SIGNATURE_HEADER_LEN: usize = 1024;

/// The value of a part of the header, where the part has the given name.
pub open spec fn part_value(part: Seq<char>, name: Seq<char>) -> Option<Seq<char>> {
    match text::split_once(text::trim(part), '=') {
        Some((k, v)) => if k == name {
            Some(v)
        } else {
            None
        },
        None => None,
    }
}

/// The signed time among the parts of the header, the last where there are several.
pub open spec fn signed_time(parts: Seq<Seq<char>>) -> Option<Seq<char>>
    decreases parts.len(),
{
    if parts.len() == 0 {
        None
    } else {
        match part_value(parts.last(), "t"@) {
            Some(v) => Some(v),
            None => signed_time(parts.drop_last()),
        }
    }
}

/// The signatures among the parts of the header, in order.
pub open spec fn signatures(parts: Seq<Seq<char>>) -> Seq<Seq<char>>
    decreases parts.len(),
{
    if parts.len() == 0 {
        Seq::empty()
    } else {
        match part_value(parts.last(), "v1"@) {
            Some(v) => signatures(parts.drop_last()).push(v),
            None => signatures(parts.drop_last()),
        }
    }
}

/// Whether a signed time is recent enough at `now`. Without a tolerance any time is.
pub open spec fn is_fresh(time: Seq<char>, tolerance: Option<i64>, now: Timestamp) -> bool {
    match tolerance {
        Some(limit) => match text::parsed_int(time, i64::MIN as int, i64::MAX as int) {
            Some(signed_at) => -limit <= now.secs - signed_at <= limit,
            None => false,
        },
        None => true,
    }
}

/// What Stripe signs: the time, a dot and the body.
pub open spec fn signed_content(time: Seq<char>, payload: Seq<u8>) -> Seq<u8> {
    encode_utf8(time).push(0x2e) + payload
}

/// Whether a signature is the one of the given content under the secret.
pub open spec fn is_signature(signature: Seq<char>, secret: Seq<char>, content: Seq<u8>) -> bool {
    crypto::hex_bytes(signature) == Some(crypto::hmac_sha256(encode_utf8(secret), content))
}

/// Whether one of the signatures is the one of the given content under the secret.
pub open spec fn any_signature(candidates: Seq<Seq<char>>, secret: Seq<char>, content: Seq<u8>) -> bool {
    exists|i: int| 0 <= i < candidates.len() && is_signature(#[trigger] candidates[i], secret, content)
}

/// Whether a body is authentic at `now`, by the value of its signature header.
pub open spec fn is_authentic(
    secret: Seq<char>,
    tolerance: Option<i64>,
    payload: Seq<u8>,
    field: Seq<char>,
    now: Timestamp,
) -> bool {
    let parts = text::split(field, ',');
    let candidates = signatures(parts);
    &&& encode_utf8(field).len() <= MAX_SIGNATURE_HEADER_LEN
    &&& candidates.len() <= MAX_V1_CANDIDATES
    &&& signed_time(parts) matches Some(time) && is_fresh(time, tolerance, now) && any_signature(
        candidates,
        secret,
        signed_content(time, payload),
    )
}

/// Whether a body is authentic at `now`, and if not why not.
pub open spec fn verification(
    secret: Option<Seq<char>>,
    tolerance: Option<i64>,
    payload: Seq<u8>,
    headers: Map<Seq<char>, Seq<char>>,
    now: Timestamp,
) -> Result<(), Fault> {
    match secret {
        None => Err(Fault::Config("Webhook secret not configured"@)),
        Some(secret) => if secret.len() == 0 {
            Err(Fault::Config("Webhook secret must not be empty"@))
        } else {
            match webhook::header(headers, STRIPE_SIGNATURE_HEADER@) {
                Some(field) => if is_authentic(secret, tolerance, payload, field, now) {
                    Ok(())
                } else {
                    Err(Fault::InvalidWebhookSignature)
                },
                None => Err(Fault::InvalidWebhookSignature),
            }
        },
    }
}

/// Reads the signed time and the signatures out of the header, or nothing where there are too many
/// of them.
fn read_signatures(field: &str) -> (r: Option<(Option<String>, Vec<String>)>)
    ensures
        match r {
            Some((time, candidates)) => text::opt_text(time) == signed_time(text::split(field@, ',')) && text::texts(
                candidates@,
            ) == signatures(text::split(field@, ',')) && candidates.len() <= MAX_V1_CANDIDATES,
            None => signatures(text::split(field@, ',')).len() > MAX_V1_CANDIDATES,
        },
{
    let parts = split_text(field, ',');
    let ghost all = text::texts(parts@);
    let mut time: Option<String> = None;
    let mut candidates: Vec<String> = Vec::new();
    let mut i: usize = 0;
    proof {
        assert(all.take(0) =~= Seq::<Seq<char>>::empty());
        assert(text::texts(candidates@) =~= Seq::<Seq<char>>::empty());
    }
    while i < parts.len()
        invariant
            i <= parts.len(),
            all == text::texts(parts@),
            all == text::split(field@, ','),
            text::opt_text(time) == signed_time(all.take(i as int)),
            text::texts(candidates@) == signatures(all.take(i as int)),
            candidates.len() <= MAX_V1_CANDIDATES,
        decreases parts.len() - i,
    {
        let ghost upto = all.take(i as int + 1);
        proof {
            assert(upto.drop_last() =~= all.take(i as int));
            assert(upto.last() == parts@[i as int]@);
            reveal_strlit("t");
            reveal_strlit("v1");
            assert("t"@.len() != "v1"@.len());
        }
        let trimmed = trim_text(&parts[i]);
        match split_once_text(&trimmed, '=') {
            Some((name, value)) => {
                if same(&name, "t") {
                    time = Some(value);
                } else if same(&name, "v1") {
                    if candidates.len() == MAX_V1_CANDIDATES {
                        proof {
                            lemma_signatures_grow(all, i as int + 1);
                            assert(text::texts(candidates@).len() == MAX_V1_CANDIDATES);
                        }
                        return None;
                    }
                    let ghost before = candidates@;
                    candidates.push(value);
                    proof {
                        assert(text::texts(candidates@) =~= text::texts(before).push(value@));
                    }
                }
            },
            None => {},
        }
        i += 1;
    }
    proof {
        assert(all.take(all.len() as int) =~= all);
    }
    Some((time, candidates))
}

/// More parts hold no fewer signatures.
proof fn lemma_signatures_grow(parts: Seq<Seq<char>>, k: int)
    requires
        0 <= k <= parts.len(),
    ensures
        signatures(parts.take(k)).len() <= signatures(parts).len(),
    decreases parts.len(),
{
    if k < parts.len() {
        lemma_signatures_grow(parts.drop_last(), k);
        assert(parts.drop_last().take(k) =~= parts.take(k));
    } else {
        assert(parts.take(k) =~= parts);
    }
}

fn is_recent(time: &str, tolerance: Option<i64>, now: Timestamp) -> (r: bool)
    ensures
        r == is_fresh(time@, tolerance, now),
{
    match tolerance {
        Some(limit) => match parse_i64(time) {
            Some(signed_at) => {
                let age: i128 = now.secs as i128 - signed_at as i128;
                -(limit as i128) <= age && age <= limit as i128
            },
            None => false,
        },
        None => true,
    }
}

fn content_of(time: &str, payload: &[u8]) -> (r: Vec<u8>)
    ensures
        r@ == signed_content(time@, payload@),
{
    let mut content: Vec<u8> = Vec::new();
    content.extend_from_slice(time.as_bytes());
    content.push(0x2e);
    content.extend_from_slice(payload);
    proof {
        assert(content@ =~= signed_content(time@, payload@));
    }
    content
}

fn holds_signature(candidates: &Vec<String>, secret: &str, content: &[u8]) -> (r: bool)
    ensures
        r == any_signature(text::texts(candidates@), secret@, content@),
{
    let ghost all = text::texts(candidates@);
    let mut i: usize = 0;
    while i < candidates.len()
        invariant
            i <= candidates.len(),
            all == text::texts(candidates@),
            forall|j: int| 0 <= j < i ==> !is_signature(#[trigger] all[j], secret@, content@),
        decreases candidates.len() - i,
    {
        proof {
            assert(all[i as int] == candidates@[i as int]@);
        }
        match hex_decode(&candidates[i]) {
            Some(expected) => {
                if hmac_sha256_matches(secret.as_bytes(), content, &expected) {
                    proof {
                        assert(is_signature(all[i as int], secret@, content@));
                    }
                    return true;
                }
            },
            None => {},
        }
        i += 1;
    }
    false
}

/// A webhook, as Stripe sends it.
pub struct StripeWebhookEvent {
    pub id: String,
    pub event_type: String,
    pub created: i64,
    pub livemode: bool,
    pub object: Json,
}

/// Whether `e` is the event that a webhook is, parsed at `now`.
pub open spec fn is_event(e: WebhookEvent, sent: StripeWebhookEvent, now: Timestamp) -> bool {
    &&& e.id == sent.id
    &&& common::is_event_type(e.event_type, sent.event_type@)
    &&& e.created_at == clock::instant_or(sent.created, now)
    &&& e.data@ == payload::interpreted(e.event_type.class(), sent.object.tree())
    &&& e.provider@ == "stripe"@
    &&& e.livemode == sent.livemode
}

/// Whether `r` is what a webhook says, parsed at `now`.
pub open spec fn event_outcome(
    decoded: Result<StripeWebhookEvent, String>,
    now: Timestamp,
    r: PaymentResult<WebhookEvent>,
) -> bool {
    match decoded {
        Ok(sent) => r matches Ok(e) && is_event(e, sent, now),
        Err(reason) => r matches Err(e) && e@ == Fault::Serialization(reason@),
    }
}

/// The event that a webhook is, parsed at `now`. `decoded` is the body read as a webhook, or why it
/// could not be read as one.
pub fn parse_webhook_at(decoded: Result<StripeWebhookEvent, String>, now: Timestamp) -> (r: PaymentResult<WebhookEvent>)
    ensures
        event_outcome(decoded, now, r),
        r is Ok <==> decoded is Ok,
        r matches Ok(e) ==> (decoded matches Ok(sent) && {
            &&& e.id == sent.id && e.livemode == sent.livemode
            &&& e.event_type.name() == sent.event_type@
            &&& e.provider@ == "stripe"@
        }),
{
    let event = match decoded {
        Ok(event) => event,
        Err(reason) => return Err(PaymentError::Serialization(reason)),
    };
    let event_type = WebhookEventType::from_str(&event.event_type);
    let data = WebhookData::from_event_type(&event_type, event.object);
    Ok(
        WebhookEvent {
            id: event.id,
            data,
            event_type,
            created_at: timestamp_or(event.created, now),
            provider: owned("stripe"),
            livemode: event.livemode,
        },
    )
}

impl StripeProvider {
    /// Verify a webhook at `now`.
    pub fn verify_webhook_at(&self, payload: &[u8], headers: &WebhookHeaders, now: Timestamp) -> (r: PaymentResult<()>)
        ensures
            gateway::outcome(r) == verification(
                self@.webhook_secret,
                self@.webhook_tolerance,
                payload@,
                headers@,
                now,
            ),
    {
        let secret = match self.webhook_secret() {
            Some(secret) => secret,
            None => return Err(PaymentError::Config(owned("Webhook secret not configured"))),
        };
        if secret.as_str().unicode_len() == 0 {
            return Err(PaymentError::Config(owned("Webhook secret must not be empty")));
        }
        let field = match headers.require(STRIPE_SIGNATURE_HEADER) {
            Ok(field) => field,
            Err(e) => return Err(e),
        };
        if field.as_bytes().len() > MAX_SIGNATURE_HEADER_LEN {
            return Err(PaymentError::InvalidWebhookSignature);
        }
        let (time, candidates) = match read_signatures(field) {
            Some((Some(time), candidates)) => (time, candidates),
            _ => return Err(PaymentError::InvalidWebhookSignature),
        };
        if !is_recent(&time, self.webhook_tolerance(), now) {
            return Err(PaymentError::InvalidWebhookSignature);
        }
        let content = content_of(&time, payload);
        if holds_signature(&candidates, secret, &content) {
            Ok(())
        } else {
            Err(PaymentError::InvalidWebhookSignature)
        }
    }

    /// Verify a webhook.
    pub fn verify_webhook(&self, payload: &[u8], headers: &WebhookHeaders) -> (r: PaymentResult<()>)
        ensures
            exists|now: Timestamp|
                #[trigger] clock::can_be_now(now) && gateway::outcome(r) == verification(
                    self@.webhook_secret,
                    self@.webhook_tolerance,
                    payload@,
                    headers@,
                    now,
                ),
    {
        self.verify_webhook_at(payload, headers, now())
    }

    /// The event that a webhook is.
    pub fn parse_webhook(&self, decoded: Result<StripeWebhookEvent, String>) -> (r: PaymentResult<WebhookEvent>)
        ensures
            exists|now: Timestamp| #[trigger] clock::can_be_now(now) && event_outcome(decoded, now, r),
            r is Ok <==> decoded is Ok,
            r matches Ok(e) ==> (decoded matches Ok(sent) && {
                &&& e.id == sent.id && e.livemode == sent.livemode
                &&& e.event_type.name() == sent.event_type@
                &&& e.provider@ == "stripe"@
            }),
    {
        parse_webhook_at(decoded, now())
    }

    /// Verify and parse a webhook at `now`. A body that is not authentic is never handed back.
    pub fn handle_webhook_at(
        &self,
        payload: &[u8],
        headers: &WebhookHeaders,
        decoded: Result<StripeWebhookEvent, String>,
        now: Timestamp,
    ) -> (r: PaymentResult<WebhookEvent>)
        ensures
            handled(
                verification(self@.webhook_secret, self@.webhook_tolerance, payload@, headers@, now),
                decoded,
                now,
                r,
            ),
    {
        match self.verify_webhook_at(payload, headers, now) {
            Ok(()) => parse_webhook_at(decoded, now),
            Err(e) => Err(e),
        }
    }

    /// Verify and parse a webhook. A body that is not authentic is never handed back.
    pub fn handle_webhook(
        &self,
        payload: &[u8],
        headers: &WebhookHeaders,
        decoded: Result<StripeWebhookEvent, String>,
    ) -> (r: PaymentResult<WebhookEvent>)
        ensures
            exists|now: Timestamp|
                #[trigger] clock::can_be_now(now) && handled(
                    verification(self@.webhook_secret, self@.webhook_tolerance, payload@, headers@, now),
                    decoded,
                    now,
                    r,
                ),
    {
        self.handle_webhook_at(payload, headers, decoded, now())
    }
}

/// Whether `r` is what a webhook comes to at `now`: the event that it is, where it is authentic.
pub open spec fn handled(
    verified: Result<(), Fault>,
    decoded: Result<StripeWebhookEvent, String>,
    now: Timestamp,
    r: PaymentResult<WebhookEvent>,
) -> bool {
    match verified {
        Ok(()) => event_outcome(decoded, now, r),
        Err(fault) => r matches Err(e) && e@ == fault,
    }
}

/// Verification fails closed: without a secret, without the header, without a signed time or
/// without a signature, no body is authentic.
pub proof fn unsigned_is_refused(
    secret: Option<Seq<char>>,
    tolerance: Option<i64>,
    payload: Seq<u8>,
    headers: Map<Seq<char>, Seq<char>>,
    now: Timestamp,
)
    requires
        secret is None || secret->0.len() == 0 || webhook::header(headers, STRIPE_SIGNATURE_HEADER@) is None
            || signed_time(text::split(webhook::header(headers, STRIPE_SIGNATURE_HEADER@)->0, ',')) is None
            || signatures(text::split(webhook::header(headers, STRIPE_SIGNATURE_HEADER@)->0, ',')).len() == 0,
    ensures
        verification(secret, tolerance, payload, headers, now) is Err,
{
}

/// A captured webhook cannot be replayed: what was signed longer ago than the tolerance is refused,
/// however good its signature.
pub proof fn replay_is_refused(
    secret: Option<Seq<char>>,
    limit: i64,
    payload: Seq<u8>,
    headers: Map<Seq<char>, Seq<char>>,
    signed_at: int,
    now: Timestamp,
)
    requires
        webhook::header(headers, STRIPE_SIGNATURE_HEADER@) matches Some(field) && signed_time(
            text::split(field, ','),
        ) matches Some(time) && text::parsed_int(time, i64::MIN as int, i64::MAX as int) == Some(signed_at),
        now.secs - signed_at > limit,
    ensures
        verification(secret, Some(limit), payload, headers, now) is Err,
{
}

/// The signature covers the signed time and the very bytes of the body.
pub proof fn signature_covers_the_body(
    secret: Seq<char>,
    tolerance: Option<i64>,
    payload: Seq<u8>,
    field: Seq<char>,
    now: Timestamp,
)
    requires
        is_authentic(secret, tolerance, payload, field, now),
    ensures
        exists|i: int|
            0 <= i < signatures(text::split(field, ',')).len() && is_signature(
                #[trigger] signatures(text::split(field, ','))[i],
                secret,
                signed_content(signed_time(text::split(field, ','))->0, payload),
            ),
{
}

/// The header that a body is sent with which was signed under the secret at the given time.
pub open spec fn signature_header(secret: Seq<char>, time: Seq<char>, payload: Seq<u8>) -> Seq<char> {
    "t="@ + time + ",v1="@ + crypto::hex_text(crypto::hmac_sha256(encode_utf8(secret), signed_content(time, payload)))
}

/// A part with a name and a value that need no trimming is read as such.
proof fn lemma_part(name: Seq<char>, value: Seq<char>)
    requires
        name.len() > 0,
        text::lacks(name, '='),
        !text::whitespace(name[0]),
        value.len() > 0 ==> !text::whitespace(value.last()),
    ensures
        text::split_once(text::trim(name + seq!['='] + value), '=') == Some((name, value)),
{
    let part = name + seq!['='] + value;
    assert(part[0] == name[0]);
    assert(!text::whitespace(part.last()));
    assert(text::trim(part) == part);
    text::lemma_split_once(name, '=', value);
}

/// A header with one time and one signature is read as such.
proof fn lemma_two_parts(time: Seq<char>, hex: Seq<char>)
    requires
        text::lacks(time, ','),
        text::lacks(hex, ','),
        time.len() > 0 ==> !text::whitespace(time.last()),
        hex.len() > 0 ==> !text::whitespace(hex.last()),
    ensures
        signed_time(text::split("t="@ + time + ",v1="@ + hex, ',')) == Some(time),
        signatures(text::split("t="@ + time + ",v1="@ + hex, ',')) == seq![hex],
{
    reveal_strlit("t=");
    reveal_strlit(",v1=");
    reveal_strlit("t");
    reveal_strlit("v1");
    let first = "t"@ + seq!['='] + time;
    let second = "v1"@ + seq!['='] + hex;
    let field = "t="@ + time + ",v1="@ + hex;
    assert(field =~= first + seq![','] + second);
    assert(text::split(field, ',') == seq![first, second]) by {
        text::lemma_split_in_two(first, ',', second);
    }
    lemma_part("t"@, time);
    lemma_part("v1"@, hex);
    assert("t"@.len() != "v1"@.len());
    let parts = seq![first, second];
    let front = seq![first];
    assert(parts.drop_last() =~= front);
    assert(front.drop_last() =~= Seq::<Seq<char>>::empty());
    assert(signed_time(front) == Some(time));
    assert(signatures(front) == Seq::<Seq<char>>::empty()) by {
        assert(signatures(front.drop_last()) =~= Seq::<Seq<char>>::empty());
    }
    assert(signatures(parts) =~= seq![hex]);
}

/// A body that was signed under the secret, recently enough, is accepted. A time has no comma in it
/// and no white space behind it.
pub proof fn signed_is_accepted(
    secret: Seq<char>,
    tolerance: Option<i64>,
    payload: Seq<u8>,
    headers: Map<Seq<char>, Seq<char>>,
    time: Seq<char>,
    now: Timestamp,
)
    requires
        secret.len() > 0,
        text::lacks(time, ','),
        time.len() > 0 ==> !text::whitespace(time.last()),
        is_fresh(time, tolerance, now),
        webhook::header(headers, STRIPE_SIGNATURE_HEADER@) == Some(signature_header(secret, time, payload)),
        encode_utf8(signature_header(secret, time, payload)).len() <= MAX_SIGNATURE_HEADER_LEN,
    ensures
        verification(Some(secret), tolerance, payload, headers, now) is Ok,
{
    let code = crypto::hmac_sha256(encode_utf8(secret), signed_content(time, payload));
    let hex = crypto::hex_text(code);
    crypto::hex_round_trip(code);
    crypto::lemma_hex_text_digits(code);
    lemma_two_parts(time, hex);
    let parts = text::split(signature_header(secret, time, payload), ',');
    assert(signatures(parts)[0] == hex);
    assert(is_signature(signatures(parts)[0], secret, signed_content(time, payload)));
}

} // verus!
