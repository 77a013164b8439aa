//! What goes to a gateway and what comes back.
//!
//! A provider turns a call into a [`GatewayRequest`], and the [`GatewayReply`] into a result. The
//! request is sent by whoever holds the HTTP client.
use crate::error::{Fault, PaymentError, PaymentResult};
use crate::json::{Json, Tree};
use crate::redact::{self, sanitize_body};
use crate::string_map::StringMap;
use crate::text::{self, concat2, concat3, owned, parse_u32, same, trim_end_of_text, trim_text, unsigned_text};
use vstd::prelude::*;

verus! {

/// HTTP method of a request.
#[derive(Debug, Clone, Copy, PartialEq, Eq, Structural)]
pub enum Method {
    Get,
    Post,
    Put,
    Delete,
}

/// Body of a request.
#[derive(Debug)]
pub enum Body {
    /// No body.
    Empty,
    /// A form, URL-encoded.
    Form(StringMap),
    /// A JSON document.
    Json(Json),
}

/// A request to a gateway: the path is relative to the gateway's base URL, and authentication is
/// added by the client.
#[derive(Debug)]
pub struct GatewayRequest {
    pub method: Method,
    pub path: String,
    /// The header that lets the gateway recognise a repeated request, and its value.
    pub dedup: Option<(String, String)>,
    pub body: Body,
}

/// What a [`Body`] holds.
pub enum BodyFields {
    Empty,
    Form(Map<Seq<char>, Seq<char>>),
    Json(Tree),
}

/// What a [`GatewayRequest`] asks for.
pub struct RequestFields {
    pub method: Method,
    pub path: Seq<char>,
    pub dedup: Option<(Seq<char>, Seq<char>)>,
    pub body: BodyFields,
}

impl View for Body {
    type V = BodyFields;

    open spec fn view(&self) -> BodyFields {
        match *self {
            Body::Empty => BodyFields::Empty,
            Body::Form(m) => BodyFields::Form(m@),
            Body::Json(j) => BodyFields::Json(j.tree()),
        }
    }
}

impl View for GatewayRequest {
    type V = RequestFields;

    open spec fn view(&self) -> RequestFields {
        RequestFields {
            method: self.method,
            path: self.path@,
            dedup: match self.dedup {
                Some((name, value)) => Some((name@, value@)),
                None => None,
            },
            body: self.body@,
        }
    }
}

/// The deduplication header for an optional idempotency key.
pub open spec fn dedup_header(name: Seq<char>, key: Option<String>) -> Option<(Seq<char>, Seq<char>)> {
    match key {
        Some(k) => Some((name, k@)),
        None => None,
    }
}

impl GatewayRequest {
    /// A request without a deduplication header.
    pub fn plain(method: Method, path: String, body: Body) -> (r: Self)
        ensures
            r@ == (RequestFields { method, path: path@, dedup: None, body: body@ }),
    {
        GatewayRequest { method, path, dedup: None, body }
    }

    /// A `POST` with a deduplication header where there is an idempotency key.
    pub fn keyed(path: String, body: Body, header: &str, key: &Option<String>) -> (r: Self)
        ensures
            r@ == (RequestFields {
                method: Method::Post,
                path: path@,
                dedup: dedup_header(header@, *key),
                body: body@,
            }),
    {
        let dedup = match key {
            Some(k) => Some((owned(header), k.clone())),
            None => None,
        };
        GatewayRequest { method: Method::Post, path, dedup, body }
    }
}

/// A gateway's answer.
#[derive(Debug)]
pub struct GatewayReply {
    /// HTTP status
    pub status: u16,
    /// The seconds that the `Retry-After` header asks for.
    pub retry_after: Option<u32>,
    /// The body, or a note that it could not be read.
    pub body: String,
}

impl GatewayReply {
    /// Whether the gateway reports success.
    pub open spec fn succeeded(self) -> bool {
        200 <= self.status <= 299
    }

    /// Whether the gateway reports success.
    pub fn is_success(&self) -> (r: bool)
        ensures
            r == self.succeeded(),
            r <==> 200 <= self.status < 300,
    {
        200 <= self.status && self.status <= 299
    }
}

/// The seconds that a `Retry-After` header asks for, where it is a number.
pub fn retry_after_secs(value: Option<&str>) -> (r: Option<u32>)
    ensures
        match value {
            Some(v) => match r {
                Some(n) => text::parsed_int(text::trim(v@), 0, u32::MAX as int) == Some(n as int),
                None => text::parsed_int(text::trim(v@), 0, u32::MAX as int) is None,
            },
            None => r is None,
        },
{
    match value {
        Some(v) => {
            let trimmed = trim_text(v);
            parse_u32(&trimmed)
        },
        None => None,
    }
}

/// The message about a status that is not a success.
pub open spec fn status_message(provider: Seq<char>, status: u16, body: Seq<char>) -> Seq<char> {
    provider + " returned HTTP "@ + text::int_text(status as int) + ": "@ + redact::sanitized(body)
}

/// The error that an HTTP status stands for, whatever the provider.
pub open spec fn status_fault(provider: Seq<char>, status: u16, body: Seq<char>, retry_after: Option<u32>) -> Fault {
    if status == 401 || status == 403 {
        Fault::Authentication(status_message(provider, status, body))
    } else if status == 429 {
        Fault::RateLimited(
            match retry_after {
                Some(secs) => secs,
                None => 1,
            },
        )
    } else {
        Fault::Provider(Some(status), status_message(provider, status, body))
    }
}

/// Turns an HTTP status and body into a typed error. The body is redacted.
pub fn classify_status(provider: &str, status: u16, body: &str, retry_after: Option<u32>) -> (r: PaymentError)
    ensures
        r@ == status_fault(provider@, status, body@, retry_after),
        r is Authentication <==> status == 401 || status == 403,
        r is RateLimited <==> status == 429,
        r matches PaymentError::RateLimited(secs) ==> secs == (if retry_after is Some {
            retry_after->0
        } else {
            1u32
        }),
        r is Provider <==> !(status == 401 || status == 403 || status == 429),
        r matches PaymentError::Provider { status: shown, .. } ==> shown == Some(status),
        r matches PaymentError::Authentication(m) ==> m@ == provider@ + " returned HTTP "@ + text::int_text(
            status as int,
        ) + ": "@ + redact::sanitized(body@),
        r matches PaymentError::Provider { message, .. } ==> message@ == provider@ + " returned HTTP "@
            + text::int_text(status as int) + ": "@ + redact::sanitized(body@),
{
    if status == 429 {
        return match retry_after {
            Some(secs) => PaymentError::RateLimited(secs),
            None => PaymentError::RateLimited(1),
        };
    }
    let code = unsigned_text(status as u64);
    let shown = sanitize_body(body);
    let mut message = concat3(provider, " returned HTTP ", &code);
    message.append(": ");
    message.append(&shown);
    if status == 401 || status == 403 {
        PaymentError::Authentication(message)
    } else {
        PaymentError::provider(Some(status), &message)
    }
}

/// The error that a reply stands for, where a 404 has the given meaning.
pub open spec fn reply_fault(provider: Seq<char>, reply: GatewayReply, not_found: Option<Fault>) -> Fault {
    match not_found {
        Some(fault) => if reply.status == 404 {
            fault
        } else {
            status_fault(provider, reply.status, reply.body@, reply.retry_after)
        },
        None => status_fault(provider, reply.status, reply.body@, reply.retry_after),
    }
}

/// An optional error, as what it says.
pub open spec fn opt_fault(e: Option<PaymentError>) -> Option<Fault> {
    match e {
        Some(e) => Some(e@),
        None => None,
    }
}

/// The error that a reply stands for, where a 404 has the given meaning.
pub fn reply_error(provider: &str, reply: &GatewayReply, not_found: Option<PaymentError>) -> (r: PaymentError)
    ensures
        r@ == reply_fault(provider@, *reply, opt_fault(not_found)),
{
    match not_found {
        Some(e) => if reply.status == 404 {
            e
        } else {
            classify_status(provider, reply.status, &reply.body, reply.retry_after)
        },
        None => classify_status(provider, reply.status, &reply.body, reply.retry_after),
    }
}

/// A result, with its error as what it says.
pub open spec fn outcome<T>(r: PaymentResult<T>) -> Result<T, Fault> {
    match r {
        Ok(v) => Ok(v),
        Err(e) => Err(e@),
    }
}

/// What is decoded from the body of a success, or the error that the reply stands for.
pub open spec fn settled<T>(
    provider: Seq<char>,
    reply: GatewayReply,
    decoded: Result<T, String>,
    not_found: Option<Fault>,
) -> Result<T, Fault> {
    if !reply.succeeded() {
        Err(reply_fault(provider, reply, not_found))
    } else {
        match decoded {
            Ok(v) => Ok(v),
            Err(reason) => Err(Fault::Serialization(reason@)),
        }
    }
}

/// What is decoded from the body of a success, or the error that the reply stands for. `decoded` is
/// the body read as a resource, or why it could not be read as one.
pub fn settle<T>(
    provider: &str,
    reply: &GatewayReply,
    decoded: Result<T, String>,
    not_found: Option<PaymentError>,
) -> (r: PaymentResult<T>)
    ensures
        outcome(r) == settled(provider@, *reply, decoded, opt_fault(not_found)),
{
    if !reply.is_success() {
        return Err(reply_error(provider, reply, not_found));
    }
    match decoded {
        Ok(v) => Ok(v),
        Err(reason) => Err(PaymentError::Serialization(reason)),
    }
}

/// A reply whose body is of no use: success, or the error that the reply stands for.
pub fn settle_unit(provider: &str, reply: &GatewayReply, not_found: Option<PaymentError>) -> (r: PaymentResult<()>)
    ensures
        outcome(r) == settled(provider@, *reply, Ok::<(), String>(()), opt_fault(not_found)),
{
    settle(provider, reply, Ok(()), not_found)
}

/// A success is never retried, whether or not its body can be read: the gateway may well have
/// carried the operation out.
pub proof fn success_is_never_retried<T>(
    provider: Seq<char>,
    reply: GatewayReply,
    decoded: Result<T, String>,
    not_found: Option<Fault>,
)
    requires
        reply.succeeded(),
    ensures
        settled(provider, reply, decoded, not_found) matches Err(fault) ==> !fault.retryable(),
{
}

/// Whatever the provider, an error status is retried only where it is 408, 429 or 500 and above.
pub proof fn retried_statuses(provider: Seq<char>, status: u16, body: Seq<char>, retry_after: Option<u32>)
    ensures
        status_fault(provider, status, body, retry_after).retryable() <==> (status == 408 || status == 429 || status
            >= 500),
{
}

/// Why a request got no usable reply.
#[derive(Debug)]
pub struct TransportFailure {
    /// The body of the reply could not be read or decoded.
    pub unreadable: bool,
    /// The request could not be built.
    pub unbuildable: bool,
    /// The status that the gateway answered with, where it answered.
    pub status: Option<u16>,
    /// The failure in words.
    pub reason: String,
}

/// The error that a transport failure stands for.
pub open spec fn transport_fault(f: TransportFailure) -> Fault {
    if f.unreadable {
        Fault::Serialization(f.reason@)
    } else if f.unbuildable {
        Fault::Config(f.reason@)
    } else {
        match f.status {
            Some(status) => status_fault("provider"@, status, "gateway returned an error status"@, None),
            None => Fault::Network(f.reason@),
        }
    }
}

impl PaymentError {
    /// Classifies a transport failure by its cause.
    ///
    /// A failure to connect may never have reached the gateway, so it may be retried. A body that
    /// could not be read comes after the gateway answered, often for an operation that it already
    /// carried out. The words of a failure that carries a status are not shown: they may hold the
    /// URL of the request.
    pub fn from_transport(failure: TransportFailure) -> (r: PaymentError)
        ensures
            r@ == transport_fault(failure),
            failure.unreadable ==> r@ == Fault::Serialization(failure.reason@),
            !failure.unreadable && failure.unbuildable ==> r@ == Fault::Config(failure.reason@),
            !failure.unreadable && !failure.unbuildable && failure.status is None ==> r@ == Fault::Network(
                failure.reason@,
            ),
    {
        if failure.unreadable {
            PaymentError::Serialization(failure.reason)
        } else if failure.unbuildable {
            PaymentError::Config(failure.reason)
        } else {
            match failure.status {
                Some(status) => classify_status("provider", status, "gateway returned an error status", None),
                None => PaymentError::Network(failure.reason),
            }
        }
    }
}

/// The scheme and host of a URL.
pub uninterp spec fn url_parts(url: Seq<char>) -> Option<(Seq<char>, Option<Seq<char>>)>;

/// `reqwest::Url::parse`, with `scheme` and `host_str`: the scheme and host of the URL, or `None`
/// where the text is no URL. It depends on the text alone.
#[verifier::external_body]
fn parse_url(url: &str) -> (r: Option<(String, Option<String>)>)
    ensures
        match r {
            Some((scheme, host)) => url_parts(url@) == Some((scheme@, text::opt_text(host))),
            None => url_parts(url@) is None,
        },
{
    reqwest::Url::parse(url).ok().map(|u| (u.scheme().to_string(), u.host_str().map(|h| h.to_string())))
}

/// Whether credentials may be sent to a scheme and host: encrypted, or to this machine.
pub open spec fn protects_credentials(scheme: Seq<char>, host: Option<Seq<char>>) -> bool {
    ||| scheme == "https"@
    ||| scheme == "http"@ && (host == Some("localhost"@) || host == Some("127.0.0.1"@) || host == Some("[::1]"@))
}

/// Whether credentials may be sent to a scheme and host.
pub fn is_protected(scheme: &str, host: Option<&str>) -> (r: bool)
    ensures
        r == protects_credentials(scheme@, text::opt_str(host)),
        scheme@ == "https"@ ==> r,
        scheme@ != "https"@ ==> (r <==> scheme@ == "http"@ && (host matches Some(h) && (h@ == "localhost"@ || h@
            == "127.0.0.1"@ || h@ == "[::1]"@))),
{
    if same(scheme, "https") {
        return true;
    }
    if !same(scheme, "http") {
        return false;
    }
    match host {
        Some(h) => same(h, "localhost") || same(h, "127.0.0.1") || same(h, "[::1]"),
        None => false,
    }
}

/// Whether a text is a base URL to which credentials may be sent.
pub open spec fn allowed_base_url(url: Seq<char>) -> bool {
    url_parts(url) matches Some((scheme, host)) && protects_credentials(scheme, host)
}

/// Checks a base URL, and strips its trailing slashes.
///
/// Every request carries credentials, so the URL must be `https`, or `http` to this machine.
pub fn validate_base_url(url: &str) -> (r: PaymentResult<String>)
    ensures
        match r {
            Ok(base) => allowed_base_url(url@) && base@ == text::trim_end_of(url@, '/'),
            Err(e) => !allowed_base_url(url@) && e@ == Fault::Config(
                "base URL must be https, or http to a loopback host: "@ + url@,
            ),
        },
{
    let allowed: bool = match parse_url(url) {
        Some((scheme, host)) => match host {
            Some(h) => is_protected(&scheme, Some(h.as_str())),
            None => is_protected(&scheme, None),
        },
        None => false,
    };
    if allowed {
        Ok(trim_end_of_text(url, '/'))
    } else {
        Err(PaymentError::Config(concat2("base URL must be https, or http to a loopback host: ", url)))
    }
}

/// What a status stands for, whatever the provider: refused credentials for 401 and 403, throttling
/// for 429, and a failure of the gateway with that status for every other. The message names the
/// provider and the status, and shows the body redacted. Throttling without a delay asks for one
/// second.
pub proof fn statuses_are_told_apart(provider: Seq<char>, status: u16, body: Seq<char>, retry_after: Option<u32>)
    ensures
        ({
            let fault = status_fault(provider, status, body, retry_after);
            let message = provider + " returned HTTP "@ + text::int_text(status as int) + ": "@ + redact::sanitized(body);
            &&& status == 401 || status == 403 ==> fault == Fault::Authentication(message)
            &&& status == 429 && retry_after is None ==> fault == Fault::RateLimited(1)
            &&& status == 429 && retry_after is Some ==> fault == Fault::RateLimited(retry_after->0)
            &&& status != 401 && status != 403 && status != 429 ==> fault == Fault::Provider(Some(status), message)
        }),
{
}

/// A reply is a success exactly for the statuses 200 to 299, and only then is its body used. Of any
/// other reply the status tells the error, except that a 404 means what the caller says it means.
pub proof fn body_is_used_on_success_only<T>(
    provider: Seq<char>,
    reply: GatewayReply,
    decoded: Result<T, String>,
    not_found: Option<Fault>,
)
    ensures
        settled(provider, reply, decoded, not_found) is Ok <==> 200 <= reply.status < 300 && decoded is Ok,
        200 <= reply.status < 300 ==> (decoded matches Ok(v) ==> settled(provider, reply, decoded, not_found) == Ok::<
            T,
            Fault,
        >(v)),
        200 <= reply.status < 300 ==> (decoded matches Err(reason) ==> settled(provider, reply, decoded, not_found)
            == Err::<T, Fault>(Fault::Serialization(reason@))),
        reply.status == 404 && not_found is Some ==> settled(provider, reply, decoded, not_found) == Err::<T, Fault>(
            not_found->0,
        ),
        !(200 <= reply.status < 300) && (reply.status != 404 || not_found is None) ==> settled(
            provider,
            reply,
            decoded,
            not_found,
        ) == Err::<T, Fault>(status_fault(provider, reply.status, reply.body@, reply.retry_after)),
{
}

/// A transport failure is retried exactly where nothing shows that the gateway carried the operation
/// out: it did not answer, or it answered 408, 429 or 500 and above. Its words are not shown where it
/// carries a status.
pub proof fn transport_failures_are_told_apart(f: TransportFailure)
    ensures
        f.unreadable ==> transport_fault(f) == Fault::Serialization(f.reason@),
        !f.unreadable && f.unbuildable ==> transport_fault(f) == Fault::Config(f.reason@),
        !f.unreadable && !f.unbuildable && f.status is None ==> transport_fault(f) == Fault::Network(f.reason@),
        !f.unreadable && !f.unbuildable && f.status is Some ==> transport_fault(f) == status_fault(
            "provider"@,
            f.status->0,
            "gateway returned an error status"@,
            None,
        ),
        transport_fault(f).retryable() <==> !f.unreadable && !f.unbuildable && (f.status is None || f.status->0 == 408
            || f.status->0 == 429 || f.status->0 >= 500),
{
}

/// Credentials go out encrypted, or in plain text to this machine only.
pub proof fn plain_text_stays_on_this_machine(scheme: Seq<char>, host: Option<Seq<char>>)
    ensures
        scheme == "https"@ ==> protects_credentials(scheme, host),
        scheme != "https"@ && scheme != "http"@ ==> !protects_credentials(scheme, host),
        scheme != "https"@ && host is None ==> !protects_credentials(scheme, host),
        scheme == "http"@ && scheme != "https"@ ==> (protects_credentials(scheme, host) <==> host == Some("localhost"@)
            || host == Some("127.0.0.1"@) || host == Some("[::1]"@)),
{
}

/// What a request is said to ask for is what it holds, and a key becomes the value of the
/// deduplication header.
pub proof fn request_asks_for_what_it_holds(q: GatewayRequest, name: Seq<char>, key: String)
    ensures
        q@.method == q.method,
        q@.path == q.path@,
        q.dedup is None ==> q@.dedup is None,
        q.dedup matches Some((n, v)) ==> q@.dedup == Some((n@, v@)),
        q.body is Empty ==> q@.body == BodyFields::Empty,
        q.body matches Body::Form(form) ==> q@.body == BodyFields::Form(form@),
        q.body matches Body::Json(doc) ==> q@.body == BodyFields::Json(doc.tree()),
        dedup_header(name, Some(key)) == Some((name, key@)),
        dedup_header(name, None) is None,
{
}

/// A base URL is allowed exactly where it has a scheme and a host to which credentials may be sent.
pub proof fn allowed_urls_protect_credentials(url: Seq<char>)
    ensures
        url_parts(url) is None ==> !allowed_base_url(url),
        url_parts(url) matches Some((scheme, host)) ==> (allowed_base_url(url) <==> scheme == "https"@ || (scheme
            == "http"@ && (host == Some("localhost"@) || host == Some("127.0.0.1"@) || host == Some("[::1]"@)))),
{
}

/// A result says what it holds, and an error what it is.
pub proof fn outcome_says_what_it_is<T>(v: T, e: PaymentError)
    ensures
        outcome(Ok::<T, PaymentError>(v)) == Ok::<T, Fault>(v),
        outcome(Err::<T, PaymentError>(e)) == Err::<T, Fault>(e@),
        opt_fault(Some(e)) == Some(e@),
        opt_fault(None) is None,
{
}

} // verus!
