//! The payment processor: which operations may be retried, how often, and after what delay.
use crate::clock::epoch_nanos;
use crate::error::{Fault, PaymentError, PaymentResult};
use crate::origins;
use crate::types::{ChargeRequest, RefundRequest};
use crate::webhook::{WebhookEvent, WebhookHeaders};
use vstd::arithmetic::power2::*;
use vstd::prelude::*;

verus! {

/// A payment gateway, as far as the retry policy is concerned.
pub trait PaymentProvider {
    /// The name of the provider.
    spec fn provider_name(&self) -> Seq<char>;

    /// Whether the gateway collapses a repeated request into the one it already carried out.
    spec fn deduplicates(&self) -> bool;

    /// The name of the provider.
    fn name(&self) -> (r: &'static str)
        ensures
            r@ == self.provider_name(),
    ;

    /// Whether a retried charge or refund collapses onto the original result instead of moving
    /// money twice.
    fn supports_idempotency(&self) -> (r: bool)
        ensures
            r == self.deduplicates(),
    ;
}

/// What the retry policy has to know of a provider, as plain values.
#[derive(Debug, Clone, Copy)]
pub struct ProviderProfile {
    /// The name of the provider.
    pub name: &'static str,
    /// Whether the gateway collapses a repeated request into the one it already carried out.
    pub deduplicates: bool,
}

impl PaymentProvider for ProviderProfile {
    open spec fn provider_name(&self) -> Seq<char> {
        self.name@
    }

    open spec fn deduplicates(&self) -> bool {
        self.deduplicates
    }

    fn name(&self) -> (r: &'static str) {
        self.name
    }

    fn supports_idempotency(&self) -> (r: bool) {
        self.deduplicates
    }
}

/// Ceiling on a gateway-supplied `Retry-After`, in milliseconds (one hour).
///
/// A gateway's own figure wins over the local schedule, but it comes from outside, so it is not
/// unbounded.
pub const MAX_SERVER_RETRY_AFTER_MS: u64 = 3_600_000;

/// Processor configuration
#[derive(Debug, Clone, Copy, PartialEq, Eq, Structural)]
pub struct ProcessorConfig {
    /// Retry failed charges. A retry additionally requires the provider to support idempotency and
    /// the request to carry a key.
    pub retry_failed: bool,
    /// Maximum retry attempts
    pub max_retries: u32,
    /// Base retry delay in milliseconds, the delay of the first retry.
    pub retry_delay_ms: u64,
    /// Upper bound on the locally scheduled retry delay, in milliseconds.
    pub max_retry_delay_ms: u64,
    /// Enable idempotency keys
    pub use_idempotency: bool,
    /// Log all transactions
    pub log_transactions: bool,
}

/// Default ceiling on a single locally scheduled retry delay (30s).
pub fn default_max_retry_delay_ms() -> (r: u64)
    ensures
        r == 30_000,
{
    30_000
}

impl Default for ProcessorConfig {
    fn default() -> (r: Self)
        ensures
            r == (ProcessorConfig {
                retry_failed: true,
                max_retries: 3,
                retry_delay_ms: 1000,
                max_retry_delay_ms: 30_000,
                use_idempotency: true,
                log_transactions: true,
            }),
    {
        ProcessorConfig {
            retry_failed: true,
            max_retries: 3,
            retry_delay_ms: 1000,
            max_retry_delay_ms: default_max_retry_delay_ms(),
            use_idempotency: true,
            log_transactions: true,
        }
    }
}

/// The smaller of two numbers.
pub open spec fn least(a: int, b: int) -> int {
    if a <= b {
        a
    } else {
        b
    }
}

/// The larger of two numbers.
pub open spec fn greatest(a: int, b: int) -> int {
    if a <= b {
        b
    } else {
        a
    }
}

/// A delay moved by up to a fifth, by how far `nanos` says.
pub open spec fn jittered(delay_ms: int, nanos: int) -> int {
    let spread = delay_ms / 5;
    if spread == 0 {
        delay_ms
    } else {
        least(delay_ms + nanos % (2 * spread + 1), u64::MAX as int) - spread
    }
}

/// The local bound on a delay: a cap below the base delay is a misconfiguration, not an instruction
/// to remove the backoff.
pub open spec fn local_cap(config: ProcessorConfig) -> int {
    greatest(config.max_retry_delay_ms as int, config.retry_delay_ms as int)
}

/// The delay before retry number `attempt` on the local schedule, which doubles each time, before
/// it is moved and bounded.
pub open spec fn scheduled(config: ProcessorConfig, attempt: u32) -> int {
    let doublings: nat = if attempt == 0 {
        0
    } else {
        (attempt - 1) as nat
    };
    least(config.retry_delay_ms * pow2(doublings), u64::MAX as int)
}

/// The delay in milliseconds before retry number `attempt` after the given error.
pub open spec fn delay_after(config: ProcessorConfig, fault: Fault, attempt: u32, nanos: int) -> int {
    match fault.server_delay() {
        Some(secs) => least(secs * 1000, MAX_SERVER_RETRY_AFTER_MS as int),
        None => if config.retry_delay_ms == 0 {
            0
        } else {
            least(jittered(scheduled(config, attempt), nanos), local_cap(config))
        },
    }
}

/// The number of attempts that a run may make.
pub open spec fn attempts_allowed(config: ProcessorConfig, retry_safe: bool) -> int {
    if retry_safe {
        least(config.max_retries + 1, u32::MAX as int)
    } else {
        1
    }
}

/// Whether another attempt is made after attempt number `attempt` has failed with the given error.
pub open spec fn tries_again(config: ProcessorConfig, retry_safe: bool, fault: Fault, attempt: int) -> bool {
    fault.retryable() && attempt < attempts_allowed(config, retry_safe)
}

/// A delay moved by up to a fifth, by how far `nanos` says.
pub fn jitter(delay_ms: u64, nanos: u32) -> (r: u64)
    ensures
        r == jittered(delay_ms as int, nanos as int),
{
    let spread: u64 = delay_ms / 5;
    if spread == 0 {
        return delay_ms;
    }
    let offset: u64 = nanos as u64 % (2 * spread + 1);
    let moved: u64 = if delay_ms > u64::MAX - offset {
        u64::MAX
    } else {
        delay_ms + offset
    };
    moved - spread
}

/// Nanoseconds in a second.
pub const NANOS_PER_SEC: u32 = 1_000_000_000;

/// Whether a number is what spreads retries: the nanoseconds that the clock has given, and zero only
/// where those are zero or the clock has none to give.
pub open spec fn spreads(nanos: u32) -> bool {
    exists|answer: Option<u32>| #[trigger]
        origins::is_nanos_reading(answer) && nanos == (match answer {
            Some(n) => n,
            None => 0,
        })
}

/// What spreads the retries of different callers: the nanoseconds of the clock. A clock that is set
/// before the epoch spreads nothing.
fn spread_nanos() -> (r: u32)
    ensures
        r < NANOS_PER_SEC,
        spreads(r),
{
    let answer = epoch_nanos();
    proof {
        assert(origins::is_nanos_reading(answer));
    }
    match answer {
        Some(nanos) => nanos,
        None => 0,
    }
}

/// `base` doubled `doublings` times, or the largest number where that is larger still.
fn doubled(base: u64, doublings: u32) -> (r: u64)
    ensures
        r == least(base * pow2(doublings as nat), u64::MAX as int),
{
    let mut value: u64 = base;
    let mut i: u32 = 0;
    proof {
        lemma2_to64();
    }
    while i < doublings
        invariant
            i <= doublings,
            value == base * pow2(i as nat),
        decreases doublings - i,
    {
        proof {
            lemma_pow2_unfold((i + 1) as nat);
            assert(base * (2 * pow2(i as nat)) == 2 * (base * pow2(i as nat))) by (nonlinear_arith);
        }
        if value > u64::MAX / 2 {
            proof {
                lemma_pow2_monotone((i + 1) as nat, doublings as nat);
                let small = pow2((i + 1) as nat) as int;
                let large = pow2(doublings as nat) as int;
                assert(base * small <= base * large) by (nonlinear_arith)
                    requires
                        small <= large,
                        base >= 0,
                ;
            }
            return u64::MAX;
        }
        if value == 0 {
            proof {
                lemma_pow2_pos(i as nat);
                assert(base == 0) by (nonlinear_arith)
                    requires
                        base * pow2(i as nat) == 0,
                        pow2(i as nat) > 0,
                ;
                assert(0 * pow2(doublings as nat) == 0);
            }
            return 0;
        }
        value = value * 2;
        i += 1;
    }
    value
}

proof fn lemma_pow2_monotone(a: nat, b: nat)
    requires
        a <= b,
    ensures
        pow2(a) <= pow2(b),
    decreases b - a,
{
    if a < b {
        lemma_pow2_monotone(a, (b - 1) as nat);
        lemma_pow2_unfold(b);
    }
}

/// `uuid::Uuid::new_v4`, in its hyphenated form of 36 characters: a new random key each time.
#[verifier::external_body]
fn fresh_key() -> (r: String)
    ensures
        r@.len() == 36,
        origins::is_random_key(r@),
{
    uuid::Uuid::new_v4().to_string()
}

/// Main payment processor
pub struct PaymentProcessor<P: PaymentProvider> {
    provider: P,
    config: ProcessorConfig,
}

impl<P: PaymentProvider> PaymentProcessor<P> {
    /// The provider that payments go to.
    pub closed spec fn gateway(&self) -> P {
        self.provider
    }

    /// The policy in force.
    pub closed spec fn policy(&self) -> ProcessorConfig {
        self.config
    }

    /// Create a new payment processor
    pub fn new(provider: P) -> (r: Self)
        ensures
            r.gateway() == provider,
            r.policy() == (ProcessorConfig {
                retry_failed: true,
                max_retries: 3,
                retry_delay_ms: 1000,
                max_retry_delay_ms: 30_000,
                use_idempotency: true,
                log_transactions: true,
            }),
    {
        PaymentProcessor { provider, config: ProcessorConfig::default() }
    }

    /// Create with custom configuration
    pub fn with_config(provider: P, config: ProcessorConfig) -> (r: Self)
        ensures
            r.gateway() == provider,
            r.policy() == config,
    {
        PaymentProcessor { provider, config }
    }

    /// Get the provider
    pub fn provider(&self) -> (r: &P)
        ensures
            *r == self.gateway(),
    {
        &self.provider
    }

    /// The processor's configuration.
    pub fn config(&self) -> (r: &ProcessorConfig)
        ensures
            *r == self.policy(),
    {
        &self.config
    }

    /// Whether re-submitting a money-moving operation is safe: the gateway deduplicates by
    /// idempotency key, and this request carries one.
    pub fn retry_is_safe(&self, has_key: bool) -> (r: bool)
        ensures
            r == (self.policy().retry_failed && self.gateway().deduplicates() && has_key),
    {
        if !self.config.retry_failed {
            return false;
        }
        self.provider.supports_idempotency() && has_key
    }

    /// Whether a request has to be given a key: it has none of its own, and keys are enabled.
    pub fn lacks_key(&self, own: &Option<String>) -> (r: bool)
        ensures
            r == (own is None && self.policy().use_idempotency),
    {
        own.is_none() && self.config.use_idempotency
    }

    /// The key that a request goes out with: its own, or else `fresh` where keys are enabled.
    pub fn key_for(&self, own: Option<String>, fresh: String) -> (r: Option<String>)
        ensures
            r == (match own {
                Some(k) => Some(k),
                None => if self.policy().use_idempotency {
                    Some(fresh)
                } else {
                    None
                },
            }),
    {
        match own {
            Some(k) => Some(k),
            None => if self.config.use_idempotency {
                Some(fresh)
            } else {
                None
            },
        }
    }

    /// The charge request as every attempt sends it: one idempotency key for all of them.
    pub fn prepare_charge(&self, request: ChargeRequest) -> (r: ChargeRequest)
        ensures
            r == (ChargeRequest { idempotency_key: r.idempotency_key, ..request }),
            request.idempotency_key is Some ==> r.idempotency_key == request.idempotency_key,
            request.idempotency_key is None && !self.policy().use_idempotency ==> r.idempotency_key is None,
            request.idempotency_key is None && self.policy().use_idempotency ==> (r.idempotency_key matches Some(k)
                && k@.len() == 36 && origins::is_random_key(k@)),
    {
        let mut request = request;
        if self.lacks_key(&request.idempotency_key) {
            let key = self.key_for(request.idempotency_key, fresh_key());
            request.idempotency_key = key;
        }
        request
    }

    /// The refund request as every attempt sends it: one idempotency key for all of them.
    pub fn prepare_refund(&self, request: RefundRequest) -> (r: RefundRequest)
        ensures
            r == (RefundRequest { idempotency_key: r.idempotency_key, ..request }),
            request.idempotency_key is Some ==> r.idempotency_key == request.idempotency_key,
            request.idempotency_key is None && !self.policy().use_idempotency ==> r.idempotency_key is None,
            request.idempotency_key is None && self.policy().use_idempotency ==> (r.idempotency_key matches Some(k)
                && k@.len() == 36 && origins::is_random_key(k@)),
    {
        let mut request = request;
        if self.lacks_key(&request.idempotency_key) {
            let key = self.key_for(request.idempotency_key, fresh_key());
            request.idempotency_key = key;
        }
        request
    }

    /// The number of attempts that a run may make.
    pub fn max_attempts(&self, retry_safe: bool) -> (r: u32)
        ensures
            r == attempts_allowed(self.policy(), retry_safe),
            r >= 1,
            !retry_safe ==> r == 1,
            retry_safe && self.policy().max_retries < u32::MAX ==> r == self.policy().max_retries + 1,
            retry_safe && self.policy().max_retries == u32::MAX ==> r == u32::MAX,
    {
        if retry_safe {
            if self.config.max_retries == u32::MAX {
                u32::MAX
            } else {
                self.config.max_retries + 1
            }
        } else {
            1
        }
    }

    /// How long to wait, in milliseconds, before retry number `attempt` (1-based), where `nanos`
    /// spreads the local schedule.
    ///
    /// A gateway-supplied `Retry-After` wins outright and is bounded only by
    /// [`MAX_SERVER_RETRY_AFTER_MS`].
    pub fn retry_delay_with(&self, error: &PaymentError, attempt: u32, nanos: u32) -> (r: u64)
        ensures
            r == delay_after(self.policy(), error@, attempt, nanos as int),
            error matches PaymentError::RateLimited(secs) ==> r == (if *secs <= 3600 {
                *secs * 1000
            } else {
                3_600_000
            }),
            !(error is RateLimited) ==> r <= self.policy().max_retry_delay_ms || r <= self.policy().retry_delay_ms,
    {
        let cap: u64 = if self.config.max_retry_delay_ms <= self.config.retry_delay_ms {
            self.config.retry_delay_ms
        } else {
            self.config.max_retry_delay_ms
        };
        match error.retry_after() {
            Some(secs) => {
                if secs > 3_600 {
                    return MAX_SERVER_RETRY_AFTER_MS;
                }
                return secs * 1000;
            },
            None => {},
        }
        if self.config.retry_delay_ms == 0 {
            return 0;
        }
        let doublings: u32 = if attempt == 0 {
            0
        } else {
            attempt - 1
        };
        let raw: u64 = doubled(self.config.retry_delay_ms, doublings);
        let moved: u64 = jitter(raw, nanos);
        if moved <= cap {
            moved
        } else {
            cap
        }
    }

    /// How long to wait, in milliseconds, before retry number `attempt` (1-based).
    pub fn retry_delay(&self, error: &PaymentError, attempt: u32) -> (r: u64)
        ensures
            exists|nanos: u32| nanos < NANOS_PER_SEC && spreads(nanos) && r == #[trigger] delay_after(self.policy(), error@, attempt, nanos as int),
    {
        let nanos: u32 = spread_nanos();
        self.retry_delay_with(error, attempt, nanos)
    }

    /// Spread a delay by ±20%, so that concurrent failures do not resynchronize. The clock is
    /// entropy enough: it only has to tell callers apart.
    pub fn apply_jitter(delay_ms: u64) -> (r: u64)
        ensures
            exists|nanos: u32| nanos < NANOS_PER_SEC && spreads(nanos) && r == #[trigger] jittered(delay_ms as int, nanos as int),
            delay_ms - delay_ms / 5 <= r <= delay_ms + delay_ms / 5,
    {
        let nanos: u32 = spread_nanos();
        let r: u64 = jitter(delay_ms, nanos);
        proof {
            jitter_is_within_a_fifth(delay_ms, nanos as int);
        }
        r
    }

    /// The webhook with the given body and headers, to be taken from stage to stage by
    /// [`InboundWebhook::next`].
    pub fn handle_webhook<'a>(&self, payload: &'a [u8], headers: &'a WebhookHeaders) -> (r: InboundWebhook<'a>)
        ensures
            r.payload == payload,
            r.headers == headers,
    {
        InboundWebhook { payload, headers }
    }

    /// What to do after attempt number `attempt` has failed: wait so many milliseconds and try
    /// again, or give up and report the error.
    pub fn after_failure(&self, error: &PaymentError, attempt: u32, retry_safe: bool) -> (r: Option<u64>)
        ensures
            r is Some <==> tries_again(self.policy(), retry_safe, error@, attempt as int),
            r is Some ==> (error is Network || error is RateLimited || error is Provider),
            r is Some && attempt > 0 ==> retry_safe && attempt <= self.policy().max_retries,
            error is Network && retry_safe && attempt <= self.policy().max_retries && attempt < u32::MAX ==> r is Some,
            r matches Some(ms) ==> exists|nanos: u32|
                nanos < NANOS_PER_SEC && spreads(nanos) && ms == #[trigger] delay_after(self.policy(), error@, attempt, nanos as int),
    {
        if error.is_retryable() && attempt < self.max_attempts(retry_safe) {
            Some(self.retry_delay(error, attempt))
        } else {
            None
        }
    }
}

/// How far an inbound webhook has come.
pub enum WebhookStage {
    /// It has arrived.
    Received,
    /// The provider was asked whether it is authentic, and answered.
    Checked(PaymentResult<()>),
    /// The provider has read it.
    Read(PaymentResult<WebhookEvent>),
}

/// What is to be done about an inbound webhook.
pub enum WebhookAction<'a> {
    /// Ask the provider whether these bytes, which came with these headers, are authentic.
    Verify(&'a [u8], &'a WebhookHeaders),
    /// Have the provider read these bytes.
    Parse(&'a [u8]),
    /// Hand this back.
    Return(PaymentResult<WebhookEvent>),
}

/// An inbound webhook: its body and its headers.
pub struct InboundWebhook<'a> {
    pub payload: &'a [u8],
    pub headers: &'a WebhookHeaders,
}

/// Whether `action` is what is to be done about a webhook at the given stage.
pub open spec fn is_next(webhook: InboundWebhook, stage: WebhookStage, action: WebhookAction) -> bool {
    match stage {
        WebhookStage::Received => action == WebhookAction::Verify(webhook.payload, webhook.headers),
        WebhookStage::Checked(Ok(())) => action == WebhookAction::Parse(webhook.payload),
        WebhookStage::Checked(Err(e)) => action == WebhookAction::Return(Err(e)),
        WebhookStage::Read(r) => action == WebhookAction::Return(r),
    }
}

impl<'a> InboundWebhook<'a> {
    /// What is to be done about the webhook at the given stage.
    pub fn next(&self, stage: WebhookStage) -> (r: WebhookAction<'a>)
        ensures
            is_next(*self, stage, r),
            stage is Received ==> r == WebhookAction::Verify(self.payload, self.headers),
            stage == WebhookStage::Checked(Ok(())) ==> r == WebhookAction::Parse(self.payload),
            stage matches WebhookStage::Checked(Err(e)) ==> r == WebhookAction::Return(Err(e)),
            stage matches WebhookStage::Read(out) ==> r == WebhookAction::Return(out),
    {
        match stage {
            WebhookStage::Received => WebhookAction::Verify(self.payload, self.headers),
            WebhookStage::Checked(Ok(())) => WebhookAction::Parse(self.payload),
            WebhookStage::Checked(Err(e)) => WebhookAction::Return(Err(e)),
            WebhookStage::Read(r) => WebhookAction::Return(r),
        }
    }
}

/// Whether `actions` are what is done about a webhook from the given stage on, where `verdict` and
/// `parsed` are what the provider answers: up to the first that hands something back.
pub open spec fn is_run(
    webhook: InboundWebhook,
    stage: WebhookStage,
    actions: Seq<WebhookAction>,
    verdict: PaymentResult<()>,
    parsed: PaymentResult<WebhookEvent>,
) -> bool
    decreases actions.len(),
{
    &&& actions.len() > 0
    &&& is_next(webhook, stage, actions[0])
    &&& match actions[0] {
        WebhookAction::Verify(_, _) => is_run(
            webhook,
            WebhookStage::Checked(verdict),
            actions.skip(1),
            verdict,
            parsed,
        ),
        WebhookAction::Parse(_) => is_run(webhook, WebhookStage::Read(parsed), actions.skip(1), verdict, parsed),
        WebhookAction::Return(_) => actions.len() == 1,
    }
}

/// Whatever the provider, a webhook is verified first, and once, by its own bytes and headers. One
/// that is refused is never read, and its refusal is handed back; one that is authentic is read
/// once, by the same bytes, and what was read is handed back.
pub proof fn verified_before_read(
    webhook: InboundWebhook,
    actions: Seq<WebhookAction>,
    verdict: PaymentResult<()>,
    parsed: PaymentResult<WebhookEvent>,
)
    requires
        is_run(webhook, WebhookStage::Received, actions, verdict, parsed),
    ensures
        actions == (match verdict {
            Ok(()) => seq![
                WebhookAction::Verify(webhook.payload, webhook.headers),
                WebhookAction::Parse(webhook.payload),
                WebhookAction::Return(parsed),
            ],
            Err(e) => seq![
                WebhookAction::Verify(webhook.payload, webhook.headers),
                WebhookAction::Return(Err(e)),
            ],
        }),
{
    reveal_with_fuel(is_run, 4);
    let second = actions.skip(1);
    assert(second[0] == actions[1]);
    if verdict is Ok {
        let third = second.skip(1);
        assert(third[0] == actions[2]);
        assert(third.len() == 1);
    }
}

/// The attempts that a run makes from attempt number `attempt` on, where the attempts end as
/// `answers` says in turn: with success, or with an error.
pub open spec fn attempts_made(
    config: ProcessorConfig,
    retry_safe: bool,
    answers: Seq<Option<Fault>>,
    attempt: int,
) -> int
    decreases answers.len(),
{
    if answers.len() == 0 {
        0
    } else {
        match answers[0] {
            Some(fault) => if tries_again(config, retry_safe, fault, attempt) {
                1 + attempts_made(config, retry_safe, answers.skip(1), attempt + 1)
            } else {
                1
            },
            None => 1,
        }
    }
}

/// A run makes no more attempts than are allowed, whatever comes back.
pub proof fn run_is_bounded(config: ProcessorConfig, retry_safe: bool, answers: Seq<Option<Fault>>, attempt: int)
    requires
        1 <= attempt <= attempts_allowed(config, retry_safe),
    ensures
        attempt - 1 + attempts_made(config, retry_safe, answers, attempt) <= attempts_allowed(config, retry_safe),
    decreases answers.len(),
{
    if answers.len() > 0 {
        match answers[0] {
            Some(fault) => if tries_again(config, retry_safe, fault, attempt) {
                run_is_bounded(config, retry_safe, answers.skip(1), attempt + 1);
            },
            None => {},
        }
    }
}

/// Where a retry is not safe, or the first error cannot be retried, exactly one attempt is made.
pub proof fn unsafe_run_is_single(config: ProcessorConfig, retry_safe: bool, answers: Seq<Option<Fault>>)
    requires
        answers.len() > 0,
        !retry_safe || answers[0] is None || !(answers[0]->0).retryable(),
    ensures
        attempts_made(config, retry_safe, answers, 1) == 1,
{
}

/// A safe run that only ever meets errors that can be retried uses every attempt it is allowed.
pub proof fn persistent_failure_uses_every_attempt(
    config: ProcessorConfig,
    answers: Seq<Option<Fault>>,
    attempt: int,
)
    requires
        1 <= attempt <= attempts_allowed(config, true),
        answers.len() >= attempts_allowed(config, true) - attempt + 1,
        forall|i: int| 0 <= i < answers.len() ==> (#[trigger] answers[i]) is Some && (answers[i]->0).retryable(),
    ensures
        attempt - 1 + attempts_made(config, true, answers, attempt) == attempts_allowed(config, true),
    decreases answers.len(),
{
    assert(answers[0] is Some);
    if attempt < attempts_allowed(config, true) {
        let rest = answers.skip(1);
        assert forall|i: int| 0 <= i < rest.len() implies (#[trigger] rest[i]) is Some && (rest[i]->0).retryable() by {
            assert(rest[i] == answers[i + 1]);
        }
        persistent_failure_uses_every_attempt(config, rest, attempt + 1);
    }
}

/// A delay is moved by at most a fifth either way.
pub proof fn jitter_is_within_a_fifth(delay_ms: u64, nanos: int)
    requires
        0 <= nanos,
    ensures
        delay_ms - delay_ms / 5 <= jittered(delay_ms as int, nanos) <= delay_ms + delay_ms / 5,
        0 <= jittered(delay_ms as int, nanos) <= u64::MAX,
{
    let spread = delay_ms as int / 5;
    if spread > 0 {
        let width = 2 * spread + 1;
        assert(0 <= nanos % width < width) by (nonlinear_arith)
            requires
                width > 0,
        ;
    }
}

/// A delay that the gateway asked for is kept, whatever the local bound, up to one hour.
pub proof fn server_delay_wins(config: ProcessorConfig, fault: Fault, attempt: u32, nanos: int)
    requires
        fault.server_delay() is Some,
    ensures
        delay_after(config, fault, attempt, nanos) <= MAX_SERVER_RETRY_AFTER_MS,
        fault.server_delay()->0 * 1000 <= MAX_SERVER_RETRY_AFTER_MS ==> delay_after(config, fault, attempt, nanos)
            == fault.server_delay()->0 * 1000,
{
}

/// Without a figure of the gateway, a delay stays within the local bound; and unless the base delay
/// is zero, no bound takes the backoff away.
pub proof fn local_delay_is_bounded_and_kept(config: ProcessorConfig, fault: Fault, attempt: u32, nanos: int)
    requires
        fault.server_delay() is None,
        0 <= nanos,
    ensures
        0 <= delay_after(config, fault, attempt, nanos) <= local_cap(config),
        delay_after(config, fault, attempt, nanos) >= config.retry_delay_ms - config.retry_delay_ms / 5,
        config.retry_delay_ms > 0 ==> delay_after(config, fault, attempt, nanos) > 0,
{
    let base = config.retry_delay_ms as int;
    if base > 0 {
        let doublings: nat = if attempt == 0 {
            0
        } else {
            (attempt - 1) as nat
        };
        lemma_pow2_pos(doublings);
        let p = pow2(doublings) as int;
        assert(base * p >= base) by (nonlinear_arith)
            requires
                p >= 1,
                base > 0,
        ;
        let raw = scheduled(config, attempt);
        assert(base <= raw <= u64::MAX);
        jitter_is_within_a_fifth(raw as u64, nanos);
        assert(raw - raw / 5 >= base - base / 5);
    }
}

/// A charge or refund is sent a second time only where retries are on, the gateway deduplicates,
/// and the request carries a key.
pub proof fn retried_only_when_safe<P: PaymentProvider>(processor: PaymentProcessor<P>, has_key: bool, attempt: u32)
    requires
        1 <= attempt,
        attempt < attempts_allowed(
            processor.policy(),
            processor.policy().retry_failed && processor.gateway().deduplicates() && has_key,
        ),
    ensures
        processor.policy().retry_failed,
        processor.gateway().deduplicates(),
        has_key,
        attempt <= processor.policy().max_retries,
{
}

/// The number of attempts is one where a retry is not safe, and otherwise one more than the retries
/// that are configured. A higher number of retries never means fewer attempts.
pub proof fn one_attempt_more_than_retries(config: ProcessorConfig, more: ProcessorConfig)
    requires
        config.max_retries <= more.max_retries,
    ensures
        attempts_allowed(config, false) == 1,
        config.max_retries < u32::MAX ==> attempts_allowed(config, true) == config.max_retries + 1,
        attempts_allowed(config, true) <= attempts_allowed(more, true),
        1 <= attempts_allowed(config, true) <= u32::MAX,
{
}

/// After attempt number `attempt` of a safe run, an error that can be retried is retried exactly
/// while retries are left; any other error ends the run, and so does any error of an unsafe run.
pub proof fn retried_while_retries_are_left(config: ProcessorConfig, fault: Fault, attempt: int)
    requires
        1 <= attempt,
        config.max_retries < u32::MAX,
    ensures
        tries_again(config, true, fault, attempt) <==> fault.retryable() && attempt <= config.max_retries,
        !tries_again(config, false, fault, attempt),
{
}

/// The local schedule starts at the base delay, and each retry waits twice as long as the one before
/// it, up to the largest number.
pub proof fn schedule_doubles(config: ProcessorConfig, attempt: u32)
    requires
        1 <= attempt < u32::MAX,
    ensures
        scheduled(config, 0) == config.retry_delay_ms,
        scheduled(config, 1) == config.retry_delay_ms,
        scheduled(config, (attempt + 1) as u32) == (if 2 * scheduled(config, attempt) <= u64::MAX {
            2 * scheduled(config, attempt)
        } else {
            u64::MAX as int
        }),
{
    lemma2_to64();
    let n = (attempt - 1) as nat;
    lemma_pow2_unfold(n + 1);
    let base = config.retry_delay_ms as int;
    assert(pow2(0) == 1);
    assert(base * 1 == base);
    let p = pow2(n) as int;
    assert(base * (2 * p) == 2 * (base * p)) by (nonlinear_arith);
    lemma_pow2_pos(n);
    assert(base * p >= 0) by (nonlinear_arith)
        requires
            p > 0,
            base >= 0,
    ;
}

/// Every delay within a fifth is reached: one more nanosecond is one more millisecond, from the
/// shortest delay up to the longest, and then from the shortest again.
pub proof fn jitter_reaches_every_delay(delay_ms: u64, step: int, rounds: int)
    requires
        delay_ms + step <= u64::MAX,
        0 <= step <= 2 * (delay_ms / 5),
        0 <= rounds,
    ensures
        jittered(delay_ms as int, step) == delay_ms - delay_ms / 5 + step,
        jittered(delay_ms as int, step + rounds * (2 * (delay_ms / 5) + 1)) == jittered(delay_ms as int, step),
{
    let spread = delay_ms as int / 5;
    let width = 2 * spread + 1;
    if spread > 0 {
        vstd::arithmetic::div_mod::lemma_small_mod(step as nat, width as nat);
        vstd::arithmetic::div_mod::lemma_mod_multiples_vanish(rounds, step, width);
        assert(width * rounds + step == step + rounds * width) by (nonlinear_arith);
    }
}

/// Without a figure of the gateway, retry number `attempt` waits for the base delay doubled
/// `attempt - 1` times, give or take a fifth, unless that is longer than the local bound, which is
/// the larger of the base delay and the configured maximum.
pub proof fn backoff_is_exponential(config: ProcessorConfig, fault: Fault, attempt: u32, nanos: int)
    requires
        fault.server_delay() is None,
        0 <= nanos,
        1 <= attempt,
        config.retry_delay_ms * pow2((attempt - 1) as nat) <= u64::MAX,
    ensures
        ({
            let raw = config.retry_delay_ms * pow2((attempt - 1) as nat);
            let delay = delay_after(config, fault, attempt, nanos);
            &&& delay <= raw + raw / 5
            &&& delay <= config.max_retry_delay_ms || delay <= config.retry_delay_ms
            &&& delay >= raw - raw / 5 || (delay >= config.max_retry_delay_ms && delay >= config.retry_delay_ms)
        }),
{
    let base = config.retry_delay_ms as int;
    let p = pow2((attempt - 1) as nat) as int;
    lemma_pow2_pos((attempt - 1) as nat);
    assert(base * p >= 0 && (base == 0 ==> base * p == 0)) by (nonlinear_arith)
        requires
            p > 0,
            base >= 0,
    ;
    jitter_is_within_a_fifth((base * p) as u64, nanos);
}

} // verus!
