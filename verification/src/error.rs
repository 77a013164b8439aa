//! Errors of payment processing and how they are classified.
use crate::text::{self, concat2, concat3, owned, same, to_lowercase, unsigned_text};
use vstd::prelude::*;

verus! {

/// Payment error types
#[derive(Debug)]
pub enum PaymentError {
    /// Card declined
    CardDeclined(String),
    /// Expired card
    CardExpired,
    /// Insufficient funds
    InsufficientFunds,
    /// Customer not found
    CustomerNotFound(String),
    /// Subscription not found
    SubscriptionNotFound(String),
    /// Payment method not found
    PaymentMethodNotFound(String),
    /// Charge not found
    ChargeNotFound(String),
    /// Refund not found
    RefundNotFound(String),
    /// Duplicate transaction
    DuplicateTransaction(String),
    /// Invalid webhook signature
    InvalidWebhookSignature,
    /// Provider error.
    ///
    /// `status` is the HTTP status that the gateway replied with, when there was one. It tells a
    /// transient 502 of a load balancer from a permanent 400: see [`PaymentError::is_retryable`].
    Provider {
        /// HTTP status returned by the gateway, if any.
        status: Option<u16>,
        /// Gateway-supplied, already sanitized error message.
        message: String,
    },
    /// Network error
    Network(String),
    /// Rate limited
    RateLimited(u32),
    /// Authentication error
    Authentication(String),
    /// Validation error
    Validation(String),
    /// Configuration error
    Config(String),
    /// Serialization error
    Serialization(String),
    /// The provider's API does not expose this operation. A permanent gap of the gateway, so it is
    /// never retryable.
    Unsupported(String),
}

/// Result type for payment operations
pub type PaymentResult<T> = Result<T, PaymentError>;

/// What a [`PaymentError`] says.
pub enum Fault {
    CardDeclined(Seq<char>),
    CardExpired,
    InsufficientFunds,
    CustomerNotFound(Seq<char>),
    SubscriptionNotFound(Seq<char>),
    PaymentMethodNotFound(Seq<char>),
    ChargeNotFound(Seq<char>),
    RefundNotFound(Seq<char>),
    DuplicateTransaction(Seq<char>),
    InvalidWebhookSignature,
    Provider(Option<u16>, Seq<char>),
    Network(Seq<char>),
    RateLimited(u32),
    Authentication(Seq<char>),
    Validation(Seq<char>),
    Config(Seq<char>),
    Serialization(Seq<char>),
    Unsupported(Seq<char>),
}

impl View for PaymentError {
    type V = Fault;

    open spec fn view(&self) -> Fault {
        match *self {
            PaymentError::CardDeclined(s) => Fault::CardDeclined(s@),
            PaymentError::CardExpired => Fault::CardExpired,
            PaymentError::InsufficientFunds => Fault::InsufficientFunds,
            PaymentError::CustomerNotFound(s) => Fault::CustomerNotFound(s@),
            PaymentError::SubscriptionNotFound(s) => Fault::SubscriptionNotFound(s@),
            PaymentError::PaymentMethodNotFound(s) => Fault::PaymentMethodNotFound(s@),
            PaymentError::ChargeNotFound(s) => Fault::ChargeNotFound(s@),
            PaymentError::RefundNotFound(s) => Fault::RefundNotFound(s@),
            PaymentError::DuplicateTransaction(s) => Fault::DuplicateTransaction(s@),
            PaymentError::InvalidWebhookSignature => Fault::InvalidWebhookSignature,
            PaymentError::Provider { status, message } => Fault::Provider(status, message@),
            PaymentError::Network(s) => Fault::Network(s@),
            PaymentError::RateLimited(secs) => Fault::RateLimited(secs),
            PaymentError::Authentication(s) => Fault::Authentication(s@),
            PaymentError::Validation(s) => Fault::Validation(s@),
            PaymentError::Config(s) => Fault::Config(s@),
            PaymentError::Serialization(s) => Fault::Serialization(s@),
            PaymentError::Unsupported(s) => Fault::Unsupported(s@),
        }
    }
}

impl Fault {
    /// Whether a second attempt could plausibly succeed: the transport failed, the gateway
    /// throttled, or it answered 408 or a status of 500 and above.
    pub open spec fn retryable(self) -> bool {
        match self {
            Fault::Network(_) => true,
            Fault::RateLimited(_) => true,
            Fault::Provider(Some(status), _) => status >= 500 || status == 408,
            _ => false,
        }
    }

    /// The seconds that the gateway asked to wait.
    pub open spec fn server_delay(self) -> Option<u64> {
        match self {
            Fault::RateLimited(secs) => Some(secs as u64),
            _ => None,
        }
    }

    /// The text shown for the error.
    pub open spec fn shown(self) -> Seq<char> {
        match self {
            Fault::CardDeclined(s) => "Card declined: "@ + s,
            Fault::CardExpired => "Card expired"@,
            Fault::InsufficientFunds => "Insufficient funds"@,
            Fault::CustomerNotFound(s) => "Customer not found: "@ + s,
            Fault::SubscriptionNotFound(s) => "Subscription not found: "@ + s,
            Fault::PaymentMethodNotFound(s) => "Payment method not found: "@ + s,
            Fault::ChargeNotFound(s) => "Charge not found: "@ + s,
            Fault::RefundNotFound(s) => "Refund not found: "@ + s,
            Fault::DuplicateTransaction(s) => "Duplicate transaction: "@ + s,
            Fault::InvalidWebhookSignature => "Invalid webhook signature"@,
            Fault::Provider(Some(status), s) => "Provider error ("@ + text::int_text(status as int) + "): "@ + s,
            Fault::Provider(None, s) => "Provider error: "@ + s,
            Fault::Network(s) => "Network error: "@ + s,
            Fault::RateLimited(secs) => "Rate limited, retry after "@ + text::int_text(secs as int) + " seconds"@,
            Fault::Authentication(s) => "Authentication error: "@ + s,
            Fault::Validation(s) => "Validation error: "@ + s,
            Fault::Config(s) => "Configuration error: "@ + s,
            Fault::Serialization(s) => "Serialization error: "@ + s,
            Fault::Unsupported(s) => "Unsupported operation: "@ + s,
        }
    }
}

impl PaymentError {
    /// Whether retrying the same operation could plausibly succeed.
    ///
    /// This is not on its own a licence to replay: it says nothing of whether a second attempt is
    /// safe for the customer's money. See `PaymentProcessor::retry_is_safe`.
    pub fn is_retryable(&self) -> (r: bool)
        ensures
            r == self@.retryable(),
            r <==> {
                ||| self is Network
                ||| self is RateLimited
                ||| self matches PaymentError::Provider { status: Some(code), .. } && (*code >= 500 || *code == 408)
            },
    {
        match self {
            PaymentError::Network(_) => true,
            PaymentError::RateLimited(_) => true,
            PaymentError::Provider { status: Some(status), .. } => *status >= 500 || *status == 408,
            _ => false,
        }
    }

    /// The delay, in seconds, that the server explicitly asked for before a retry.
    ///
    /// `None` means that the caller falls back to its own schedule, not that it retries at once.
    pub fn retry_after(&self) -> (r: Option<u64>)
        ensures
            r == self@.server_delay(),
            self matches PaymentError::RateLimited(secs) ==> r == Some(*secs as u64),
            !(self is RateLimited) ==> r is None,
    {
        match self {
            PaymentError::RateLimited(secs) => Some(*secs as u64),
            _ => None,
        }
    }

    /// A [`PaymentError::Provider`] from an optional HTTP status and an already sanitized message.
    pub fn provider(status: Option<u16>, message: &str) -> (r: Self)
        ensures
            r@ == Fault::Provider(status, message@),
    {
        PaymentError::Provider { status, message: owned(message) }
    }

    /// A [`PaymentError::Unsupported`] naming the provider and the operation.
    pub fn unsupported(provider: &str, operation: &str) -> (r: Self)
        ensures
            r@ == Fault::Unsupported(provider@ + " does not support "@ + operation@),
    {
        PaymentError::Unsupported(concat3(provider, " does not support ", operation))
    }

    /// The text shown for the error.
    pub fn to_string(&self) -> (r: String)
        ensures
            r@ == self@.shown(),
            self matches PaymentError::CardDeclined(s) ==> r@ == "Card declined: "@ + s@,
            self matches PaymentError::CustomerNotFound(s) ==> r@ == "Customer not found: "@ + s@,
            self matches PaymentError::SubscriptionNotFound(s) ==> r@ == "Subscription not found: "@ + s@,
            self matches PaymentError::PaymentMethodNotFound(s) ==> r@ == "Payment method not found: "@ + s@,
            self matches PaymentError::ChargeNotFound(s) ==> r@ == "Charge not found: "@ + s@,
            self matches PaymentError::RefundNotFound(s) ==> r@ == "Refund not found: "@ + s@,
            self matches PaymentError::DuplicateTransaction(s) ==> r@ == "Duplicate transaction: "@ + s@,
            self matches PaymentError::Network(s) ==> r@ == "Network error: "@ + s@,
            self matches PaymentError::Authentication(s) ==> r@ == "Authentication error: "@ + s@,
            self matches PaymentError::Validation(s) ==> r@ == "Validation error: "@ + s@,
            self matches PaymentError::Config(s) ==> r@ == "Configuration error: "@ + s@,
            self matches PaymentError::Serialization(s) ==> r@ == "Serialization error: "@ + s@,
            self matches PaymentError::Unsupported(s) ==> r@ == "Unsupported operation: "@ + s@,
            self is CardExpired ==> r@ == "Card expired"@,
            self is InsufficientFunds ==> r@ == "Insufficient funds"@,
            self is InvalidWebhookSignature ==> r@ == "Invalid webhook signature"@,
            self matches PaymentError::Provider { status: Some(code), message } ==> r@ == "Provider error ("@
                + text::int_text(*code as int) + "): "@ + message@,
            self matches PaymentError::Provider { status: None, message } ==> r@ == "Provider error: "@ + message@,
            self matches PaymentError::RateLimited(secs) ==> r@ == "Rate limited, retry after "@ + text::int_text(
                *secs as int,
            ) + " seconds"@,
    {
        match self {
            PaymentError::CardDeclined(s) => concat2("Card declined: ", s),
            PaymentError::CardExpired => owned("Card expired"),
            PaymentError::InsufficientFunds => owned("Insufficient funds"),
            PaymentError::CustomerNotFound(s) => concat2("Customer not found: ", s),
            PaymentError::SubscriptionNotFound(s) => concat2("Subscription not found: ", s),
            PaymentError::PaymentMethodNotFound(s) => concat2("Payment method not found: ", s),
            PaymentError::ChargeNotFound(s) => concat2("Charge not found: ", s),
            PaymentError::RefundNotFound(s) => concat2("Refund not found: ", s),
            PaymentError::DuplicateTransaction(s) => concat2("Duplicate transaction: ", s),
            PaymentError::InvalidWebhookSignature => owned("Invalid webhook signature"),
            PaymentError::Provider { status, message } => match status {
                Some(code) => {
                    let shown = unsigned_text(*code as u64);
                    let head = concat3("Provider error (", &shown, "): ");
                    concat2(&head, message)
                },
                None => concat2("Provider error: ", message),
            },
            PaymentError::Network(s) => concat2("Network error: ", s),
            PaymentError::RateLimited(secs) => {
                let shown = unsigned_text(*secs as u64);
                concat3("Rate limited, retry after ", &shown, " seconds")
            },
            PaymentError::Authentication(s) => concat2("Authentication error: ", s),
            PaymentError::Validation(s) => concat2("Validation error: ", s),
            PaymentError::Config(s) => concat2("Configuration error: ", s),
            PaymentError::Serialization(s) => concat2("Serialization error: ", s),
            PaymentError::Unsupported(s) => concat2("Unsupported operation: ", s),
        }
    }
}

/// Decline code for card errors
#[derive(Debug, Clone, Copy, PartialEq, Eq, Structural)]
pub enum DeclineCode {
    /// Generic decline
    GenericDecline,
    /// Insufficient funds
    InsufficientFunds,
    /// Lost card
    LostCard,
    /// Stolen card
    StolenCard,
    /// Expired card
    ExpiredCard,
    /// Incorrect CVC
    IncorrectCvc,
    /// Processing error
    ProcessingError,
    /// Incorrect number
    IncorrectNumber,
    /// Fraudulent
    Fraudulent,
    /// Unknown
    Unknown,
}

/// The decline code that a text names, whatever the case of its letters.
pub open spec fn decline_code(s: Seq<char>) -> DeclineCode {
    let t = text::lowercase(s);
    if t == "generic_decline"@ || t == "do_not_honor"@ {
        DeclineCode::GenericDecline
    } else if t == "insufficient_funds"@ {
        DeclineCode::InsufficientFunds
    } else if t == "lost_card"@ {
        DeclineCode::LostCard
    } else if t == "stolen_card"@ {
        DeclineCode::StolenCard
    } else if t == "expired_card"@ {
        DeclineCode::ExpiredCard
    } else if t == "incorrect_cvc"@ {
        DeclineCode::IncorrectCvc
    } else if t == "processing_error"@ {
        DeclineCode::ProcessingError
    } else if t == "incorrect_number"@ {
        DeclineCode::IncorrectNumber
    } else if t == "fraudulent"@ {
        DeclineCode::Fraudulent
    } else {
        DeclineCode::Unknown
    }
}

impl DeclineCode {
    /// Parse from string
    pub fn from_str(s: &str) -> (r: Self)
        ensures
            r == decline_code(s@),
            r == DeclineCode::GenericDecline <==> (text::lowercase(s@) == "generic_decline"@ || text::lowercase(s@) == "do_not_honor"@),
            r == DeclineCode::InsufficientFunds <==> text::lowercase(s@) == "insufficient_funds"@,
            r == DeclineCode::LostCard <==> text::lowercase(s@) == "lost_card"@,
            r == DeclineCode::StolenCard <==> text::lowercase(s@) == "stolen_card"@,
            r == DeclineCode::ExpiredCard <==> text::lowercase(s@) == "expired_card"@,
            r == DeclineCode::IncorrectCvc <==> text::lowercase(s@) == "incorrect_cvc"@,
            r == DeclineCode::ProcessingError <==> text::lowercase(s@) == "processing_error"@,
            r == DeclineCode::IncorrectNumber <==> text::lowercase(s@) == "incorrect_number"@,
            r == DeclineCode::Fraudulent <==> text::lowercase(s@) == "fraudulent"@,
    {
        proof {
            decline_codes_are_told_apart(s@);
        }
        let t = to_lowercase(s);
        if same(&t, "generic_decline") || same(&t, "do_not_honor") {
            DeclineCode::GenericDecline
        } else if same(&t, "insufficient_funds") {
            DeclineCode::InsufficientFunds
        } else if same(&t, "lost_card") {
            DeclineCode::LostCard
        } else if same(&t, "stolen_card") {
            DeclineCode::StolenCard
        } else if same(&t, "expired_card") {
            DeclineCode::ExpiredCard
        } else if same(&t, "incorrect_cvc") {
            DeclineCode::IncorrectCvc
        } else if same(&t, "processing_error") {
            DeclineCode::ProcessingError
        } else if same(&t, "incorrect_number") {
            DeclineCode::IncorrectNumber
        } else if same(&t, "fraudulent") {
            DeclineCode::Fraudulent
        } else {
            DeclineCode::Unknown
        }
    }

    /// What a customer is told about the decline.
    pub open spec fn advice(self) -> Seq<char> {
        match self {
            DeclineCode::GenericDecline => "Your card was declined. Please try another card."@,
            DeclineCode::InsufficientFunds => "Your card has insufficient funds."@,
            DeclineCode::LostCard => "This card has been reported lost."@,
            DeclineCode::StolenCard => "This card has been reported stolen."@,
            DeclineCode::ExpiredCard => "Your card has expired."@,
            DeclineCode::IncorrectCvc => "The CVC code is incorrect."@,
            DeclineCode::ProcessingError => "There was an error processing your card. Please try again."@,
            DeclineCode::IncorrectNumber => "The card number is incorrect."@,
            DeclineCode::Fraudulent => "This transaction has been flagged as potentially fraudulent."@,
            DeclineCode::Unknown => "Your card was declined. Please contact your bank."@,
        }
    }

    /// Get user-friendly message
    pub fn message(&self) -> (r: &'static str)
        ensures
            r@ == self.advice(),
            self is GenericDecline ==> r@ == "Your card was declined. Please try another card."@,
            self is InsufficientFunds ==> r@ == "Your card has insufficient funds."@,
            self is LostCard ==> r@ == "This card has been reported lost."@,
            self is StolenCard ==> r@ == "This card has been reported stolen."@,
            self is ExpiredCard ==> r@ == "Your card has expired."@,
            self is IncorrectCvc ==> r@ == "The CVC code is incorrect."@,
            self is ProcessingError ==> r@ == "There was an error processing your card. Please try again."@,
            self is IncorrectNumber ==> r@ == "The card number is incorrect."@,
            self is Fraudulent ==> r@ == "This transaction has been flagged as potentially fraudulent."@,
            self is Unknown ==> r@ == "Your card was declined. Please contact your bank."@,
    {
        match self {
            DeclineCode::GenericDecline => "Your card was declined. Please try another card.",
            DeclineCode::InsufficientFunds => "Your card has insufficient funds.",
            DeclineCode::LostCard => "This card has been reported lost.",
            DeclineCode::StolenCard => "This card has been reported stolen.",
            DeclineCode::ExpiredCard => "Your card has expired.",
            DeclineCode::IncorrectCvc => "The CVC code is incorrect.",
            DeclineCode::ProcessingError => "There was an error processing your card. Please try again.",
            DeclineCode::IncorrectNumber => "The card number is incorrect.",
            DeclineCode::Fraudulent => "This transaction has been flagged as potentially fraudulent.",
            DeclineCode::Unknown => "Your card was declined. Please contact your bank.",
        }
    }
}

/// An operation that a provider lacks fails the same way forever: it is never retried and no
/// server delay comes with it.
pub proof fn unsupported_is_never_retried(e: PaymentError)
    requires
        e is Unsupported,
    ensures
        !e@.retryable(),
        e@.server_delay() is None,
{
}

/// A delay that the server asked for only ever comes with a retryable error.
pub proof fn server_delay_implies_retryable(e: PaymentError)
    ensures
        e@.server_delay() is Some ==> e@.retryable(),
{
}

/// Each decline code has names of its own, in any case; every other name is an unknown code.
pub proof fn decline_codes_are_told_apart(s: Seq<char>)
    ensures
        decline_code(s) == DeclineCode::GenericDecline <==> (text::lowercase(s) == "generic_decline"@ || text::lowercase(s) == "do_not_honor"@),
        decline_code(s) == DeclineCode::InsufficientFunds <==> text::lowercase(s) == "insufficient_funds"@,
        decline_code(s) == DeclineCode::LostCard <==> text::lowercase(s) == "lost_card"@,
        decline_code(s) == DeclineCode::StolenCard <==> text::lowercase(s) == "stolen_card"@,
        decline_code(s) == DeclineCode::ExpiredCard <==> text::lowercase(s) == "expired_card"@,
        decline_code(s) == DeclineCode::IncorrectCvc <==> text::lowercase(s) == "incorrect_cvc"@,
        decline_code(s) == DeclineCode::ProcessingError <==> text::lowercase(s) == "processing_error"@,
        decline_code(s) == DeclineCode::IncorrectNumber <==> text::lowercase(s) == "incorrect_number"@,
        decline_code(s) == DeclineCode::Fraudulent <==> text::lowercase(s) == "fraudulent"@,
{
    reveal_strlit("generic_decline");
    assert("generic_decline"@.len() == 15 && "generic_decline"@[0] == 'g' && "generic_decline"@[7] == '_' && "generic_decline"@[8] == 'd');
    reveal_strlit("do_not_honor");
    assert("do_not_honor"@.len() == 12 && "do_not_honor"@[0] == 'd' && "do_not_honor"@[7] == 'h' && "do_not_honor"@[8] == 'o');
    reveal_strlit("insufficient_funds");
    assert("insufficient_funds"@.len() == 18 && "insufficient_funds"@[0] == 'i' && "insufficient_funds"@[7] == 'c' && "insufficient_funds"@[8] == 'i');
    reveal_strlit("lost_card");
    assert("lost_card"@.len() == 9 && "lost_card"@[0] == 'l' && "lost_card"@[7] == 'r' && "lost_card"@[8] == 'd');
    reveal_strlit("stolen_card");
    assert("stolen_card"@.len() == 11 && "stolen_card"@[0] == 's' && "stolen_card"@[7] == 'c' && "stolen_card"@[8] == 'a');
    reveal_strlit("expired_card");
    assert("expired_card"@.len() == 12 && "expired_card"@[0] == 'e' && "expired_card"@[7] == '_' && "expired_card"@[8] == 'c');
    reveal_strlit("incorrect_cvc");
    assert("incorrect_cvc"@.len() == 13 && "incorrect_cvc"@[0] == 'i' && "incorrect_cvc"@[7] == 'c' && "incorrect_cvc"@[8] == 't');
    reveal_strlit("processing_error");
    assert("processing_error"@.len() == 16 && "processing_error"@[0] == 'p' && "processing_error"@[7] == 'i' && "processing_error"@[8] == 'n');
    reveal_strlit("incorrect_number");
    assert("incorrect_number"@.len() == 16 && "incorrect_number"@[0] == 'i' && "incorrect_number"@[7] == 'c' && "incorrect_number"@[8] == 't');
    reveal_strlit("fraudulent");
    assert("fraudulent"@.len() == 10 && "fraudulent"@[0] == 'f' && "fraudulent"@[7] == 'e' && "fraudulent"@[8] == 'n');
}

/// A failure is worth a second attempt exactly where the transport failed, the gateway throttled, or
/// it answered 408 or a status of 500 and above. No other failure is retried, and only throttling
/// comes with a delay.
pub proof fn retried_failures(e: PaymentError)
    ensures
        e is Network || e is RateLimited ==> e@.retryable(),
        e matches PaymentError::Provider { status: Some(code), .. } ==> (e@.retryable() <==> code == 408 || code >= 500),
        e matches PaymentError::Provider { status: None, .. } ==> !e@.retryable(),
        !(e is Network) && !(e is RateLimited) && !(e is Provider) ==> !e@.retryable(),
        e matches PaymentError::RateLimited(secs) ==> e@.server_delay() == Some(secs as u64),
        !(e is RateLimited) ==> e@.server_delay() is None,
{
}

/// What an error says is what it is: its own variant, with its own text, status or delay.
pub proof fn error_says_what_it_is(e: PaymentError)
    ensures
        e matches PaymentError::CardDeclined(s) ==> e@ == Fault::CardDeclined(s@),
        e matches PaymentError::CustomerNotFound(s) ==> e@ == Fault::CustomerNotFound(s@),
        e matches PaymentError::SubscriptionNotFound(s) ==> e@ == Fault::SubscriptionNotFound(s@),
        e matches PaymentError::PaymentMethodNotFound(s) ==> e@ == Fault::PaymentMethodNotFound(s@),
        e matches PaymentError::ChargeNotFound(s) ==> e@ == Fault::ChargeNotFound(s@),
        e matches PaymentError::RefundNotFound(s) ==> e@ == Fault::RefundNotFound(s@),
        e matches PaymentError::DuplicateTransaction(s) ==> e@ == Fault::DuplicateTransaction(s@),
        e matches PaymentError::Network(s) ==> e@ == Fault::Network(s@),
        e matches PaymentError::Authentication(s) ==> e@ == Fault::Authentication(s@),
        e matches PaymentError::Validation(s) ==> e@ == Fault::Validation(s@),
        e matches PaymentError::Config(s) ==> e@ == Fault::Config(s@),
        e matches PaymentError::Serialization(s) ==> e@ == Fault::Serialization(s@),
        e matches PaymentError::Unsupported(s) ==> e@ == Fault::Unsupported(s@),
        e is CardExpired ==> e@ == Fault::CardExpired,
        e is InsufficientFunds ==> e@ == Fault::InsufficientFunds,
        e is InvalidWebhookSignature ==> e@ == Fault::InvalidWebhookSignature,
        e matches PaymentError::Provider { status, message } ==> e@ == Fault::Provider(status, message@),
        e matches PaymentError::RateLimited(secs) ==> e@ == Fault::RateLimited(secs),
{
}

} // verus!
