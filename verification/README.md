# armature-payments

Payment processing over Stripe, PayPal and Braintree, with the decisions verified by
[Verus](https://github.com/verus-lang/verus).

- `src/` is the verified library. It performs no I/O: it says what to ask of a gateway, what the
  answer means, which failures may be retried and when, and whether a webhook is authentic. Every
  function states in its contract what it returns.
- `app/` is the ordinary Rust around it: the HTTP client, the retry loop's waiting, the JSON records,
  the webhook handlers, and what is floating point.
- `tests/` run the library on concrete values, with the real outside crates linked.

## The library

| Module | What it holds |
| --- | --- |
| `money`, `decimal` | amounts in minor units, and exact conversion to and from the text gateways use |
| `types` | charges, refunds, customers, payment methods, subscriptions, and the requests for them |
| `providers` | the three gateways: requests, replies, webhook signatures and payloads |
| `processor` | the retry policy: when a retry is safe, how many there are, and how long to wait |
| `webhook`, `payload`, `router` | headers and event types, typed payloads, and who handles an event |
| `gateway` | requests and replies, errors by HTTP status, and which base URLs are allowed |
| `redact` | what of a gateway's reply may stand in an error |
| `error` | payment errors, and which of them may pass |
| `json`, `xml`, `string_map`, `text` | documents and text |
| `clock`, `crypto` | instants, digests and encodings, from outside crates |

The laws of the library are public proof functions beside the code they are about, such as
`processor::retried_only_when_safe` (no request is repeated that the gateway would carry out twice),
`providers::stripe_webhook::unsigned_is_refused` and
`redact::snippet_is_bounded_and_has_no_card_number`.

What is trusted and not proved is marked `#[verifier::external_body]`: each such function calls one
function of an outside crate, and its doc comment says what is believed of it.
