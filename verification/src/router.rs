//! Which handler an event goes to.
use crate::text::same;
use crate::webhook::{WebhookEvent, WebhookEventType};
use vstd::prelude::*;

verus! {

/// What tells event types apart: whether the type is an unknown one, and its name.
pub open spec fn type_key(t: WebhookEventType) -> (bool, Seq<char>) {
    (t is Unknown, t.name())
}

/// The handlers of the registered event types, the last one for each.
pub open spec fn handler_table<H>(routes: Seq<(WebhookEventType, H)>) -> Map<(bool, Seq<char>), H>
    decreases routes.len(),
{
    if routes.len() == 0 {
        Map::empty()
    } else {
        handler_table(routes.drop_last()).insert(type_key(routes.last().0), routes.last().1)
    }
}

/// Webhook router for handling multiple event types
pub struct WebhookRouter<H> {
    routes: Vec<(WebhookEventType, H)>,
    default_handler: Option<H>,
}

fn is_unknown(t: &WebhookEventType) -> (r: bool)
    ensures
        r == (t is Unknown),
{
    match t {
        WebhookEventType::Unknown(_) => true,
        _ => false,
    }
}

fn same_type(a: &WebhookEventType, b: &WebhookEventType) -> (r: bool)
    ensures
        r == (type_key(*a) == type_key(*b)),
{
    is_unknown(a) == is_unknown(b) && same(a.wire_name(), b.wire_name())
}

impl<H> WebhookRouter<H> {
    /// The handlers by event type.
    pub closed spec fn handlers(&self) -> Map<(bool, Seq<char>), H> {
        handler_table(self.routes@)
    }

    /// The handler of the other event types.
    pub closed spec fn fallback(&self) -> Option<H> {
        self.default_handler
    }

    /// Create a new webhook router
    pub fn new() -> (r: Self)
        ensures
            r.handlers() == Map::<(bool, Seq<char>), H>::empty(),
            r.fallback() is None,
    {
        WebhookRouter { routes: Vec::new(), default_handler: None }
    }

    /// Register a handler for an event type. It takes the place of an earlier one.
    pub fn on(self, event_type: WebhookEventType, handler: H) -> (r: Self)
        ensures
            r.handlers() == self.handlers().insert(type_key(event_type), handler),
            r.fallback() == self.fallback(),
    {
        let mut r = self;
        r.routes.push((event_type, handler));
        proof {
            assert(r.routes@.drop_last() =~= self.routes@);
        }
        r
    }

    /// Set default handler for unhandled events
    pub fn default(self, handler: H) -> (r: Self)
        ensures
            r.handlers() == self.handlers(),
            r.fallback() == Some(handler),
    {
        let mut r = self;
        r.default_handler = Some(handler);
        r
    }

    /// The handler that an event goes to: the one of its type, or else the default one. An event
    /// with neither is ignored.
    pub fn route(&self, event: &WebhookEvent) -> (r: Option<&H>)
        ensures
            if self.handlers().dom().contains(type_key(event.event_type)) {
                r matches Some(h) && *h == self.handlers()[type_key(event.event_type)]
            } else {
                match r {
                    Some(h) => self.fallback() == Some(*h),
                    None => self.fallback() is None,
                }
            },
    {
        let ghost key = type_key(event.event_type);
        let mut i: usize = self.routes.len();
        proof {
            assert(self.routes@.take(i as int) =~= self.routes@);
        }
        while i > 0
            invariant
                i <= self.routes.len(),
                key == type_key(event.event_type),
                self.handlers() == handler_table(self.routes@),
                self.handlers().dom().contains(key) == handler_table(self.routes@.take(i as int)).dom().contains(key),
                self.handlers().dom().contains(key) ==> self.handlers()[key] == handler_table(
                    self.routes@.take(i as int),
                )[key],
            decreases i,
        {
            let ghost upto = self.routes@.take(i as int);
            i -= 1;
            proof {
                assert(upto.drop_last() =~= self.routes@.take(i as int));
                assert(upto.last() == self.routes@[i as int]);
            }
            if same_type(&self.routes[i].0, &event.event_type) {
                return Some(&self.routes[i].1);
            }
        }
        self.default_handler.as_ref()
    }
}

} // verus!
