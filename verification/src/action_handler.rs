//! Where a notification action goes: the application's background handler,
//! the relay to the frontend, or nowhere (with a warning).
use vstd::prelude::*;

verus! {

/// The event emitted to the frontend when a notification action fires.
pub const EVENT_NAME: &'static str = "notification://action";

/// The background handler, once registered.
#[derive(Debug)]
pub struct HandlerSlot<H> {
    handler: Option<H>,
}

impl<H> HandlerSlot<H> {
    /// The registered handler.
    pub closed spec fn handler_view(&self) -> Option<H> {
        self.handler
    }

    /// A slot with no handler.
    pub fn new() -> (s: HandlerSlot<H>)
        ensures
            s.handler_view() is None,
    {
        HandlerSlot { handler: None }
    }

    /// The registered handler, if any.
    pub fn get(&self) -> (r: Option<&H>)
        ensures
            match r {
                Some(h) => self.handler_view() == Some(*h),
                None => self.handler_view() is None,
            },
    {
        match &self.handler {
            Some(h) => Some(h),
            None => None,
        }
    }

    /// Whether a handler is registered.
    pub fn is_registered(&self) -> (r: bool)
        ensures
            r == self.handler_view() is Some,
    {
        self.handler.is_some()
    }
}

/// Registers the background handler; the first registration wins and later
/// ones are ignored.
pub fn register_background_handler<H>(slot: &mut HandlerSlot<H>, handler: H)
    ensures
        old(slot).handler_view() is None ==> final(slot).handler_view() == Some(handler),
        old(slot).handler_view() is Some ==> final(slot).handler_view() == old(slot).handler_view(),
{
    if slot.handler.is_none() {
        slot.handler = Some(handler);
    }
}

/// What `dispatch` does with one event.
#[derive(Debug, Clone, Copy, PartialEq, Eq, Structural)]
pub struct DispatchPlan {
    /// Call the background handler (first).
    pub call_handler: bool,
    /// Send the event to the relay thread (second).
    pub send_to_relay: bool,
    /// Warn that the event is dropped.
    pub warn_dropped: bool,
}

/// One delivery of an event.
#[derive(Debug, Clone, Copy, PartialEq, Eq, Structural)]
pub enum DispatchStep {
    /// Call the background handler with a copy of the event.
    CallHandler,
    /// Send the event to the relay thread.
    SendToRelay,
}

/// The deliveries of a plan, in the order they are made: the handler, when
/// it is called, always before the relay send.
pub open spec fn plan_steps(p: DispatchPlan) -> Seq<DispatchStep> {
    (if p.call_handler {
        seq![DispatchStep::CallHandler]
    } else {
        Seq::empty()
    }) + (if p.send_to_relay {
        seq![DispatchStep::SendToRelay]
    } else {
        Seq::empty()
    })
}

impl DispatchPlan {
    /// The deliveries to make, in order.
    pub fn steps(&self) -> (r: Vec<DispatchStep>)
        ensures
            r@ == plan_steps(*self),
    {
        let mut v: Vec<DispatchStep> = Vec::new();
        if self.call_handler {
            v.push(DispatchStep::CallHandler);
        }
        if self.send_to_relay {
            v.push(DispatchStep::SendToRelay);
        }
        assert(v@ =~= plan_steps(*self));
        v
    }
}

/// Decides the dispatch of an event. The handler is called when one is
/// registered and the process may call it (a background launch); the relay
/// gets the event whenever it runs, independently of the handler; the event
/// is reported dropped when there is neither a handler nor a relay. The
/// handler is called before the event is sent to the relay.
pub fn dispatch(handler_allowed: bool, handler_registered: bool, relay_running: bool) -> (p:
    DispatchPlan)
    ensures
        p.call_handler == (handler_allowed && handler_registered),
        p.send_to_relay == relay_running,
        p.warn_dropped == (!relay_running && !handler_registered),
        plan_steps(p) == (if handler_allowed && handler_registered {
            seq![DispatchStep::CallHandler]
        } else {
            Seq::<DispatchStep>::empty()
        }) + (if relay_running {
            seq![DispatchStep::SendToRelay]
        } else {
            Seq::<DispatchStep>::empty()
        }),
{
    DispatchPlan {
        call_handler: handler_allowed && handler_registered,
        send_to_relay: relay_running,
        warn_dropped: !relay_running && !handler_registered,
    }
}

/// Whether `start_relay` creates the relay: only when none runs yet.
pub fn start_relay(relay_running: bool) -> (r: bool)
    ensures
        r == !relay_running,
{
    !relay_running
}

} // verus!
