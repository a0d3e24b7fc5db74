//! The registry as a mathematical state machine: its state, and what each
//! request of the windowing layer and each callback of the server does to it.

use vstd::prelude::*;
use crate::context::ContextState;
use crate::protocol::{
    spec_forward_flag, spec_ic_attributes, spec_wants_forward, ImeError, Request, XKeyEvent,
};

verus! {

/// The mathematical value of the registry.
#[verifier::ext_equal]
pub struct RegistryState {
    /// The handle of the open input method, 0 while none is open.
    pub im: u16,
    /// The windows that wait for a context, oldest first.
    pub pending: Seq<u64>,
    /// The context whose creation has been asked of the server and not yet
    /// answered.
    pub in_flight: Option<ContextState>,
    /// The key events that the server has handed back, oldest first.
    pub forwarded: Seq<XKeyEvent>,
    pub context_ids: Map<u64, u16>,
    pub contexts: Map<u16, ContextState>,
    pub is_destroyed: bool,
    pub is_fallback: bool,
}

/// The request that asks the server for a context of `window` under `im`.
pub open spec fn creation_request(im: u16, window: u64) -> Request {
    Request::CreateIc { im, attributes: spec_ic_attributes(window) }
}

/// The request that destroys the context `ic` of the input method `im`.
pub open spec fn destroy_request(im: u16, ic: u16) -> Request {
    Request::DestroyIc { im, ic }
}

impl RegistryState {
    /// The registry before anything has happened.
    pub open spec fn fresh() -> RegistryState {
        RegistryState {
            im: 0,
            pending: Seq::empty(),
            in_flight: None,
            forwarded: Seq::empty(),
            context_ids: Map::empty(),
            contexts: Map::empty(),
            is_destroyed: false,
            is_fallback: false,
        }
    }

    /// Whether a request for creation can go to the server at once: an input
    /// method is open and no other creation is in flight.
    pub open spec fn can_create_now(self) -> bool {
        self.im != 0 && self.in_flight is None
    }

    /// The registry with a creation for `window` in flight.
    pub open spec fn with_in_flight(self, window: u64) -> RegistryState {
        RegistryState { in_flight: Some(ContextState::fresh(self.im, window)), ..self }
    }

    /// The registry once the oldest waiting window, if there is one, has been
    /// moved into the slot of the creation in flight.
    pub open spec fn start_next(self) -> RegistryState {
        if self.pending.len() > 0 {
            RegistryState {
                pending: self.pending.drop_first(),
                in_flight: Some(ContextState::fresh(self.im, self.pending.first())),
                ..self
            }
        } else {
            self
        }
    }

    /// The request that goes out when the oldest waiting window is started.
    pub open spec fn next_request(self) -> Option<Request> {
        if self.pending.len() > 0 {
            Some(creation_request(self.im, self.pending.first()))
        } else {
            None
        }
    }

    /// After the windowing layer has asked for a context of `window`.
    pub open spec fn spawn_create_ic(self, window: u64) -> RegistryState {
        if self.can_create_now() {
            self.with_in_flight(window)
        } else {
            RegistryState { pending: self.pending.push(window), ..self }
        }
    }

    /// The request that goes out when the windowing layer asks for a context
    /// of `window`.
    pub open spec fn spawn_create_ic_request(self, window: u64) -> Option<Request> {
        if self.can_create_now() {
            Some(creation_request(self.im, window))
        } else {
            None
        }
    }

    /// After the transport has failed to send a request for creation: the
    /// request is given up, since no reply to it will come.
    pub open spec fn creation_failed(self) -> RegistryState {
        RegistryState { in_flight: None, ..self }
    }

    /// After the server has opened the input method `im`.
    pub open spec fn handle_open(self, im: u16) -> RegistryState {
        RegistryState { im, ..self }.start_next()
    }

    /// The request that goes out when the server has opened `im`.
    pub open spec fn handle_open_request(self, im: u16) -> Option<Request> {
        RegistryState { im, ..self }.next_request()
    }

    /// After the server has closed the input method. The contexts stay.
    pub open spec fn handle_close(self) -> RegistryState {
        RegistryState { im: 0, ..self }
    }

    /// After the server has answered a request for creation with the handle
    /// `ic`.
    pub open spec fn handle_create_ic(self, ic: u16) -> RegistryState {
        match self.in_flight {
            None => self,
            Some(ctx) => RegistryState {
                in_flight: None,
                context_ids: self.context_ids.insert(ctx.client_win, ic),
                contexts: self.contexts.insert(ic, ctx.with_ic(ic)),
                ..self
            }.start_next(),
        }
    }

    /// What the callback for a created context returns: an error where no
    /// creation was in flight, else the request for the next waiting window.
    pub open spec fn handle_create_ic_result(self, ic: u16) -> Result<Option<Request>, ImeError> {
        match self.in_flight {
            None => Err(ImeError::InvalidReply),
            Some(_) => Ok(self.next_request()),
        }
    }

    /// After the server has destroyed the context `ic`.
    pub open spec fn handle_destroy_ic(self, ic: u16) -> RegistryState {
        if self.contexts.contains_key(ic) {
            RegistryState {
                context_ids: self.context_ids.remove(self.contexts[ic].client_win),
                contexts: self.contexts.remove(ic),
                ..self
            }
        } else {
            self
        }
    }

    /// What a callback that names the context `ic` returns.
    pub open spec fn known_context(self, ic: u16) -> Result<(), ImeError> {
        if self.contexts.contains_key(ic) {
            Ok(())
        } else {
            Err(ImeError::InvalidReply)
        }
    }

    /// After the server has committed `text` to the context `ic`.
    pub open spec fn handle_commit(self, ic: u16, text: Seq<char>) -> RegistryState {
        if self.contexts.contains_key(ic) {
            RegistryState {
                contexts: self.contexts.insert(ic, self.contexts[ic].with_committed(text)),
                ..self
            }
        } else {
            self
        }
    }

    /// After the server has handed back the key event `xev`.
    pub open spec fn handle_forward_event(self, xev: XKeyEvent) -> RegistryState {
        RegistryState { forwarded: self.forwarded.push(xev), ..self }
    }

    /// After the server has set the event masks of the context `ic`.
    pub open spec fn handle_set_event_mask(
        self,
        ic: u16,
        forward: u32,
        synchronous: u32,
    ) -> RegistryState {
        if self.contexts.contains_key(ic) {
            RegistryState {
                contexts: self.contexts.insert(ic, self.contexts[ic].with_masks(forward, synchronous)),
                ..self
            }
        } else {
            self
        }
    }

    /// The request that closes the input method, unless the server is gone.
    pub open spec fn close_request(self) -> Option<Request> {
        if self.is_destroyed {
            None
        } else {
            Some(Request::Close { im: self.im })
        }
    }

    /// The request that destroys the context `ic`, unless the server is gone.
    pub open spec fn destroy_ic_request(self, ic: u16) -> Option<Request> {
        if self.is_destroyed {
            None
        } else {
            Some(destroy_request(self.im, ic))
        }
    }

    /// The requests that destroy every context, in no order: none where the
    /// server is gone.
    pub open spec fn destroy_all_requests(self) -> Set<Request> {
        if self.is_destroyed {
            Set::empty()
        } else {
            Set::new(
                |r: Request|
                    exists|ic: u16|
                        self.contexts.contains_key(ic) && r == #[trigger] destroy_request(self.im, ic),
            )
        }
    }

    /// The context of `window`, unless the server is gone or the window has
    /// none.
    pub open spec fn lookup(self, window: u64) -> Option<ContextState> {
        if !self.is_destroyed && self.context_ids.contains_key(window)
            && self.contexts.contains_key(self.context_ids[window]) {
            Some(self.contexts[self.context_ids[window]])
        } else {
            None
        }
    }

    /// After the windowing layer has given up the context of `window`: the
    /// entry of the window leaves, and with it the context that it names.
    pub open spec fn remove_context(self, window: u64) -> RegistryState {
        if self.context_ids.contains_key(window) {
            RegistryState {
                context_ids: self.context_ids.remove(window),
                contexts: self.contexts.remove(self.context_ids[window]),
                ..self
            }
        } else {
            self
        }
    }

    /// Whether `window` had a context to give up, and the request that
    /// destroys it at the server.
    pub open spec fn remove_context_result(self, window: u64) -> (bool, Option<Request>) {
        if self.context_ids.contains_key(window) {
            (true, self.destroy_ic_request(self.context_ids[window]))
        } else {
            (false, None)
        }
    }

    /// The request that gives the context of `window` the input focus.
    pub open spec fn focus_request(self, window: u64) -> Option<Request> {
        match self.lookup(window) {
            Some(ctx) => Some(ctx.focus_request()),
            None => None,
        }
    }

    /// The request that takes the input focus from the context of `window`.
    pub open spec fn unfocus_request(self, window: u64) -> Option<Request> {
        match self.lookup(window) {
            Some(ctx) => Some(ctx.unfocus_request()),
            None => None,
        }
    }

    /// The registry with `ctx` in the place of the context of `window`.
    pub open spec fn with_context_of(self, window: u64, ctx: ContextState) -> RegistryState {
        RegistryState { contexts: self.contexts.insert(self.context_ids[window], ctx), ..self }
    }

    /// After the spot of the context of `window` has been moved to `(x, y)`.
    pub open spec fn send_xim_spot(self, window: u64, x: i16, y: i16) -> RegistryState {
        match self.lookup(window) {
            Some(ctx) => self.with_context_of(window, ctx.with_spot(x, y)),
            None => self,
        }
    }

    /// The request that a move of the spot of `window` to `(x, y)` calls for.
    pub open spec fn send_xim_spot_request(self, window: u64, x: i16, y: i16) -> Option<Request> {
        match self.lookup(window) {
            Some(ctx) => ctx.spot_request(x, y),
            None => None,
        }
    }

    /// The request that sends the key event `xev` to the server, where the
    /// context of its window has asked for events of its type.
    pub open spec fn forward_request(self, xev: XKeyEvent) -> Option<Request> {
        match self.lookup(xev.window) {
            Some(ctx) => if spec_wants_forward(ctx.forward_event_mask, xev.type_) {
                Some(
                    Request::ForwardEvent { im: ctx.im, ic: ctx.ic, flag: spec_forward_flag(), xev },
                )
            } else {
                None
            },
            None => None,
        }
    }

    /// Whether the event `xev` is consumed, and the request that it calls
    /// for, given whether the transport has consumed it already.
    pub open spec fn filter_event(self, filtered: bool, xev: XKeyEvent) -> (bool, Option<Request>) {
        if filtered {
            (true, None)
        } else {
            (self.forward_request(xev) is Some, self.forward_request(xev))
        }
    }

    /// After the oldest forwarded key event has been taken.
    pub open spec fn pop_forwarded(self) -> RegistryState {
        if self.forwarded.len() > 0 {
            RegistryState { forwarded: self.forwarded.drop_first(), ..self }
        } else {
            self
        }
    }

    /// The oldest forwarded key event.
    pub open spec fn oldest_forwarded(self) -> Option<XKeyEvent> {
        if self.forwarded.len() > 0 {
            Some(self.forwarded.first())
        } else {
            None
        }
    }
}

/// All that can happen to the registry: what the windowing layer asks of it,
/// what the server tells it, and the word of the transport that a request
/// for creation could not be sent.
pub enum Event {
    CreateContext { window: u64 },
    RemoveContext { window: u64 },
    Focus { window: u64 },
    Unfocus { window: u64 },
    SetSpot { window: u64, x: i16, y: i16 },
    Filter { filtered: bool, xev: XKeyEvent },
    PopForwarded,
    CreationFailed,
    Connected,
    Opened { im: u16 },
    Closed,
    Created { ic: u16 },
    Destroyed { ic: u16 },
    Committed { ic: u16, text: Seq<char> },
    Forwarded { xev: XKeyEvent },
    MasksSet { ic: u16, forward: u32, synchronous: u32 },
    CloseInputMethod,
    DestroyContext { ic: u16 },
}

impl RegistryState {
    /// The registry after `event`.
    pub open spec fn step(self, event: Event) -> RegistryState {
        match event {
            Event::CreateContext { window } => self.spawn_create_ic(window),
            Event::RemoveContext { window } => self.remove_context(window),
            Event::SetSpot { window, x, y } => self.send_xim_spot(window, x, y),
            Event::PopForwarded => self.pop_forwarded(),
            Event::CreationFailed => self.creation_failed(),
            Event::Opened { im } => self.handle_open(im),
            Event::Closed => self.handle_close(),
            Event::Created { ic } => self.handle_create_ic(ic),
            Event::Destroyed { ic } => self.handle_destroy_ic(ic),
            Event::Committed { ic, text } => self.handle_commit(ic, text),
            Event::Forwarded { xev } => self.handle_forward_event(xev),
            Event::MasksSet { ic, forward, synchronous } => self.handle_set_event_mask(
                ic,
                forward,
                synchronous,
            ),
            Event::Focus { .. }
            | Event::Unfocus { .. }
            | Event::Filter { .. }
            | Event::Connected
            | Event::CloseInputMethod
            | Event::DestroyContext { .. } => self,
        }
    }

    /// The request that the registry hands out for `event`.
    pub open spec fn emitted(self, event: Event) -> Option<Request> {
        match event {
            Event::CreateContext { window } => self.spawn_create_ic_request(window),
            Event::RemoveContext { window } => self.remove_context_result(window).1,
            Event::Focus { window } => self.focus_request(window),
            Event::Unfocus { window } => self.unfocus_request(window),
            Event::SetSpot { window, x, y } => self.send_xim_spot_request(window, x, y),
            Event::Filter { filtered, xev } => self.filter_event(filtered, xev).1,
            Event::Connected => Some(Request::Open),
            Event::Opened { im } => self.handle_open_request(im),
            Event::Created { ic } => match self.handle_create_ic_result(ic) {
                Ok(request) => request,
                Err(_) => None,
            },
            Event::CloseInputMethod => self.close_request(),
            Event::DestroyContext { ic } => self.destroy_ic_request(ic),
            Event::PopForwarded
            | Event::CreationFailed
            | Event::Closed
            | Event::Destroyed { .. }
            | Event::Committed { .. }
            | Event::Forwarded { .. }
            | Event::MasksSet { .. } => None,
        }
    }

    /// Whether the server's callback `event` fits the registry: a reply to a
    /// creation needs one in flight, and a callback that names a context
    /// needs that context. Every other event fits.
    pub open spec fn accepts(self, event: Event) -> bool {
        match event {
            Event::Created { .. } => self.in_flight is Some,
            Event::Destroyed { ic } => self.contexts.contains_key(ic),
            Event::Committed { ic, .. } => self.contexts.contains_key(ic),
            Event::MasksSet { ic, .. } => self.contexts.contains_key(ic),
            _ => true,
        }
    }

    /// Whether windows and contexts name each other: every window of the
    /// registry has a context that belongs to it, and every context is the
    /// one that its own window and its own handle lead to.
    pub open spec fn consistent(self) -> bool {
        &&& forall|window: u64| #[trigger]
            self.context_ids.contains_key(window) ==> {
                &&& self.contexts.contains_key(self.context_ids[window])
                &&& self.contexts[self.context_ids[window]].client_win == window
            }
        &&& forall|ic: u16| #[trigger]
            self.contexts.contains_key(ic) ==> {
                &&& self.contexts[ic].ic == ic
                &&& self.context_ids.contains_key(self.contexts[ic].client_win)
                &&& self.context_ids[self.contexts[ic].client_win] == ic
            }
    }

    /// The request whose answer the registry is waiting for.
    pub open spec fn in_flight_request(self) -> Option<Request> {
        match self.in_flight {
            Some(ctx) => Some(creation_request(ctx.im, ctx.client_win)),
            None => None,
        }
    }

    /// The registry after each of `events` in turn.
    pub open spec fn after_events(self, events: Seq<Event>) -> RegistryState
        decreases events.len(),
    {
        if events.len() == 0 {
            self
        } else {
            self.after_events(events.drop_last()).step(events.last())
        }
    }

    /// Whether `event` sends a request for creation to the server.
    pub open spec fn sends_creation(self, event: Event) -> bool {
        self.emitted(event) matches Some(Request::CreateIc { .. })
    }

    /// Whether `event` ends the wait for the answer to the creation in
    /// flight: the server has answered it, the transport could not send it,
    /// or the server has opened the input method anew and the oldest waiting
    /// window takes the slot.
    pub open spec fn settles_creation(self, event: Event) -> bool {
        self.in_flight is Some && match event {
            Event::Created { .. } => true,
            Event::CreationFailed => true,
            Event::Opened { .. } => self.pending.len() > 0,
            _ => false,
        }
    }

    /// The number of requests for creation that were sent in the course of
    /// `events` and whose answer is still waited for at the end of them.
    pub open spec fn creations_awaited(self, events: Seq<Event>) -> int
        decreases events.len(),
    {
        if events.len() == 0 {
            0
        } else {
            let before = self.after_events(events.drop_last());
            self.creations_awaited(events.drop_last()) + (if before.sends_creation(events.last()) {
                1int
            } else {
                0int
            }) - (if before.settles_creation(events.last()) {
                1int
            } else {
                0int
            })
        }
    }

    /// Whether nothing exists that only an open input method can have
    /// brought about: while the handle is 0, no context, no window with a
    /// context and no creation in flight.
    pub open spec fn idle_without_session(self) -> bool {
        self.im == 0 ==> {
            &&& self.contexts == Map::<u16, ContextState>::empty()
            &&& self.context_ids == Map::<u64, u16>::empty()
            &&& self.in_flight is None
        }
    }

    /// The registry after the windowing layer has asked for a context of
    /// each of `windows` in turn.
    pub open spec fn after_requests(self, windows: Seq<u64>) -> RegistryState
        decreases windows.len(),
    {
        if windows.len() == 0 {
            self
        } else {
            self.after_requests(windows.drop_last()).spawn_create_ic(windows.last())
        }
    }

    /// The registry after the server has answered creations with the handles
    /// `ics` in turn.
    pub open spec fn after_replies(self, ics: Seq<u16>) -> RegistryState
        decreases ics.len(),
    {
        if ics.len() == 0 {
            self
        } else {
            self.after_replies(ics.drop_last()).handle_create_ic(ics.last())
        }
    }
}

} // verus!
