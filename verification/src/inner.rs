//! The registry of input contexts: the queue of creation requests, the map
//! from windows to contexts, and the handlers for what the server sends.

use std::collections::HashMap;
use std::collections::VecDeque;
use vstd::prelude::*;
use vstd::std_specs::iter::IteratorSpec;
use crate::context::{ContextState, ImeContext};
use crate::model::{destroy_request, RegistryState};
use crate::protocol::{build_ic_attributes, ImeError, Request, XKeyEvent};

verus! {

/// The mathematical value of the map from context handles to contexts.
pub open spec fn contexts_view(contexts: Map<u16, ImeContext>) -> Map<u16, ContextState> {
    Map::new(|ic: u16| contexts.contains_key(ic), |ic: u16| contexts[ic]@)
}

/// The mathematical value of the slot for the creation in flight.
pub open spec fn slot_view(slot: Option<ImeContext>) -> Option<ContextState> {
    match slot {
        Some(ctx) => Some(ctx@),
        None => None,
    }
}

/// `HashMap::get_mut`: a mutable reference to the value under the key, or
/// none where the map has no such key. What the caller leaves behind the
/// reference is what the map holds under the key afterwards; the rest of the
/// map stays.
#[verifier::external_body]
pub(crate) fn context_mut<'a>(contexts: &'a mut HashMap<u16, ImeContext>, ic: &u16) -> (found:
    Option<&'a mut ImeContext>)
    ensures
        match found {
            Some(ctx) => {
                &&& old(contexts)@.contains_key(*ic)
                &&& *ctx == old(contexts)@[*ic]
                &&& final(contexts)@ == old(contexts)@.insert(*ic, *final(ctx))
            },
            None => {
                &&& !old(contexts)@.contains_key(*ic)
                &&& final(contexts)@ == old(contexts)@
            },
        },
{
    contexts.get_mut(ic)
}

pub struct ImeInner {
    pub im: u16,
    /// The windows that wait for a context, oldest first.
    pub pending_contexts: VecDeque<u64>,
    /// The context whose creation has been asked of the server and not yet
    /// answered.
    pub create_pending_context: Option<ImeContext>,
    pub forwarded_events: VecDeque<XKeyEvent>,
    pub context_ids: HashMap<u64, u16>,
    pub contexts: HashMap<u16, ImeContext>,
    /// Whether the input method was destroyed on the server's end, as when
    /// the server was stopped or started again.
    pub is_destroyed: bool,
    pub is_fallback: bool,
}

impl View for ImeInner {
    type V = RegistryState;

    open spec fn view(&self) -> RegistryState {
        RegistryState {
            im: self.im,
            pending: self.pending_contexts@,
            in_flight: slot_view(self.create_pending_context),
            forwarded: self.forwarded_events@,
            context_ids: self.context_ids@,
            contexts: contexts_view(self.contexts@),
            is_destroyed: self.is_destroyed,
            is_fallback: self.is_fallback,
        }
    }
}

impl ImeInner {
    pub fn new() -> (inner: Self)
        ensures
            inner@ == RegistryState::fresh(),
    {
        let inner = ImeInner {
            im: 0,
            pending_contexts: VecDeque::new(),
            create_pending_context: None,
            forwarded_events: VecDeque::new(),
            context_ids: HashMap::new(),
            contexts: HashMap::new(),
            is_destroyed: false,
            is_fallback: false,
        };
        assert(inner@.contexts =~= Map::empty());
        inner
    }

    /// Asks for a context of `window`. Where an input method is open and no
    /// other creation is in flight, the request is returned for sending and
    /// counts as in flight from now on; else the window waits in the queue.
    pub fn spawn_create_ic(&mut self, window: u64) -> (request: Option<Request>)
        ensures
            final(self)@ == old(self)@.spawn_create_ic(window),
            request == old(self)@.spawn_create_ic_request(window),
    {
        if self.im != 0 && self.create_pending_context.is_none() {
            let request = Request::CreateIc { im: self.im, attributes: build_ic_attributes(window) };
            self.create_pending_context = Some(ImeContext::new(self.im, window));
            Some(request)
        } else {
            self.pending_contexts.push_back(window);
            None
        }
    }

    /// Tells the registry that the transport could not send the request for
    /// creation that was handed out last: the request is given up.
    pub fn creation_failed(&mut self)
        ensures
            final(self)@ == old(self)@.creation_failed(),
    {
        self.create_pending_context = None;
    }

    /// Moves the oldest waiting window into the slot of the creation in
    /// flight and returns the request for it.
    fn start_next(&mut self) -> (request: Option<Request>)
        ensures
            final(self)@ == old(self)@.start_next(),
            request == old(self)@.next_request(),
    {
        match self.pending_contexts.pop_front() {
            Some(window) => {
                let request = Request::CreateIc {
                    im: self.im,
                    attributes: build_ic_attributes(window),
                };
                self.create_pending_context = Some(ImeContext::new(self.im, window));
                Some(request)
            },
            None => None,
        }
    }

    /// The server has accepted the connection: the input method is asked for.
    pub fn handle_connect(&self) -> (request: Request)
        ensures
            request == Request::Open,
    {
        Request::Open
    }

    /// The server has opened the input method `input_method_id`: the oldest
    /// waiting window, if there is one, is put in flight.
    pub fn handle_open(&mut self, input_method_id: u16) -> (request: Option<Request>)
        ensures
            final(self)@ == old(self)@.handle_open(input_method_id),
            request == old(self)@.handle_open_request(input_method_id),
    {
        self.im = input_method_id;
        self.start_next()
    }

    /// The server has closed the input method.
    pub fn handle_close(&mut self)
        ensures
            final(self)@ == old(self)@.handle_close(),
    {
        self.im = 0;
    }

    /// The server has answered a request for creation with the handle
    /// `input_context_id`. The window of the creation in flight gets that
    /// context, and the oldest waiting window, if there is one, is put in
    /// flight in its place. A reply that answers no request is an error and
    /// changes nothing.
    pub fn handle_create_ic(&mut self, input_context_id: u16) -> (result: Result<
        Option<Request>,
        ImeError,
    >)
        ensures
            final(self)@ == old(self)@.handle_create_ic(input_context_id),
            result == old(self)@.handle_create_ic_result(input_context_id),
    {
        broadcast use vstd::std_specs::hash::group_hash_axioms;

        let mut ctx = match self.create_pending_context.take() {
            Some(ctx) => ctx,
            None => {
                return Err(ImeError::InvalidReply);
            },
        };
        ctx.ic = input_context_id;
        self.context_ids.insert(ctx.client_win, input_context_id);
        self.contexts.insert(input_context_id, ctx);
        assert(self@.contexts =~= old(self)@.contexts.insert(
            input_context_id,
            old(self)@.in_flight->0.with_ic(input_context_id),
        ));
        Ok(self.start_next())
    }

    /// The server has destroyed the context `input_context_id`: it leaves
    /// the registry together with the entry of its window. An unknown handle
    /// is an error and changes nothing.
    pub fn handle_destroy_ic(&mut self, input_context_id: u16) -> (result: Result<(), ImeError>)
        ensures
            final(self)@ == old(self)@.handle_destroy_ic(input_context_id),
            result == old(self)@.known_context(input_context_id),
    {
        broadcast use vstd::std_specs::hash::group_hash_axioms;

        match self.contexts.remove(&input_context_id) {
            Some(ctx) => {
                self.context_ids.remove(&ctx.client_win);
                assert(self@.contexts =~= old(self)@.contexts.remove(input_context_id));
                Ok(())
            },
            None => {
                assert(self@.contexts =~= old(self)@.contexts);
                Err(ImeError::InvalidReply)
            },
        }
    }

    /// The server has committed `text` to the context `input_context_id`:
    /// the text is appended to what the context holds. An unknown handle is
    /// an error and changes nothing.
    pub fn handle_commit(&mut self, input_context_id: u16, text: &str) -> (result: Result<
        (),
        ImeError,
    >)
        ensures
            final(self)@ == old(self)@.handle_commit(input_context_id, text@),
            result == old(self)@.known_context(input_context_id),
    {
        broadcast use vstd::std_specs::hash::group_hash_axioms;

        match self.contexts.remove(&input_context_id) {
            Some(mut ctx) => {
                ctx.commit(text);
                self.contexts.insert(input_context_id, ctx);
                assert(self@.contexts =~= old(self)@.contexts.insert(
                    input_context_id,
                    old(self)@.contexts[input_context_id].with_committed(text@),
                ));
                Ok(())
            },
            None => {
                assert(self@.contexts =~= old(self)@.contexts);
                Err(ImeError::InvalidReply)
            },
        }
    }

    /// The server has handed back the key event `xev`: it joins the queue of
    /// forwarded events, whatever context it was meant for.
    pub fn handle_forward_event(&mut self, xev: XKeyEvent)
        ensures
            final(self)@ == old(self)@.handle_forward_event(xev),
    {
        self.forwarded_events.push_back(xev);
    }

    /// The server has set the event masks of the context
    /// `input_context_id`. An unknown handle is an error and changes nothing.
    pub fn handle_set_event_mask(
        &mut self,
        input_context_id: u16,
        forward_event_mask: u32,
        synchronous_event_mask: u32,
    ) -> (result: Result<(), ImeError>)
        ensures
            final(self)@ == old(self)@.handle_set_event_mask(
                input_context_id,
                forward_event_mask,
                synchronous_event_mask,
            ),
            result == old(self)@.known_context(input_context_id),
    {
        broadcast use vstd::std_specs::hash::group_hash_axioms;

        match self.contexts.remove(&input_context_id) {
            Some(mut ctx) => {
                ctx.set_event_mask(forward_event_mask, synchronous_event_mask);
                self.contexts.insert(input_context_id, ctx);
                assert(self@.contexts =~= old(self)@.contexts.insert(
                    input_context_id,
                    old(self)@.contexts[input_context_id].with_masks(
                        forward_event_mask,
                        synchronous_event_mask,
                    ),
                ));
                Ok(())
            },
            None => {
                assert(self@.contexts =~= old(self)@.contexts);
                Err(ImeError::InvalidReply)
            },
        }
    }

    /// The request that closes the input method, or none where the server
    /// is gone.
    pub fn close_im_if_necessary(&self) -> (request: Option<Request>)
        ensures
            request == self@.close_request(),
    {
        if !self.is_destroyed {
            Some(Request::Close { im: self.im })
        } else {
            None
        }
    }

    /// The request that destroys the context `ic`, or none where the server
    /// is gone.
    pub fn destroy_ic_if_necessary(&self, ic: u16) -> (request: Option<Request>)
        ensures
            request == self@.destroy_ic_request(ic),
    {
        if !self.is_destroyed {
            Some(Request::DestroyIc { im: self.im, ic })
        } else {
            None
        }
    }

    /// The requests that destroy every context of the registry, each once
    /// and in no promised order, with the word whether there was anything to
    /// ask of the server at all: none, and `false`, where the server is gone.
    pub fn destroy_all_contexts_if_necessary(&self) -> (result: (bool, Vec<Request>))
        ensures
            result.0 == !self@.is_destroyed,
            result.1@.to_set() == self@.destroy_all_requests(),
            result.1@.no_duplicates(),
            result.1@.len() == (if self@.is_destroyed {
                0
            } else {
                self@.contexts.dom().len()
            }),
    {
        broadcast use vstd::std_specs::hash::group_hash_axioms;

        let mut requests: Vec<Request> = Vec::new();
        if !self.is_destroyed {
            let keys = self.contexts.keys();
            let ghost ids = keys.remaining();
            assert(ids.unref().to_set() == self.contexts@.dom());
            assert(ids.no_duplicates());
            for id in it: keys
                invariant
                    it.seq() == ids,
                    requests@.len() == it.index(),
                    forall|j: int|
                        0 <= j < requests@.len() ==> requests@[j] == destroy_request(
                            self.im,
                            *it.seq()[j],
                        ),
            {
                requests.push(Request::DestroyIc { im: self.im, ic: *id });
            }
            proof {
                let wanted = self@.destroy_all_requests();
                assert forall|r: Request| requests@.to_set().contains(r) implies wanted.contains(
                    r,
                ) by {
                    let j = choose|j: int| 0 <= j < requests@.len() && requests@[j] == r;
                    assert(ids.unref()[j] == *ids[j]);
                    assert(ids.unref().to_set().contains(*ids[j]));
                    assert(r == destroy_request(self.im, *ids[j]));
                }
                assert forall|r: Request| wanted.contains(r) implies requests@.to_set().contains(
                    r,
                ) by {
                    let ic = choose|ic: u16|
                        self@.contexts.contains_key(ic) && r == #[trigger] destroy_request(
                            self.im,
                            ic,
                        );
                    assert(ids.unref().to_set().contains(ic));
                    let j = choose|j: int| 0 <= j < ids.unref().len() && ids.unref()[j] == ic;
                    assert(requests@[j] == r);
                }
                assert(requests@.to_set() =~= wanted);
                assert(self@.contexts.dom() =~= self.contexts@.dom());
            }
        } else {
            assert(requests@.to_set() =~= Set::empty());
        }
        (!self.is_destroyed, requests)
    }
}

} // verus!
