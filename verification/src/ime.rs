//! The entry point for the windowing layer: what it asks of the engine for
//! each window, and what the engine wants sent to the server in return.

use vstd::prelude::*;
use crate::context::ImeContext;
use crate::inner::{context_mut, ImeInner};
use crate::model::RegistryState;
use crate::protocol::{forward_flag, wants_forward, Request, XKeyEvent};

verus! {

pub struct Ime {
    pub inner: ImeInner,
}

impl View for Ime {
    type V = RegistryState;

    open spec fn view(&self) -> RegistryState {
        self.inner@
    }
}

impl Ime {
    /// An engine with no input method open, no context and nothing queued.
    pub fn new() -> (ime: Self)
        ensures
            ime@ == RegistryState::fresh(),
    {
        Ime { inner: ImeInner::new() }
    }

    /// Takes the oldest key event that the server has handed back.
    pub fn pop_forwarded(&mut self) -> (xev: Option<XKeyEvent>)
        ensures
            final(self)@ == old(self)@.pop_forwarded(),
            xev == old(self)@.oldest_forwarded(),
    {
        self.inner.forwarded_events.pop_front()
    }

    pub fn is_destroyed(&self) -> (destroyed: bool)
        ensures
            destroyed == self@.is_destroyed,
    {
        self.inner.is_destroyed
    }

    /// Asks for a context of `window`; see [`ImeInner::spawn_create_ic`].
    pub fn create_context(&mut self, window: u64) -> (request: Option<Request>)
        ensures
            final(self)@ == old(self)@.spawn_create_ic(window),
            request == old(self)@.spawn_create_ic_request(window),
    {
        self.inner.spawn_create_ic(window)
    }

    /// The context of `window`, unless the server is gone or the window has
    /// none. What the caller leaves behind the reference is the context that
    /// the registry holds afterwards.
    pub fn get_context(&mut self, window: u64) -> (found: Option<&mut ImeContext>)
        ensures
            match found {
                Some(ctx) => {
                    &&& old(self)@.lookup(window) == Some(ctx@)
                    &&& final(self)@ =~= old(self)@.with_context_of(window, final(ctx)@)
                },
                None => {
                    &&& old(self)@.lookup(window) is None
                    &&& final(self)@ == old(self)@
                },
            },
    {
        broadcast use vstd::std_specs::hash::group_hash_axioms;

        if self.inner.is_destroyed {
            return None;
        }
        let id = match self.inner.context_ids.get(&window) {
            Some(id) => *id,
            None => {
                return None;
            },
        };
        context_mut(&mut self.inner.contexts, &id)
    }

    /// The context of `window` for reading, unless the server is gone or the
    /// window has none.
    pub fn context(&self, window: u64) -> (found: Option<&ImeContext>)
        ensures
            match found {
                Some(ctx) => self@.lookup(window) == Some(ctx@),
                None => self@.lookup(window) is None,
            },
    {
        broadcast use vstd::std_specs::hash::group_hash_axioms;

        if self.inner.is_destroyed {
            return None;
        }
        match self.inner.context_ids.get(&window) {
            Some(id) => self.inner.contexts.get(id),
            None => None,
        }
    }

    /// Gives up the context of `window`. Returns whether the window had one,
    /// and the request that destroys it at the server, which is none where
    /// the server is gone.
    pub fn remove_context(&mut self, window: u64) -> (result: (bool, Option<Request>))
        ensures
            final(self)@ == old(self)@.remove_context(window),
            result == old(self)@.remove_context_result(window),
    {
        broadcast use vstd::std_specs::hash::group_hash_axioms;

        match self.inner.context_ids.remove(&window) {
            Some(id) => {
                self.inner.contexts.remove(&id);
                assert(self@.contexts =~= old(self)@.contexts.remove(id));
                (true, self.inner.destroy_ic_if_necessary(id))
            },
            None => (false, None),
        }
    }

    /// The request that gives the context of `window` the input focus, or
    /// none where the server is gone or the window has no context.
    pub fn focus(&self, window: u64) -> (request: Option<Request>)
        ensures
            request == self@.focus_request(window),
    {
        match self.context(window) {
            Some(context) => Some(context.focus()),
            None => None,
        }
    }

    /// The request that takes the input focus from the context of `window`,
    /// or none where the server is gone or the window has no context.
    pub fn unfocus(&self, window: u64) -> (request: Option<Request>)
        ensures
            request == self@.unfocus_request(window),
    {
        match self.context(window) {
            Some(context) => Some(context.unfocus()),
            None => None,
        }
    }

    /// Moves the spot of the context of `window` to `(x, y)` and returns the
    /// request that tells the server: none where the spot was there already,
    /// the server is gone or the window has no context. Whether that request
    /// reaches the server does not matter to the engine.
    pub fn send_xim_spot(&mut self, window: u64, x: i16, y: i16) -> (request: Option<Request>)
        ensures
            final(self)@ == old(self)@.send_xim_spot(window, x, y),
            request == old(self)@.send_xim_spot_request(window, x, y),
    {
        match self.get_context(window) {
            Some(context) => context.set_spot(x, y),
            None => None,
        }
    }

    /// Decides what becomes of the event `xev`, given in `filtered` whether
    /// the transport has consumed it. An event that the transport has left
    /// is sent on to the server, and so consumed, where it is a key press or
    /// release that the context of its window has asked for. Of an event
    /// that is neither, only the type and the window are read.
    pub fn filter_event(&self, filtered: bool, xev: &XKeyEvent) -> (result: (bool, Option<Request>))
        ensures
            result == self@.filter_event(filtered, *xev),
    {
        if filtered {
            return (true, None);
        }
        match self.context(xev.window) {
            Some(ctx) => {
                if wants_forward(ctx.forward_event_mask, xev.type_) {
                    let request = Request::ForwardEvent {
                        im: ctx.im,
                        ic: ctx.ic,
                        flag: forward_flag(),
                        xev: *xev,
                    };
                    (true, Some(request))
                } else {
                    (false, None)
                }
            },
            None => (false, None),
        }
    }

    /// What is left to send when the engine is disposed of: the requests
    /// that destroy every context, then the one that closes the input
    /// method. Both are empty where the server is gone.
    pub fn teardown(&self) -> (result: (Vec<Request>, Option<Request>))
        ensures
            result.0@.to_set() == self@.destroy_all_requests(),
            result.0@.no_duplicates(),
            result.1 == self@.close_request(),
    {
        let destroyed = self.inner.destroy_all_contexts_if_necessary();
        (destroyed.1, self.inner.close_im_if_necessary())
    }
}

} // verus!
