//! One input context: what the engine remembers of a window that the server
//! has given a context handle.

use vstd::prelude::*;
use crate::protocol::{Point, PreeditAttributes, Request};

verus! {

/// The mathematical value of an [`ImeContext`].
pub struct ContextState {
    pub im: u16,
    pub ic: u16,
    pub ic_spot: Point,
    pub forward_event_mask: u32,
    pub synchronous_event_mask: u32,
    pub client_win: u64,
    pub written: Seq<char>,
}

impl ContextState {
    /// A context of `client_win` under the input method `im`, before the
    /// server has named it.
    pub open spec fn fresh(im: u16, client_win: u64) -> ContextState {
        ContextState {
            im,
            ic: 0,
            ic_spot: Point { x: 0, y: 0 },
            forward_event_mask: 0,
            synchronous_event_mask: 0,
            client_win,
            written: Seq::empty(),
        }
    }

    /// The request that gives this context the input focus.
    pub open spec fn focus_request(self) -> Request {
        Request::SetFocus { im: self.im, ic: self.ic }
    }

    /// The request that takes the input focus from this context.
    pub open spec fn unfocus_request(self) -> Request {
        Request::UnsetFocus { im: self.im, ic: self.ic }
    }

    /// Whether the remembered spot is already `(x, y)`.
    pub open spec fn spot_is(self, x: i16, y: i16) -> bool {
        self.ic_spot.x == x && self.ic_spot.y == y
    }

    /// The context once its spot has been set to `(x, y)`.
    pub open spec fn with_spot(self, x: i16, y: i16) -> ContextState {
        ContextState { ic_spot: Point { x, y }, ..self }
    }

    /// The request that a move of the spot to `(x, y)` calls for: none where
    /// the spot is there already.
    pub open spec fn spot_request(self, x: i16, y: i16) -> Option<Request> {
        if self.spot_is(x, y) {
            None
        } else {
            Some(
                Request::SetIcValues {
                    im: self.im,
                    ic: self.ic,
                    preedit: PreeditAttributes { spot_location: Point { x, y } },
                },
            )
        }
    }

    /// The context once the server has committed `text` to it.
    pub open spec fn with_committed(self, text: Seq<char>) -> ContextState {
        ContextState { written: self.written + text, ..self }
    }

    /// The context once the server has set its event masks.
    pub open spec fn with_masks(self, forward: u32, synchronous: u32) -> ContextState {
        ContextState { forward_event_mask: forward, synchronous_event_mask: synchronous, ..self }
    }

    /// The context once the server has named it `ic`.
    pub open spec fn with_ic(self, ic: u16) -> ContextState {
        ContextState { ic, ..self }
    }
}

#[derive(Debug)]
pub struct ImeContext {
    pub im: u16,
    pub ic: u16,
    pub ic_spot: Point,
    pub forward_event_mask: u32,
    pub synchronous_event_mask: u32,
    pub client_win: u64,
    pub written: String,
}

impl View for ImeContext {
    type V = ContextState;

    open spec fn view(&self) -> ContextState {
        ContextState {
            im: self.im,
            ic: self.ic,
            ic_spot: self.ic_spot,
            forward_event_mask: self.forward_event_mask,
            synchronous_event_mask: self.synchronous_event_mask,
            client_win: self.client_win,
            written: self.written@,
        }
    }
}

/// `String::push_str` appends the slice to the end of the string.
pub assume_specification[ String::push_str ](s: &mut String, string: &str)
    ensures
        final(s)@ == old(s)@ + string@,
;

impl ImeContext {
    pub fn new(im: u16, client_win: u64) -> (ctx: Self)
        ensures
            ctx@ == ContextState::fresh(im, client_win),
    {
        Self {
            im,
            ic: 0,
            ic_spot: Point { x: 0, y: 0 },
            forward_event_mask: 0,
            synchronous_event_mask: 0,
            client_win,
            written: String::new(),
        }
    }

    /// The request that gives this context the input focus. It is made on
    /// every call: the server is expected to bear repeats.
    pub fn focus(&self) -> (request: Request)
        ensures
            request == self@.focus_request(),
    {
        Request::SetFocus { im: self.im, ic: self.ic }
    }

    /// The request that takes the input focus from this context.
    pub fn unfocus(&self) -> (request: Request)
        ensures
            request == self@.unfocus_request(),
    {
        Request::UnsetFocus { im: self.im, ic: self.ic }
    }

    /// Moves the spot to `(x, y)` and returns the request that tells the
    /// server, or none where the spot was there already. The coordinates are
    /// taken as they are.
    pub fn set_spot(&mut self, x: i16, y: i16) -> (request: Option<Request>)
        ensures
            final(self)@ == old(self)@.with_spot(x, y),
            request == old(self)@.spot_request(x, y),
    {
        if self.ic_spot.x == x && self.ic_spot.y == y {
            return None;
        }
        self.ic_spot = Point { x, y };
        Some(
            Request::SetIcValues {
                im: self.im,
                ic: self.ic,
                preedit: PreeditAttributes { spot_location: self.ic_spot },
            },
        )
    }

    /// Appends text that the server has committed.
    pub fn commit(&mut self, text: &str)
        ensures
            final(self)@ == old(self)@.with_committed(text@),
    {
        self.written.push_str(text);
    }

    /// Takes the event masks that the server has set.
    pub fn set_event_mask(&mut self, forward_event_mask: u32, synchronous_event_mask: u32)
        ensures
            final(self)@ == old(self)@.with_masks(forward_event_mask, synchronous_event_mask),
    {
        self.forward_event_mask = forward_event_mask;
        self.synchronous_event_mask = synchronous_event_mask;
    }
}

} // verus!
