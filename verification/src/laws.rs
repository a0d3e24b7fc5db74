//! What holds of the registry whatever happens to it, proved over its
//! mathematical model.

use vstd::prelude::*;
use crate::context::ContextState;
use crate::model::{creation_request, Event, RegistryState};
use crate::protocol::{ImeError, Request, XKeyEvent};

verus! {

/// While no input method is open, a request for a context sends nothing: the
/// windows join the queue in the order in which they were asked for.
pub proof fn lemma_requests_before_open_wait(s: RegistryState, windows: Seq<u64>)
    requires
        s.im == 0,
    ensures
        s.after_requests(windows) == (RegistryState { pending: s.pending + windows, ..s }),
        forall|i: int|
            0 <= i < windows.len() ==> (#[trigger] s.after_requests(
                windows.take(i),
            )).spawn_create_ic_request(windows[i]) is None,
    decreases windows.len(),
{
    if windows.len() == 0 {
        assert(s.pending + windows =~= s.pending);
    } else {
        lemma_requests_before_open_wait(s, windows.drop_last());
        assert(s.pending + windows =~= (s.pending + windows.drop_last()).push(windows.last()));
    }
    assert forall|i: int| 0 <= i < windows.len() implies (#[trigger] s.after_requests(
        windows.take(i),
    )).spawn_create_ic_request(windows[i]) is None by {
        lemma_requests_before_open_wait(s, windows.take(i));
    }
}

/// With a creation for the head of `queue` in flight and the rest of `queue`
/// waiting, each reply of the server moves the registry one window on.
proof fn lemma_replies_advance_queue(opened: RegistryState, queue: Seq<u64>, ics: Seq<u16>)
    requires
        queue.len() > 0,
        ics.len() <= queue.len(),
        opened.in_flight == Some(ContextState::fresh(opened.im, queue[0])),
        opened.pending == queue.skip(1),
    ensures
        ({
            let after = opened.after_replies(ics);
            let n = ics.len() as int;
            &&& after.im == opened.im
            &&& n < queue.len() ==> {
                &&& after.pending == queue.skip(n + 1)
                &&& after.in_flight == Some(ContextState::fresh(opened.im, queue[n]))
            }
            &&& n == queue.len() ==> {
                &&& after.pending == Seq::<u64>::empty()
                &&& after.in_flight is None
            }
        }),
    decreases ics.len(),
{
    if ics.len() > 0 {
        let n = ics.len() as int;
        lemma_replies_advance_queue(opened, queue, ics.drop_last());
        let before = opened.after_replies(ics.drop_last());
        assert(before.pending == queue.skip(n));
        if n < queue.len() {
            assert(queue.skip(n).first() == queue[n]);
            assert(queue.skip(n).drop_first() =~= queue.skip(n + 1));
        } else {
            assert(queue.skip(n) =~= Seq::<u64>::empty());
        }
    }
}

/// Windows asked for before the input method is open get their contexts in
/// the order in which they were asked for. Once the server has opened the
/// input method, the creation for the oldest window goes out; the reply
/// number `k` of the server gives its handle to the window number `k` of the
/// queue and sends the creation for the window after it.
pub proof fn lemma_creation_is_fifo(s: RegistryState, windows: Seq<u64>, im: u16, ics: Seq<u16>)
    requires
        s.im == 0,
        ics.len() <= s.pending.len() + windows.len(),
    ensures
        ({
            let queue = s.pending + windows;
            let asked = s.after_requests(windows);
            let opened = asked.handle_open(im);
            &&& queue.len() > 0 ==> asked.handle_open_request(im) == Some(
                creation_request(im, queue[0]),
            )
            &&& forall|k: int|
                0 <= k < ics.len() ==> {
                    let before = #[trigger] opened.after_replies(ics.take(k));
                    let after = before.handle_create_ic(ics[k]);
                    &&& before.in_flight == Some(ContextState::fresh(im, queue[k]))
                    &&& before.handle_create_ic_result(ics[k]) == Ok::<Option<Request>, ImeError>(
                        if k + 1 < queue.len() {
                            Some(creation_request(im, queue[k + 1]))
                        } else {
                            None
                        },
                    )
                    &&& after.context_ids.contains_key(queue[k])
                    &&& after.context_ids[queue[k]] == ics[k]
                    &&& after.contexts.contains_key(ics[k])
                    &&& after.contexts[ics[k]] == ContextState::fresh(im, queue[k]).with_ic(ics[k])
                }
        }),
{
    let queue = s.pending + windows;
    let asked = s.after_requests(windows);
    let opened = asked.handle_open(im);
    lemma_requests_before_open_wait(s, windows);
    assert(asked.pending == queue);
    if queue.len() > 0 {
        assert(queue.drop_first() =~= queue.skip(1));
        assert forall|k: int| 0 <= k < ics.len() implies ({
            let before = #[trigger] opened.after_replies(ics.take(k));
            let after = before.handle_create_ic(ics[k]);
            &&& before.in_flight == Some(ContextState::fresh(im, queue[k]))
            &&& before.handle_create_ic_result(ics[k]) == Ok::<Option<Request>, ImeError>(
                if k + 1 < queue.len() {
                    Some(creation_request(im, queue[k + 1]))
                } else {
                    None
                },
            )
            &&& after.context_ids.contains_key(queue[k])
            &&& after.context_ids[queue[k]] == ics[k]
            &&& after.contexts.contains_key(ics[k])
            &&& after.contexts[ics[k]] == ContextState::fresh(im, queue[k]).with_ic(ics[k])
        }) by {
            lemma_replies_advance_queue(opened, queue, ics.take(k));
            let before = opened.after_replies(ics.take(k));
            assert(before.pending == queue.skip(k + 1));
            if k + 1 < queue.len() {
                assert(queue.skip(k + 1).first() == queue[k + 1]);
            } else {
                assert(queue.skip(k + 1) =~= Seq::<u64>::empty());
            }
        }
    }
}

/// The registry has one creation in flight at most. A request for creation
/// that it hands out is the one whose answer it waits for from then on; it
/// hands one out only where nothing was in flight, where the server's reply
/// has just freed the slot, or where the server has opened the input method
/// anew. A window asked for while a creation is in flight waits in the
/// queue.
pub proof fn lemma_one_creation_in_flight(s: RegistryState, event: Event)
    ensures
        s.emitted(event) matches Some(Request::CreateIc { .. }) ==> {
            &&& s.step(event).in_flight_request() == s.emitted(event)
            &&& (s.in_flight is None || event is Created || event is Opened)
        },
        s.in_flight is Some ==> (event matches Event::CreateContext { window } ==> {
            &&& s.emitted(event) is None
            &&& s.step(event).in_flight == s.in_flight
            &&& s.step(event).pending == s.pending.push(window)
        }),
{
}

/// Of the requests for creation that the registry has sent, it waits for
/// the answer to one at most: the one in its slot. This holds from any state
/// with an empty slot, through whatever happens.
pub proof fn lemma_creations_awaited_at_most_one(s: RegistryState, events: Seq<Event>)
    requires
        s.in_flight is None,
    ensures
        s.creations_awaited(events) == (if s.after_events(events).in_flight is Some {
            1int
        } else {
            0int
        }),
        0 <= s.creations_awaited(events) <= 1,
    decreases events.len(),
{
    if events.len() > 0 {
        lemma_creations_awaited_at_most_one(s, events.drop_last());
        lemma_one_creation_in_flight(s.after_events(events.drop_last()), events.last());
    }
}

/// As long as the server does not close the input method and gives it no
/// handle 0, a registry without an open input method has no context and no
/// creation in flight.
pub proof fn lemma_no_context_without_session(s: RegistryState, events: Seq<Event>)
    requires
        s.idle_without_session(),
        forall|i: int|
            0 <= i < events.len() ==> !(#[trigger] events[i] is Closed) && !(events[i]
                matches Event::Opened { im } && im == 0),
    ensures
        s.after_events(events).idle_without_session(),
    decreases events.len(),
{
    if events.len() > 0 {
        let earlier = events.drop_last();
        assert forall|i: int| 0 <= i < earlier.len() implies !(#[trigger] earlier[i] is Closed)
            && !(earlier[i] matches Event::Opened { im } && im == 0) by {
            assert(earlier[i] == events[i]);
        }
        lemma_no_context_without_session(s, earlier);
        let before = s.after_events(earlier);
        let event = events.last();
        assert(event == events[events.len() - 1]);
        if before.step(event).im == 0 {
            assert(before.im == 0);
            assert(before.step(event).contexts =~= before.contexts);
            assert(before.step(event).context_ids =~= before.context_ids);
        }
    }
}

/// A window whose context has been given up has no context: a lookup finds
/// none, and nothing is sent for it.
pub proof fn lemma_removed_context_is_gone(s: RegistryState, window: u64)
    ensures
        s.remove_context(window).lookup(window) is None,
        s.remove_context(window).focus_request(window) is None,
        s.remove_context(window).unfocus_request(window) is None,
        forall|x: i16, y: i16|
            #[trigger] s.remove_context(window).send_xim_spot_request(window, x, y) is None,
        s.remove_context(window).remove_context_result(window) == (false, None::<Request>),
{
}

/// Moving the spot of a window to where it has just been moved changes
/// nothing and sends nothing, and so it is with a context by itself.
pub proof fn lemma_repeated_spot_sends_nothing(
    s: RegistryState,
    ctx: ContextState,
    window: u64,
    x: i16,
    y: i16,
)
    ensures
        s.send_xim_spot(window, x, y).send_xim_spot_request(window, x, y) is None,
        s.send_xim_spot(window, x, y).send_xim_spot(window, x, y) == s.send_xim_spot(window, x, y),
        ctx.with_spot(x, y).spot_request(x, y) is None,
        ctx.with_spot(x, y).with_spot(x, y) == ctx.with_spot(x, y),
{
    let once = s.send_xim_spot(window, x, y);
    assert(once.send_xim_spot(window, x, y) =~= once);
}

/// No event brings a server that is gone back: the registry stays destroyed
/// through whatever happens.
pub proof fn lemma_destroyed_is_permanent(s: RegistryState, events: Seq<Event>)
    ensures
        s.after_events(events).is_destroyed == s.is_destroyed,
    decreases events.len(),
{
    if events.len() > 0 {
        lemma_destroyed_is_permanent(s, events.drop_last());
    }
}

/// Once the server is gone, nothing of the teardown is sent, whatever has
/// happened since: no request closes the input method and none destroys a
/// context, be it one or all of them.
pub proof fn lemma_teardown_after_destruction_is_silent(
    s: RegistryState,
    events: Seq<Event>,
    window: u64,
    ic: u16,
)
    requires
        s.is_destroyed,
    ensures
        s.after_events(events).close_request() is None,
        s.after_events(events).destroy_ic_request(ic) is None,
        s.after_events(events).destroy_all_requests() == Set::<Request>::empty(),
        s.after_events(events).remove_context_result(window).1 is None,
{
    lemma_destroyed_is_permanent(s, events);
}

/// A callback of the server that does not fit the registry is refused and
/// changes nothing; one that fits is never refused.
pub proof fn lemma_rejected_callback_changes_nothing(s: RegistryState, event: Event)
    ensures
        !s.accepts(event) ==> s.step(event) == s && s.emitted(event) is None,
        event matches Event::Created { ic } ==> (s.handle_create_ic_result(ic) is Ok
            <==> s.accepts(event)),
        event matches Event::Destroyed { ic } ==> (s.known_context(ic) is Ok <==> s.accepts(event)),
        event matches Event::Committed { ic, .. } ==> (s.known_context(ic) is Ok <==> s.accepts(
            event,
        )),
        event matches Event::MasksSet { ic, .. } ==> (s.known_context(ic) is Ok <==> s.accepts(
            event,
        )),
{
}

/// The key events that the server hands back come out of the queue in the
/// order in which they went in.
pub proof fn lemma_forwarded_events_are_fifo(s: RegistryState, xev: XKeyEvent)
    ensures
        s.forwarded.len() == 0 ==> {
            &&& s.handle_forward_event(xev).oldest_forwarded() == Some(xev)
            &&& s.handle_forward_event(xev).pop_forwarded() == s
        },
        s.forwarded.len() > 0 ==> {
            &&& s.handle_forward_event(xev).oldest_forwarded() == s.oldest_forwarded()
            &&& s.handle_forward_event(xev).pop_forwarded() == s.pop_forwarded().handle_forward_event(
                xev,
            )
        },
{
    if s.forwarded.len() == 0 {
        assert(s.forwarded.push(xev).drop_first() =~= s.forwarded);
    } else {
        assert(s.forwarded.push(xev).drop_first() =~= s.forwarded.drop_first().push(xev));
    }
}

/// Windows and contexts go on naming each other through every event, as
/// long as the server gives each new context a handle that no living
/// context has, to a window that has no context yet.
pub proof fn lemma_step_keeps_consistency(s: RegistryState, event: Event)
    requires
        s.consistent(),
        event matches Event::Created { ic } ==> (s.in_flight matches Some(ctx) ==> {
            &&& !s.contexts.contains_key(ic)
            &&& !s.context_ids.contains_key(ctx.client_win)
        }),
    ensures
        s.step(event).consistent(),
{
}

} // verus!
