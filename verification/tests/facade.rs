use x11_ime::ime::Ime;
use x11_ime::protocol::{IcAttributes, Point, PreeditAttributes, Request, XKeyEvent};

fn key_event(type_: i32, window: u64, keycode: u32) -> XKeyEvent {
    XKeyEvent {
        type_,
        serial: 9,
        send_event: 0,
        window,
        root: 1,
        subwindow: 0,
        time: 1234,
        x: 3,
        y: 4,
        x_root: 30,
        y_root: 40,
        state: 0,
        keycode,
        same_screen: 1,
    }
}

/// An engine with the input method 7 open and the context 100 for the
/// window 10.
fn engine_with_context() -> Ime {
    let mut ime = Ime::new();
    assert_eq!(ime.inner.handle_open(7), None);
    assert_eq!(
        ime.create_context(10),
        Some(Request::CreateIc {
            im: 7,
            attributes: IcAttributes { input_style: 0x0408, client_window: 10, focus_window: 10 },
        })
    );
    assert_eq!(ime.inner.handle_create_ic(100), Ok(None));
    ime
}

#[test]
fn new_engine_has_nothing() {
    let mut ime = Ime::new();
    assert!(!ime.is_destroyed());
    assert_eq!(ime.pop_forwarded(), None);
    assert!(ime.get_context(10).is_none());
    assert!(ime.context(10).is_none());
    assert_eq!(ime.focus(10), None);
    assert_eq!(ime.remove_context(10), (false, None));
}

#[test]
fn context_before_the_open_waits() {
    let mut ime = Ime::new();
    assert_eq!(ime.create_context(10), None);
    assert_eq!(ime.inner.pending_contexts.len(), 1);
    assert!(ime.get_context(10).is_none());
}

#[test]
fn forwarded_events_come_out_in_order() {
    let mut ime = Ime::new();
    let first = key_event(2, 10, 38);
    let second = key_event(3, 10, 38);
    ime.inner.handle_forward_event(first);
    ime.inner.handle_forward_event(second);
    assert_eq!(ime.pop_forwarded(), Some(first));
    assert_eq!(ime.pop_forwarded(), Some(second));
    assert_eq!(ime.pop_forwarded(), None);
    assert_eq!(ime.pop_forwarded(), None);
}

#[test]
fn lookup_finds_the_context_of_the_window() {
    let mut ime = engine_with_context();
    assert_eq!(ime.context(10).map(|c| (c.im, c.ic, c.client_win)), Some((7, 100, 10)));
    assert_eq!(ime.get_context(10).map(|c| (c.im, c.ic, c.client_win)), Some((7, 100, 10)));
    assert!(ime.context(11).is_none());
    assert!(ime.get_context(11).is_none());
}

#[test]
fn lookup_hands_out_the_stored_context() {
    let mut ime = engine_with_context();
    ime.inner.handle_commit(100, "abc").unwrap();
    let taken = ime.get_context(10).map(|c| std::mem::take(&mut c.written));
    assert_eq!(taken, Some(String::from("abc")));
    assert_eq!(ime.context(10).map(|c| c.written.clone()), Some(String::new()));
    ime.inner.handle_commit(100, "d").unwrap();
    assert_eq!(ime.context(10).map(|c| c.written.clone()), Some(String::from("d")));
}

#[test]
fn lookup_finds_nothing_once_destroyed() {
    let mut ime = engine_with_context();
    ime.inner.is_destroyed = true;
    assert!(ime.is_destroyed());
    assert!(ime.get_context(10).is_none());
    assert!(ime.context(10).is_none());
}

#[test]
fn removed_context_is_gone() {
    let mut ime = engine_with_context();
    assert_eq!(ime.remove_context(10), (true, Some(Request::DestroyIc { im: 7, ic: 100 })));
    assert!(ime.get_context(10).is_none());
    assert!(ime.context(10).is_none());
    assert!(ime.inner.contexts.is_empty());
    assert!(ime.inner.context_ids.is_empty());
    assert_eq!(ime.focus(10), None);
    assert_eq!(ime.send_xim_spot(10, 1, 1), None);
    assert_eq!(ime.remove_context(10), (false, None));
}

#[test]
fn removal_once_destroyed_sends_nothing() {
    let mut ime = engine_with_context();
    ime.inner.is_destroyed = true;
    assert_eq!(ime.remove_context(10), (true, None));
    assert!(ime.inner.contexts.is_empty());
    assert!(ime.inner.context_ids.is_empty());
    assert_eq!(ime.remove_context(10), (false, None));
}

#[test]
fn focus_needs_a_context_and_a_server() {
    let mut ime = engine_with_context();
    assert_eq!(ime.focus(10), Some(Request::SetFocus { im: 7, ic: 100 }));
    assert_eq!(ime.focus(10), Some(Request::SetFocus { im: 7, ic: 100 }));
    assert_eq!(ime.unfocus(10), Some(Request::UnsetFocus { im: 7, ic: 100 }));
    assert_eq!(ime.focus(11), None);
    assert_eq!(ime.unfocus(11), None);
    ime.inner.is_destroyed = true;
    assert_eq!(ime.focus(10), None);
    assert_eq!(ime.unfocus(10), None);
}

#[test]
fn same_spot_twice_is_sent_once() {
    let mut ime = engine_with_context();
    let moved = Request::SetIcValues {
        im: 7,
        ic: 100,
        preedit: PreeditAttributes { spot_location: Point { x: 40, y: 25 } },
    };
    assert_eq!(ime.send_xim_spot(10, 40, 25), Some(moved));
    assert_eq!(ime.send_xim_spot(10, 40, 25), None);
    assert_eq!(ime.context(10).map(|c| c.ic_spot), Some(Point { x: 40, y: 25 }));
    assert!(ime.send_xim_spot(10, 40, 26).is_some());
    assert!(ime.send_xim_spot(10, 40, 25).is_some());
}

#[test]
fn spot_needs_a_context_and_a_server() {
    let mut ime = engine_with_context();
    assert_eq!(ime.send_xim_spot(11, 40, 25), None);
    ime.inner.is_destroyed = true;
    assert_eq!(ime.send_xim_spot(10, 40, 25), None);
    assert_eq!(ime.inner.contexts[&100].ic_spot, Point { x: 0, y: 0 });
}

#[test]
fn event_that_the_transport_took_is_consumed() {
    let ime = engine_with_context();
    assert_eq!(ime.filter_event(true, &key_event(2, 10, 38)), (true, None));
    assert_eq!(ime.filter_event(true, &key_event(33, 99, 0)), (true, None));
}

#[test]
fn key_events_go_to_the_server_by_the_mask() {
    let mut ime = engine_with_context();
    let press = key_event(x11_dl::xlib::KeyPress, 10, 38);
    let release = key_event(x11_dl::xlib::KeyRelease, 10, 38);
    let flag = xim::ForwardEventFlag::REQUEST_LOOP_UPSTRING.bits();

    assert_eq!(ime.filter_event(false, &press), (false, None));
    assert_eq!(ime.filter_event(false, &release), (false, None));

    ime.inner.handle_set_event_mask(100, x11_dl::xlib::KeyPressMask as u32, 0).unwrap();
    assert_eq!(
        ime.filter_event(false, &press),
        (true, Some(Request::ForwardEvent { im: 7, ic: 100, flag, xev: press }))
    );
    assert_eq!(ime.filter_event(false, &release), (false, None));

    ime.inner.handle_set_event_mask(100, x11_dl::xlib::KeyReleaseMask as u32, 0).unwrap();
    assert_eq!(ime.filter_event(false, &press), (false, None));
    assert_eq!(
        ime.filter_event(false, &release),
        (true, Some(Request::ForwardEvent { im: 7, ic: 100, flag, xev: release }))
    );

    ime.inner.handle_set_event_mask(100, 3, 0).unwrap();
    assert_eq!(ime.filter_event(false, &key_event(4, 10, 1)), (false, None));
    assert_eq!(ime.filter_event(false, &key_event(2, 11, 38)), (false, None));
    ime.inner.is_destroyed = true;
    assert_eq!(ime.filter_event(false, &press), (false, None));
}

#[test]
fn disposal_destroys_the_contexts_then_closes() {
    let mut ime = engine_with_context();
    assert_eq!(ime.create_context(11), Some(Request::CreateIc {
        im: 7,
        attributes: IcAttributes { input_style: 0x0408, client_window: 11, focus_window: 11 },
    }));
    assert_eq!(ime.inner.handle_create_ic(101), Ok(None));
    let (mut destroy, close) = ime.teardown();
    destroy.sort_by_key(|r| match r {
        Request::DestroyIc { ic, .. } => *ic,
        _ => 0,
    });
    assert_eq!(
        destroy,
        vec![Request::DestroyIc { im: 7, ic: 100 }, Request::DestroyIc { im: 7, ic: 101 }]
    );
    assert_eq!(close, Some(Request::Close { im: 7 }));
}

#[test]
fn disposal_once_destroyed_sends_nothing() {
    let mut ime = engine_with_context();
    ime.inner.is_destroyed = true;
    assert_eq!(ime.teardown(), (vec![], None));
}
