use x11_ime::context::ImeContext;
use x11_ime::modifiers::ModifiersState;
use x11_ime::protocol::{
    build_ic_attributes, forward_flag, input_style, locale, wants_forward, wire_window,
    IcAttributes, Point, PreeditAttributes, Request,
};

#[test]
fn input_style_is_preedit_nothing_and_status_nothing() {
    let style = xim::InputStyle::PREEDIT_NOTHING | xim::InputStyle::STATUS_NOTHING;
    assert_eq!(input_style(), style.bits());
    assert_eq!(input_style(), 0x0408);
    assert_eq!(xim::InputStyle::from_bits(input_style()), Some(style));
}

#[test]
fn forward_flag_asks_for_the_lookup_string() {
    assert_eq!(forward_flag(), xim::ForwardEventFlag::REQUEST_LOOP_UPSTRING.bits());
    assert_eq!(forward_flag(), 4);
}

#[test]
fn locale_is_american_english_in_utf8() {
    assert_eq!(locale(), "en_US.utf-8");
}

#[test]
fn wire_window_keeps_the_low_32_bits() {
    assert_eq!(wire_window(0), 0);
    assert_eq!(wire_window(0x0460_0001), 0x0460_0001);
    assert_eq!(wire_window(0xffff_ffff), 0xffff_ffff);
    assert_eq!(wire_window(0x1_0000_0000), 0);
    assert_eq!(wire_window(0xabcd_0000_0000_0005), 5);
    assert_eq!(wire_window(u64::MAX), u32::MAX);
}

#[test]
fn attributes_name_the_window_twice() {
    assert_eq!(
        build_ic_attributes(0x0460_0001),
        IcAttributes { input_style: 0x0408, client_window: 0x0460_0001, focus_window: 0x0460_0001 }
    );
    assert_eq!(
        build_ic_attributes(0x7_0000_0009),
        IcAttributes { input_style: 0x0408, client_window: 9, focus_window: 9 }
    );
}

#[test]
fn key_events_are_forwarded_by_the_mask() {
    let press = x11_dl::xlib::KeyPress;
    let release = x11_dl::xlib::KeyRelease;
    let press_mask = x11_dl::xlib::KeyPressMask as u32;
    let release_mask = x11_dl::xlib::KeyReleaseMask as u32;
    assert_eq!((press, release, press_mask, release_mask), (2, 3, 1, 2));

    assert!(wants_forward(press_mask, press));
    assert!(!wants_forward(press_mask, release));
    assert!(wants_forward(release_mask, release));
    assert!(!wants_forward(release_mask, press));
    assert!(wants_forward(press_mask | release_mask, press));
    assert!(wants_forward(press_mask | release_mask, release));
    assert!(!wants_forward(0, press));
    assert!(!wants_forward(0, release));
    assert!(!wants_forward(u32::MAX, x11_dl::xlib::ButtonPress));
    assert!(!wants_forward(u32::MAX, 0));
    assert!(wants_forward(0xffff_fffd, press));
    assert!(!wants_forward(0xffff_fffd, release));
}

#[test]
fn modifiers_follow_their_bits() {
    let none = ModifiersState { shift: false, ctrl: false, alt: false, logo: false };
    assert_eq!(ModifiersState::empty(), none);
    assert_eq!(ModifiersState::from_x11_mask(0), none);
    assert_eq!(
        ModifiersState::from_x11_mask(x11_dl::xlib::ShiftMask),
        ModifiersState { shift: true, ..none }
    );
    assert_eq!(
        ModifiersState::from_x11_mask(x11_dl::xlib::ControlMask),
        ModifiersState { ctrl: true, ..none }
    );
    assert_eq!(
        ModifiersState::from_x11_mask(x11_dl::xlib::Mod1Mask),
        ModifiersState { alt: true, ..none }
    );
    assert_eq!(
        ModifiersState::from_x11_mask(x11_dl::xlib::Mod4Mask),
        ModifiersState { logo: true, ..none }
    );
    assert_eq!(ModifiersState::from_x11_mask(x11_dl::xlib::LockMask), none);
    assert_eq!(
        ModifiersState::from_x11_mask(0x4d),
        ModifiersState { shift: true, ctrl: true, alt: true, logo: true }
    );
    assert_eq!(ModifiersState::from_x11_mask(0xb2), none);
}

#[test]
fn effective_state_is_read_as_bits() {
    let none = ModifiersState { shift: false, ctrl: false, alt: false, logo: false };
    assert_eq!(ModifiersState::from_x11(0), none);
    assert_eq!(ModifiersState::from_x11(5), ModifiersState { shift: true, ctrl: true, ..none });
    assert_eq!(
        ModifiersState::from_x11(-1),
        ModifiersState { shift: true, ctrl: true, alt: true, logo: true }
    );
    assert_eq!(ModifiersState::from_x11(i32::MIN), none);
}

#[test]
fn new_context_is_blank() {
    let ctx = ImeContext::new(7, 0x11);
    assert_eq!(ctx.im, 7);
    assert_eq!(ctx.ic, 0);
    assert_eq!(ctx.ic_spot, Point { x: 0, y: 0 });
    assert_eq!(ctx.forward_event_mask, 0);
    assert_eq!(ctx.synchronous_event_mask, 0);
    assert_eq!(ctx.client_win, 0x11);
    assert_eq!(ctx.written, "");
}

#[test]
fn focus_and_unfocus_are_asked_every_time() {
    let mut ctx = ImeContext::new(7, 0x11);
    ctx.ic = 100;
    assert_eq!(ctx.focus(), Request::SetFocus { im: 7, ic: 100 });
    assert_eq!(ctx.focus(), Request::SetFocus { im: 7, ic: 100 });
    assert_eq!(ctx.unfocus(), Request::UnsetFocus { im: 7, ic: 100 });
    assert_eq!(ctx.unfocus(), Request::UnsetFocus { im: 7, ic: 100 });
}

#[test]
fn spot_is_sent_only_when_it_moves() {
    let mut ctx = ImeContext::new(7, 0x11);
    ctx.ic = 100;
    assert_eq!(ctx.set_spot(0, 0), None);
    let moved = Request::SetIcValues {
        im: 7,
        ic: 100,
        preedit: PreeditAttributes { spot_location: Point { x: 12, y: -3 } },
    };
    assert_eq!(ctx.set_spot(12, -3), Some(moved));
    assert_eq!(ctx.ic_spot, Point { x: 12, y: -3 });
    assert_eq!(ctx.set_spot(12, -3), None);
    assert_eq!(ctx.ic_spot, Point { x: 12, y: -3 });
    assert!(ctx.set_spot(12, -4).is_some());
    assert!(ctx.set_spot(i16::MIN, i16::MAX).is_some());
    assert_eq!(ctx.ic_spot, Point { x: i16::MIN, y: i16::MAX });
}

#[test]
fn context_takes_text_and_masks() {
    let mut ctx = ImeContext::new(7, 0x11);
    ctx.commit("");
    assert_eq!(ctx.written, "");
    ctx.commit("\u{d55c}");
    ctx.commit("\u{ae00}!");
    assert_eq!(ctx.written, "\u{d55c}\u{ae00}!");
    ctx.set_event_mask(3, 2);
    assert_eq!(ctx.forward_event_mask, 3);
    assert_eq!(ctx.synchronous_event_mask, 2);
    assert_eq!(ctx.client_win, 0x11);
}
