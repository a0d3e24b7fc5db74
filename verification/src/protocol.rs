//! The plain values that cross the boundary between the engine and the
//! transport: key events, attributes and outgoing requests.

use vstd::prelude::*;

verus! {

/// A pixel position, as the protocol carries it.
#[derive(Clone, Copy, Debug, PartialEq, Eq, Structural)]
pub struct Point {
    pub x: i16,
    pub y: i16,
}

/// A raw key event of the display server, without the connection it came
/// from.
#[derive(Clone, Copy, Debug, PartialEq, Eq, Structural)]
pub struct XKeyEvent {
    pub type_: i32,
    pub serial: u64,
    pub send_event: i32,
    pub window: u64,
    pub root: u64,
    pub subwindow: u64,
    pub time: u64,
    pub x: i32,
    pub y: i32,
    pub x_root: i32,
    pub y_root: i32,
    pub state: u32,
    pub keycode: u32,
    pub same_screen: i32,
}

/// The attributes sent with a request to create an input context.
#[derive(Clone, Copy, Debug, PartialEq, Eq, Structural)]
pub struct IcAttributes {
    pub input_style: u32,
    pub client_window: u32,
    pub focus_window: u32,
}

/// The nested attribute list sent to move the preedit spot.
#[derive(Clone, Copy, Debug, PartialEq, Eq, Structural)]
pub struct PreeditAttributes {
    pub spot_location: Point,
}

/// A request that the caller has to send to the input method server.
#[derive(Clone, Copy, Debug, PartialEq, Eq, Structural)]
pub enum Request {
    /// Opens the input method, for the locale that [`locale`] names.
    Open,
    Close { im: u16 },
    CreateIc { im: u16, attributes: IcAttributes },
    DestroyIc { im: u16, ic: u16 },
    SetIcValues { im: u16, ic: u16, preedit: PreeditAttributes },
    SetFocus { im: u16, ic: u16 },
    UnsetFocus { im: u16, ic: u16 },
    ForwardEvent { im: u16, ic: u16, flag: u16, xev: XKeyEvent },
}

/// A callback of the server that does not fit the state of the engine.
#[derive(Clone, Copy, Debug, PartialEq, Eq, Structural)]
pub enum ImeError {
    /// The reply names a context that is unknown, or answers a request that
    /// was never made.
    InvalidReply,
}

/// The locale that the engine opens the input method for.
pub open spec fn spec_locale() -> Seq<char> {
    "en_US.utf-8"@
}

/// The input style for a client that draws neither preedit nor status.
pub open spec fn spec_input_style() -> u32 {
    0x0408
}

/// The flag sent with every forwarded key event.
pub open spec fn spec_forward_flag() -> u16 {
    4
}

/// The type of the event for a key that went down.
pub open spec fn spec_key_press() -> i32 {
    2
}

/// The type of the event for a key that went up.
pub open spec fn spec_key_release() -> i32 {
    3
}

/// The bit of an event mask that selects key presses.
pub open spec fn spec_key_press_mask() -> u32 {
    1
}

/// The bit of an event mask that selects key releases.
pub open spec fn spec_key_release_mask() -> u32 {
    2
}

/// The low 32 bits of a window identifier: what the protocol carries of it.
pub open spec fn spec_wire_window(window: u64) -> u32 {
    (window % 0x1_0000_0000) as u32
}

/// What `build_ic_attributes` returns for a window.
pub open spec fn spec_ic_attributes(window: u64) -> IcAttributes {
    IcAttributes {
        input_style: spec_input_style(),
        client_window: spec_wire_window(window),
        focus_window: spec_wire_window(window),
    }
}

/// `xim::InputStyle::PREEDIT_NOTHING | xim::InputStyle::STATUS_NOTHING`, as
/// the 32 bits that go on the wire: 8 and 1024 in the crate's table of styles.
#[verifier::external_body]
fn nothing_style_bits() -> (bits: u32)
    ensures
        bits == spec_input_style(),
{
    (xim::InputStyle::PREEDIT_NOTHING | xim::InputStyle::STATUS_NOTHING).bits()
}

/// `xim::ForwardEventFlag::REQUEST_LOOP_UPSTRING`, as the 16 bits that go on
/// the wire: 4 in the crate's table of flags.
#[verifier::external_body]
fn lookup_string_flag_bits() -> (bits: u16)
    ensures
        bits == spec_forward_flag(),
{
    xim::ForwardEventFlag::REQUEST_LOOP_UPSTRING.bits()
}

/// `x11_dl::xlib::KeyPress`, the type of the event for a key that went down:
/// 2.
#[verifier::external_body]
fn xlib_key_press() -> (type_: i32)
    ensures
        type_ == spec_key_press(),
{
    x11_dl::xlib::KeyPress
}

/// `x11_dl::xlib::KeyRelease`, the type of the event for a key that went up:
/// 3.
#[verifier::external_body]
fn xlib_key_release() -> (type_: i32)
    ensures
        type_ == spec_key_release(),
{
    x11_dl::xlib::KeyRelease
}

/// `x11_dl::xlib::KeyPressMask`, the bit of an event mask that selects key
/// presses: 1.
#[verifier::external_body]
fn xlib_key_press_mask() -> (mask: u32)
    ensures
        mask == spec_key_press_mask(),
{
    x11_dl::xlib::KeyPressMask as u32
}

/// `x11_dl::xlib::KeyReleaseMask`, the bit of an event mask that selects key
/// releases: 2.
#[verifier::external_body]
fn xlib_key_release_mask() -> (mask: u32)
    ensures
        mask == spec_key_release_mask(),
{
    x11_dl::xlib::KeyReleaseMask as u32
}

/// Whether a context with the forward mask `forward_event_mask` wants an
/// event of the type `type_` sent to the server: a key press where the mask
/// selects presses, a key release where it selects releases.
pub open spec fn spec_wants_forward(forward_event_mask: u32, type_: i32) -> bool {
    ||| type_ == spec_key_press() && forward_event_mask & spec_key_press_mask() != 0
    ||| type_ == spec_key_release() && forward_event_mask & spec_key_release_mask() != 0
}

/// Whether an event of the type `type_` has to go to the server for a
/// context with the forward mask `forward_event_mask`.
pub fn wants_forward(forward_event_mask: u32, type_: i32) -> (wanted: bool)
    ensures
        wanted == spec_wants_forward(forward_event_mask, type_),
{
    (type_ == xlib_key_press() && forward_event_mask & xlib_key_press_mask() != 0) || (type_
        == xlib_key_release() && forward_event_mask & xlib_key_release_mask() != 0)
}

/// The locale to send with [`Request::Open`].
pub fn locale() -> (name: &'static str)
    ensures
        name@ == spec_locale(),
{
    "en_US.utf-8"
}

/// The low 32 bits of a window identifier.
pub fn wire_window(window: u64) -> (w: u32)
    ensures
        w == spec_wire_window(window),
{
    (window % 0x1_0000_0000) as u32
}

/// The input style that the engine asks for.
pub fn input_style() -> (bits: u32)
    ensures
        bits == spec_input_style(),
{
    nothing_style_bits()
}

/// The flag that the engine sends with a forwarded key event.
pub fn forward_flag() -> (bits: u16)
    ensures
        bits == spec_forward_flag(),
{
    lookup_string_flag_bits()
}

/// The attributes for a new input context of `client_win`: no preedit and no
/// status drawn by the client, and the window as client and as focus window.
pub fn build_ic_attributes(client_win: u64) -> (attributes: IcAttributes)
    ensures
        attributes == spec_ic_attributes(client_win),
{
    let window = wire_window(client_win);
    IcAttributes { input_style: input_style(), client_window: window, focus_window: window }
}

} // verus!
