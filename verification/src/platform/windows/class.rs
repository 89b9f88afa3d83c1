//! What the platform is asked for when a window is made: the window class
//! and the parameters of the creation call.

use super::wide::{encode_wide, spec_encode_wide};
use super::WindowOptions;
use vstd::prelude::*;

verus! {

/// Class style: redraw the window when its width changes.
pub const HREDRAW: u32 = 0x0002;

/// Class style: redraw the window when its height changes.
pub const VREDRAW: u32 = 0x0001;

/// Window style: a top-level window with title bar, border, system menu and
/// sizing buttons.
pub const OVERLAPPED_WINDOW: u32 = 0x00CF_0000;

/// Window style: the window is shown as soon as it is made.
pub const VISIBLE: u32 = 0x1000_0000;

/// The position or extent that leaves the choice to the platform.
pub const USE_DEFAULT: i32 = -2147483648;

/// The style of the window class: both redraw styles.
pub const CLASS_STYLE: u32 = 0x0003;

/// The style of a window: overlapped and visible.
pub const WINDOW_STYLE: u32 = 0x10CF_0000;

/// `windows_sys::Win32::UI::WindowsAndMessaging::CS_HREDRAW`: claimed to be
/// the number that this module calls `HREDRAW`.
#[verifier::external_body]
fn cs_hredraw() -> (style: u32)
    ensures
        style == HREDRAW,
{
    windows_sys::Win32::UI::WindowsAndMessaging::CS_HREDRAW
}

/// `windows_sys::Win32::UI::WindowsAndMessaging::CS_VREDRAW`: claimed to be
/// the number that this module calls `VREDRAW`.
#[verifier::external_body]
fn cs_vredraw() -> (style: u32)
    ensures
        style == VREDRAW,
{
    windows_sys::Win32::UI::WindowsAndMessaging::CS_VREDRAW
}

/// `windows_sys::Win32::UI::WindowsAndMessaging::WS_OVERLAPPEDWINDOW`:
/// claimed to be the number that this module calls `OVERLAPPED_WINDOW`.
#[verifier::external_body]
fn ws_overlappedwindow() -> (style: u32)
    ensures
        style == OVERLAPPED_WINDOW,
{
    windows_sys::Win32::UI::WindowsAndMessaging::WS_OVERLAPPEDWINDOW
}

/// `windows_sys::Win32::UI::WindowsAndMessaging::WS_VISIBLE`: claimed to be
/// the number that this module calls `VISIBLE`.
#[verifier::external_body]
fn ws_visible() -> (style: u32)
    ensures
        style == VISIBLE,
{
    windows_sys::Win32::UI::WindowsAndMessaging::WS_VISIBLE
}

/// `windows_sys::Win32::UI::WindowsAndMessaging::CW_USEDEFAULT`: claimed to
/// be the number that this module calls `USE_DEFAULT`.
#[verifier::external_body]
fn cw_usedefault() -> (value: i32)
    ensures
        value == USE_DEFAULT,
{
    windows_sys::Win32::UI::WindowsAndMessaging::CW_USEDEFAULT
}

/// The description of a window class. Its message procedure is the router;
/// it has no menu, icon, cursor or background brush of its own.
#[derive(Debug, Clone, PartialEq, Eq)]
pub struct WindowClass {
    /// The class name, as a wide string.
    pub class_name: Vec<u16>,
    /// The class style.
    pub style: u32,
    /// Extra bytes after the class structure.
    pub class_extra: i32,
    /// Extra bytes after each window of the class.
    pub window_extra: i32,
}

/// The parameters of one creation call.
#[derive(Debug, Clone, PartialEq, Eq)]
pub struct CreateRequest {
    /// The name of the window class, as a wide string.
    pub class_name: Vec<u16>,
    /// The title, as a wide string.
    pub title: Vec<u16>,
    /// The window style.
    pub style: u32,
    /// The extended window style.
    pub ex_style: u32,
    /// The horizontal position.
    pub x: i32,
    /// The vertical position.
    pub y: i32,
    /// The width.
    pub width: i32,
    /// The height.
    pub height: i32,
}

/// An extent in pixels as the creation call takes it: the number itself
/// where it fits, the largest extent where it does not.
pub open spec fn spec_extent(pixels: u32) -> i32 {
    if pixels <= i32::MAX {
        pixels as i32
    } else {
        i32::MAX
    }
}

/// The extent that the creation call is given for one side of the window.
pub open spec fn spec_side(size: Option<(u32, u32)>, second: bool) -> i32 {
    match size {
        None => USE_DEFAULT,
        Some(s) => spec_extent(if second { s.1 } else { s.0 }),
    }
}

/// An extent in pixels as the creation call takes it.
fn extent(pixels: u32) -> (e: i32)
    ensures
        e == spec_extent(pixels),
{
    if pixels <= 0x7FFF_FFFF {
        pixels as i32
    } else {
        i32::MAX
    }
}

/// The name of the library's window class.
pub open spec fn spec_class_name() -> Seq<char> {
    "Blackbird window"@
}

/// The name of the library's window class.
pub fn class_name() -> (name: &'static str)
    ensures
        name@ == spec_class_name(),
{
    "Blackbird window"
}

/// Describes the window class of the given name, for the platform to
/// register: redrawn on every change of width or height, no extra bytes.
pub fn register_window_class(class_name: &Vec<u16>) -> (class: WindowClass)
    ensures
        class.class_name@ == class_name@,
        class.style == CLASS_STYLE,
        class.class_extra == 0,
        class.window_extra == 0,
{
    let h = cs_hredraw();
    let v = cs_vredraw();
    let style = h | v;
    assert(style == CLASS_STYLE) by (bit_vector)
        requires
            style == h | v,
            h == 2u32,
            v == 1u32,
    ;
    WindowClass { class_name: class_name.clone(), style, class_extra: 0, window_extra: 0 }
}

/// The parameters of the creation call for the given options: the
/// library's class, the title as a wide string, an overlapped window that is
/// visible at once, the position left to the platform, and the size that the
/// options ask for, or else left to the platform too.
pub fn create_request(options: &WindowOptions) -> (request: CreateRequest)
    ensures
        request.class_name@ == spec_encode_wide(spec_class_name()),
        request.title@ == spec_encode_wide(options.name@),
        request.style == WINDOW_STYLE,
        request.ex_style == 0,
        request.x == USE_DEFAULT,
        request.y == USE_DEFAULT,
        request.width == spec_side(options.initial_size, false),
        request.height == spec_side(options.initial_size, true),
{
    let title = encode_wide(options.name.as_str());
    let class_name = encode_wide(class_name());
    let o = ws_overlappedwindow();
    let s = ws_visible();
    let style = o | s;
    assert(style == WINDOW_STYLE) by (bit_vector)
        requires
            style == o | s,
            o == 0x00CF_0000u32,
            s == 0x1000_0000u32,
    ;
    let (width, height) = match options.initial_size {
        None => (cw_usedefault(), cw_usedefault()),
        Some(size) => (extent(size.0), extent(size.1)),
    };
    CreateRequest {
        class_name,
        title,
        style,
        ex_style: 0,
        x: cw_usedefault(),
        y: cw_usedefault(),
        width,
        height,
    }
}

} // verus!
