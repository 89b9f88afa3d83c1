//! The decoding layer between raw message identifiers and the router.

use vstd::prelude::*;

verus! {

/// Identifier of the message sent before a window exists on screen.
pub const NCCREATE: u32 = 0x0081;

/// Identifier of the legacy creation message.
pub const CREATE: u32 = 0x0001;

/// Identifier of the paint request.
pub const PAINT: u32 = 0x000F;

/// Identifier of the destroy notification.
pub const DESTROY: u32 = 0x0002;

/// A native window message, as far as the router tells messages apart.
#[derive(Debug, Clone, Copy, PartialEq, Eq, Structural)]
pub enum Message {
    /// The window is about to be created; its data is bound here.
    NcCreate,
    /// The legacy creation message.
    Create,
    /// The window's update region should be painted.
    Paint,
    /// The window is being destroyed.
    Destroy,
    /// Any other message, with its identifier.
    Other(u32),
}

/// The message that a raw identifier stands for.
pub open spec fn spec_decode(id: u32) -> Message {
    if id == NCCREATE {
        Message::NcCreate
    } else if id == CREATE {
        Message::Create
    } else if id == PAINT {
        Message::Paint
    } else if id == DESTROY {
        Message::Destroy
    } else {
        Message::Other(id)
    }
}

/// `windows_sys::Win32::UI::WindowsAndMessaging::WM_NCCREATE`: claimed to be
/// the number that this module calls `NCCREATE`.
#[verifier::external_body]
fn wm_nccreate() -> (id: u32)
    ensures
        id == NCCREATE,
{
    windows_sys::Win32::UI::WindowsAndMessaging::WM_NCCREATE
}

/// `windows_sys::Win32::UI::WindowsAndMessaging::WM_CREATE`: claimed to be
/// the number that this module calls `CREATE`.
#[verifier::external_body]
fn wm_create() -> (id: u32)
    ensures
        id == CREATE,
{
    windows_sys::Win32::UI::WindowsAndMessaging::WM_CREATE
}

/// `windows_sys::Win32::UI::WindowsAndMessaging::WM_PAINT`: claimed to be
/// the number that this module calls `PAINT`.
#[verifier::external_body]
fn wm_paint() -> (id: u32)
    ensures
        id == PAINT,
{
    windows_sys::Win32::UI::WindowsAndMessaging::WM_PAINT
}

/// `windows_sys::Win32::UI::WindowsAndMessaging::WM_DESTROY`: claimed to be
/// the number that this module calls `DESTROY`.
#[verifier::external_body]
fn wm_destroy() -> (id: u32)
    ensures
        id == DESTROY,
{
    windows_sys::Win32::UI::WindowsAndMessaging::WM_DESTROY
}

/// Decodes a raw message identifier.
pub fn decode(id: u32) -> (message: Message)
    ensures
        message == spec_decode(id),
{
    if id == wm_nccreate() {
        Message::NcCreate
    } else if id == wm_create() {
        Message::Create
    } else if id == wm_paint() {
        Message::Paint
    } else if id == wm_destroy() {
        Message::Destroy
    } else {
        Message::Other(id)
    }
}

impl Message {
    /// The raw identifier of this message.
    pub open spec fn spec_id(self) -> u32 {
        match self {
            Message::NcCreate => NCCREATE,
            Message::Create => CREATE,
            Message::Paint => PAINT,
            Message::Destroy => DESTROY,
            Message::Other(id) => id,
        }
    }

    /// The raw identifier of this message.
    #[verifier::when_used_as_spec(spec_id)]
    pub fn id(self) -> (id: u32)
        ensures
            id == self.spec_id(),
    {
        match self {
            Message::NcCreate => wm_nccreate(),
            Message::Create => wm_create(),
            Message::Paint => wm_paint(),
            Message::Destroy => wm_destroy(),
            Message::Other(id) => id,
        }
    }
}

/// Decoding gives back the message of every identifier that `id` hands out
/// for a decoded message.
pub proof fn lemma_decode_id(id: u32)
    ensures
        spec_decode(id).spec_id() == id,
        spec_decode(spec_decode(id).spec_id()) == spec_decode(id),
{
}

} // verus!
