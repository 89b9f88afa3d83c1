//! The native window of the Windows platform.

pub mod class;
pub mod delivery;
pub mod message;
pub mod pump;
pub mod router;
pub mod wide;

use vstd::prelude::*;

verus! {

/// A live native window, known by its handle.
///
/// The handle is a reference to state that the platform owns, so the wrapper
/// is copied freely. A window never holds the null handle.
#[derive(Debug, Clone, Copy, PartialEq, Eq, Structural)]
pub struct Window {
    handle: isize,
}

/// What a window is made with.
#[derive(Debug, Clone, PartialEq, Eq)]
pub struct WindowOptions {
    /// The title that the window shows.
    pub name: String,
    /// The size of the window in logical pixels, width first; none leaves it
    /// to the platform.
    pub initial_size: Option<(u32, u32)>,
}

impl Default for WindowOptions {
    /// The options of a window that is titled with the application's name
    /// and sized by the platform.
    fn default() -> (options: WindowOptions)
        ensures
            options.name@ == "My Application"@,
            options.initial_size is None,
    {
        WindowOptions { name: "My Application".to_owned(), initial_size: None }
    }
}

/// Why a window could not be made or kept running.
#[derive(Debug, Clone, PartialEq, Eq)]
pub enum WindowError {
    /// The platform refused; the text says where.
    CreationError(&'static str),
}

impl WindowError {
    /// The text that the error carries.
    pub open spec fn spec_reason(&self) -> &'static str {
        match self {
            WindowError::CreationError(reason) => *reason,
        }
    }

    /// The text that the error carries.
    #[verifier::when_used_as_spec(spec_reason)]
    pub fn reason(&self) -> (reason: &'static str)
        ensures
            reason == self.spec_reason(),
    {
        match self {
            WindowError::CreationError(reason) => *reason,
        }
    }

    /// The error as a line of text for the user.
    pub fn to_string(&self) -> (text: String)
        ensures
            text@ == "Window creation error: "@ + self.spec_reason()@,
    {
        String::from_str("Window creation error: ").concat(self.reason())
    }
}

/// The block of data that belongs to one window for its lifetime.
#[derive(Debug, Clone, Copy, PartialEq, Eq, Structural)]
pub struct WindowData {}

/// The record that accompanies one creation call. The router fills its slot
/// with the window that the platform is creating.
#[derive(Debug, Clone, Copy, PartialEq, Eq, Structural)]
pub struct InitData {
    window: Option<Window>,
}

impl Window {
    /// The native handle.
    pub closed spec fn spec_handle(self) -> isize {
        self.handle
    }

    /// What holds of every window: its handle is not null.
    #[verifier::type_invariant]
    pub open spec fn wf(self) -> bool {
        self.spec_handle() != 0
    }

    /// Two windows with one handle are one window.
    pub proof fn lemma_same_handle(self, other: Window)
        requires
            self.spec_handle() == other.spec_handle(),
        ensures
            self == other,
    {
    }

    /// The window of a native handle; none for the null handle.
    pub fn from_handle(handle: isize) -> (window: Option<Window>)
        ensures
            window is Some <==> handle != 0,
            window is Some ==> window->0.wf() && window->0.spec_handle() == handle,
    {
        if handle == 0 {
            None
        } else {
            Some(Window { handle })
        }
    }

    /// The native handle.
    #[verifier::when_used_as_spec(spec_handle)]
    pub fn handle(self) -> (handle: isize)
        ensures
            handle == self.spec_handle(),
            self.wf(),
    {
        proof {
            use_type_invariant(&self);
        }
        self.handle
    }
}

impl InitData {
    /// The window in the slot.
    pub closed spec fn spec_window(self) -> Option<Window> {
        self.window
    }

    /// A record with an empty slot.
    pub fn new() -> (initdata: InitData)
        ensures
            initdata.spec_window() is None,
    {
        InitData { window: None }
    }

    /// The window in the slot.
    #[verifier::when_used_as_spec(spec_window)]
    pub fn window(self) -> (window: Option<Window>)
        ensures
            window == self.spec_window(),
    {
        self.window
    }

    /// Records the window that is being created and allocates its data
    /// block. For the null handle nothing is recorded and no block is made.
    pub fn handle_create(&mut self, window: isize) -> (data: Option<WindowData>)
        ensures
            data is Some <==> window != 0,
            window == 0 ==> *final(self) == *old(self),
            window != 0 ==> final(self).spec_window() is Some && final(self).spec_window()->0.wf()
                && final(self).spec_window()->0.spec_handle() == window,
    {
        match Window::from_handle(window) {
            None => None,
            Some(w) => {
                self.window = Some(w);
                Some(WindowData {})
            },
        }
    }
}


/// The window handle with the instance that the window belongs to, as a
/// rendering backend wants them.
#[derive(Debug, Clone, Copy, PartialEq, Eq, Structural)]
pub struct Win32Handle {
    /// The window handle; never null.
    pub hwnd: isize,
    /// The instance handle, where the platform gave one.
    pub hinstance: Option<isize>,
}

/// The result of a creation of which the platform reported the class atom
/// `class_atom` and the window handle `handle`, and during which the router
/// filled the slot with `slot`.
pub open spec fn spec_create_window(class_atom: u16, handle: isize, slot: Option<Window>) -> Result<
    Window,
    WindowError,
> {
    if class_atom == 0 {
        Err(WindowError::CreationError("Window class registration failed"))
    } else if handle == 0 {
        Err(WindowError::CreationError("Null window handle"))
    } else {
        match slot {
            Some(window) => Ok(window),
            None => Err(WindowError::CreationError("Window data not bound")),
        }
    }
}

/// Concludes a creation from what the platform reported: the atom of the
/// registered class, zero if the registration failed, and the handle of the
/// window, null if none was made. The window is the one that the router
/// recorded in `initdata` while the platform made it. Without a registered
/// class, a handle or a recorded window there is an error and no window.
pub fn create_window(class_atom: u16, handle: isize, initdata: InitData) -> (result: Result<
    Window,
    WindowError,
>)
    ensures
        result == spec_create_window(class_atom, handle, initdata.spec_window()),
        result is Ok <==> class_atom != 0 && handle != 0 && initdata.spec_window() is Some,
        result is Ok ==> result->Ok_0.wf(),
{
    if class_atom == 0 {
        return Err(WindowError::CreationError("Window class registration failed"));
    }
    if handle == 0 {
        return Err(WindowError::CreationError("Null window handle"));
    }
    match initdata.window() {
        Some(window) => {
            proof {
                use_type_invariant(&window);
            }
            Ok(window)
        },
        None => Err(WindowError::CreationError("Window data not bound")),
    }
}

impl Window {
    /// Concludes a creation from what the platform reported; see
    /// `create_window`.
    pub fn create(class_atom: u16, handle: isize, initdata: InitData) -> (result: Result<
        Window,
        WindowError,
    >)
        ensures
            result == spec_create_window(class_atom, handle, initdata.spec_window()),
            result is Ok <==> class_atom != 0 && handle != 0 && initdata.spec_window() is Some,
            result is Ok ==> result->Ok_0.wf(),
    {
        create_window(class_atom, handle, initdata)
    }

    /// The handles that a rendering surface is made from. `hinstance` is the
    /// instance handle that the platform reports for the window; null
    /// stands for none.
    pub fn window_handle(&self, hinstance: isize) -> (handle: Win32Handle)
        ensures
            handle.hwnd == self.spec_handle(),
            handle.hwnd != 0,
            handle.hinstance == if hinstance == 0 {
                None
            } else {
                Some(hinstance)
            },
    {
        proof {
            use_type_invariant(self);
        }
        Win32Handle {
            hwnd: self.handle,
            hinstance: if hinstance == 0 {
                None
            } else {
                Some(hinstance)
            },
        }
    }
}

} // verus!
