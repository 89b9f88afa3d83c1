//! The application shell: what the graphics instance is made with, the
//! order of the start-up work, and the loop that ends on a close request.

use crate::event_loop::{
    dispatch_of, state_after, ControlFlow, EventLoopDriver, LoopState, RawEvent, WaitPolicy,
};
use crate::platform::windows::WindowError;
use crate::renderer::RendererError;
use vstd::prelude::*;

verus! {

/// A version number.
#[derive(Debug, Clone, Copy, PartialEq, Eq, Structural)]
pub struct Version {
    pub major: u32,
    pub minor: u32,
    pub patch: u32,
}

/// What a graphics instance is made with.
#[derive(Debug, Clone, PartialEq, Eq)]
pub struct InstancePlan {
    /// The name of the application.
    pub application_name: String,
    /// The version of the application.
    pub application_version: Version,
    /// The name of the engine.
    pub engine_name: String,
    /// The version of the engine.
    pub engine_version: Version,
    /// The names of the instance extensions to enable.
    pub extensions: Vec<String>,
    /// The names of the layers to enable.
    pub layers: Vec<String>,
}

/// Which messages of the backend the debug callback is registered for.
#[derive(Debug, Clone, Copy, PartialEq, Eq, Structural)]
pub struct DebugCallbackPlan {
    /// Messages that report an error.
    pub error: bool,
    /// Messages that warn.
    pub warning: bool,
    /// Messages that inform.
    pub information: bool,
    /// Messages for diagnosis.
    pub verbose: bool,
    /// Messages on general events.
    pub general: bool,
    /// Messages of the validation layers.
    pub validation: bool,
    /// Messages on uses that may be slow.
    pub performance: bool,
}

/// The names of the validation layers.
pub open spec fn spec_validation_layers() -> Seq<Seq<char>> {
    seq!["VK_LAYER_LUNARG_standard_validation"@]
}

/// The name of the extension that the debug callback needs.
pub open spec fn spec_debug_utils() -> Seq<char> {
    "VK_EXT_debug_utils"@
}

/// Whether each validation layer is among the available layers.
pub open spec fn spec_layers_supported(available: Seq<Seq<char>>) -> bool {
    forall|i: int|
        0 <= i < spec_validation_layers().len() ==> available.contains(
            #[trigger] spec_validation_layers()[i],
        )
}

/// The extensions of the instance: those that the window system needs,
/// and with validation the debug extension, once.
pub open spec fn spec_required_extensions(window_extensions: Seq<Seq<char>>, validation: bool)
    -> Seq<Seq<char>> {
    if validation && !window_extensions.contains(spec_debug_utils()) {
        window_extensions.push(spec_debug_utils())
    } else {
        window_extensions
    }
}

/// The layers of the instance: the validation layers where validation is
/// wanted and each of them is available, and else none.
pub open spec fn spec_layers(validation: bool, available: Seq<Seq<char>>) -> Seq<Seq<char>> {
    if validation && spec_layers_supported(available) {
        spec_validation_layers()
    } else {
        Seq::empty()
    }
}

/// The names of the validation layers.
pub fn validation_layers() -> (layers: Vec<String>)
    ensures
        layers.deep_view() == spec_validation_layers(),
{
    let mut layers: Vec<String> = Vec::new();
    layers.push(String::from_str("VK_LAYER_LUNARG_standard_validation"));
    assert(layers.deep_view() =~= spec_validation_layers());
    layers
}

/// Whether the name is among the given names.
fn contains_name(names: &Vec<String>, name: &String) -> (found: bool)
    ensures
        found == names.deep_view().contains(name@),
{
    let mut i: usize = 0;
    while i < names.len()
        invariant
            i <= names.len(),
            forall|j: int| 0 <= j < i ==> names.deep_view()[j] != name@,
        decreases names.len() - i,
    {
        if names[i] == *name {
            assert(names.deep_view()[i as int] == name@);
            return true;
        }
        i += 1;
    }
    false
}

/// Whether each validation layer is among the layers that the backend
/// offers.
pub fn check_validation_layer_support(available: &Vec<String>) -> (supported: bool)
    ensures
        supported == spec_layers_supported(available.deep_view()),
{
    let wanted = validation_layers();
    let mut i: usize = 0;
    while i < wanted.len()
        invariant
            i <= wanted.len(),
            wanted.deep_view() == spec_validation_layers(),
            forall|j: int|
                0 <= j < i ==> available.deep_view().contains(
                    #[trigger] spec_validation_layers()[j],
                ),
        decreases wanted.len() - i,
    {
        if !contains_name(available, &wanted[i]) {
            assert(wanted.deep_view()[i as int] == wanted[i as int]@);
            return false;
        }
        assert(wanted.deep_view()[i as int] == wanted[i as int]@);
        i += 1;
    }
    true
}

/// The extensions of the instance: those that the window system needs,
/// and with validation the debug extension.
pub fn get_required_extensions(window_extensions: Vec<String>, validation: bool) -> (extensions:
    Vec<String>)
    ensures
        extensions.deep_view() == spec_required_extensions(
            window_extensions.deep_view(),
            validation,
        ),
{
    let mut extensions = window_extensions;
    if validation {
        let debug_utils = String::from_str("VK_EXT_debug_utils");
        if !contains_name(&extensions, &debug_utils) {
            let ghost before = extensions.deep_view();
            extensions.push(debug_utils);
            assert(extensions.deep_view() =~= before.push(spec_debug_utils()));
        }
    }
    extensions
}

/// What the graphics instance is made with: the names and versions of
/// application and engine, the extensions, and the validation layers where
/// they are wanted and available. `available_layers` is looked at only with
/// validation.
pub fn create_instance(
    validation: bool,
    available_layers: &Vec<String>,
    window_extensions: Vec<String>,
) -> (plan: InstancePlan)
    ensures
        plan.application_name@ == "My Application"@,
        plan.application_version == (Version { major: 1, minor: 0, patch: 0 }),
        plan.engine_name@ == "Blackbird"@,
        plan.engine_version == (Version { major: 1, minor: 0, patch: 0 }),
        plan.extensions.deep_view() == spec_required_extensions(
            window_extensions.deep_view(),
            validation,
        ),
        plan.layers.deep_view() == spec_layers(validation, available_layers.deep_view()),
{
    let extensions = get_required_extensions(window_extensions, validation);
    let layers = if validation && check_validation_layer_support(available_layers) {
        validation_layers()
    } else {
        let none: Vec<String> = Vec::new();
        assert(none.deep_view() =~= Seq::<Seq<char>>::empty());
        none
    };
    InstancePlan {
        application_name: String::from_str("My Application"),
        application_version: Version { major: 1, minor: 0, patch: 0 },
        engine_name: String::from_str("Blackbird"),
        engine_version: Version { major: 1, minor: 0, patch: 0 },
        extensions,
        layers,
    }
}

/// The debug callback to register: with validation one for errors and
/// warnings of every kind, and else none.
pub fn setup_debug_callback(validation: bool) -> (plan: Option<DebugCallbackPlan>)
    ensures
        plan == if validation {
            Some(
                DebugCallbackPlan {
                    error: true,
                    warning: true,
                    information: false,
                    verbose: false,
                    general: true,
                    validation: true,
                    performance: true,
                },
            )
        } else {
            None
        },
{
    if !validation {
        return None;
    }
    Some(
        DebugCallbackPlan {
            error: true,
            warning: true,
            information: false,
            verbose: false,
            general: true,
            validation: true,
            performance: true,
        },
    )
}


/// One piece of the start-up work of a shell.
#[derive(Debug, Clone, Copy, PartialEq, Eq, Structural)]
pub enum Stage {
    /// Make the graphics instance.
    Instance,
    /// Register the debug callback.
    DebugCallback,
    /// Create the window.
    Window,
    /// Attach a rendering surface to the window.
    Surface,
    /// Ask for the adapter that suits the surface.
    Adapter,
    /// Dispatch events until the window is closed.
    Dispatch,
}

/// Which of the optional stages a shell has.
#[derive(Debug, Clone, Copy, PartialEq, Eq, Structural)]
pub struct ShellConfig {
    /// Whether the debug callback is registered.
    pub debug_callback: bool,
    /// Whether a rendering surface is attached and an adapter selected.
    pub surface: bool,
}

/// The work of a shell in its order: the instance, the debug callback if
/// there is one, the window, surface and adapter if they are wanted, and
/// only then the dispatch of events.
pub open spec fn spec_stages(config: ShellConfig) -> Seq<Stage> {
    seq![Stage::Instance] + (if config.debug_callback {
        seq![Stage::DebugCallback]
    } else {
        Seq::empty()
    }) + seq![Stage::Window] + (if config.surface {
        seq![Stage::Surface, Stage::Adapter]
    } else {
        Seq::empty()
    }) + seq![Stage::Dispatch]
}

/// The work of a shell in its order.
pub fn stages(config: ShellConfig) -> (stages: Vec<Stage>)
    ensures
        stages@ == spec_stages(config),
{
    let mut stages: Vec<Stage> = Vec::new();
    stages.push(Stage::Instance);
    if config.debug_callback {
        stages.push(Stage::DebugCallback);
    }
    stages.push(Stage::Window);
    if config.surface {
        stages.push(Stage::Surface);
        stages.push(Stage::Adapter);
    }
    stages.push(Stage::Dispatch);
    assert(stages@ =~= spec_stages(config));
    stages
}

/// In every shell the dispatch of events is the last stage, so surface and
/// adapter are ready before the first event; the window is created before
/// the surface is attached to it, and the surface before the adapter is
/// asked for.
pub proof fn lemma_dispatch_is_last(config: ShellConfig, i: int, j: int)
    requires
        0 <= i < spec_stages(config).len(),
        0 <= j < spec_stages(config).len(),
    ensures
        spec_stages(config).last() == Stage::Dispatch,
        spec_stages(config)[i] == Stage::Dispatch ==> i == spec_stages(config).len() - 1,
        spec_stages(config)[i] == Stage::Window && spec_stages(config)[j] == Stage::Surface ==> i
            < j,
        spec_stages(config)[i] == Stage::Surface && spec_stages(config)[j] == Stage::Adapter ==> i
            < j,
        spec_stages(config).contains(Stage::Surface) <==> config.surface,
        spec_stages(config).contains(Stage::DebugCallback) <==> config.debug_callback,
{
    let s = spec_stages(config);
    if config.debug_callback {
        if config.surface {
            assert(s =~= seq![
                Stage::Instance,
                Stage::DebugCallback,
                Stage::Window,
                Stage::Surface,
                Stage::Adapter,
                Stage::Dispatch,
            ]);
            assert(s[3] == Stage::Surface);
            assert(s[1] == Stage::DebugCallback);
        } else {
            assert(s =~= seq![
                Stage::Instance,
                Stage::DebugCallback,
                Stage::Window,
                Stage::Dispatch,
            ]);
            assert(s[1] == Stage::DebugCallback);
        }
    } else {
        if config.surface {
            assert(s =~= seq![
                Stage::Instance,
                Stage::Window,
                Stage::Surface,
                Stage::Adapter,
                Stage::Dispatch,
            ]);
            assert(s[2] == Stage::Surface);
        } else {
            assert(s =~= seq![Stage::Instance, Stage::Window, Stage::Dispatch]);
        }
    }
}

/// The application: its graphics instance, its debug callback if it has
/// one, its window, and the loop that waits for the window to be closed.
pub struct Application<D, I, W> {
    debug_callback: Option<D>,
    instance: I,
    window: W,
    driver: EventLoopDriver,
}

impl<D, I, W> Application<D, I, W> {
    /// The debug callback.
    pub closed spec fn spec_debug_callback(&self) -> Option<D> {
        self.debug_callback
    }

    /// The graphics instance.
    pub closed spec fn spec_instance(&self) -> I {
        self.instance
    }

    /// The window.
    pub closed spec fn spec_window(&self) -> W {
        self.window
    }

    /// The driver of the event loop.
    pub closed spec fn spec_driver(&self) -> EventLoopDriver {
        self.driver
    }

    /// Puts the application together from what the start-up made: the
    /// debug callback if one was registered, the graphics instance, and the
    /// window with its identity. The loop is bound to that window and waits
    /// for events by blocking.
    pub fn initialize(debug_callback: Option<D>, instance: I, window: W, window_id: u64) -> (app:
        Application<D, I, W>)
        ensures
            app.spec_debug_callback() == debug_callback,
            app.spec_instance() == instance,
            app.spec_window() == window,
            app.spec_driver().spec_state() == LoopState::Resumed,
            app.spec_driver().spec_window() == Some(window_id),
            app.spec_driver().spec_policy() == WaitPolicy::Wait,
    {
        let mut driver = EventLoopDriver::new(WaitPolicy::Wait);
        let _ = driver.bind_window(window_id);
        Application { debug_callback, instance, window, driver }
    }

    /// The debug callback.
    pub fn debug_callback(&self) -> (debug_callback: Option<&D>)
        ensures
            debug_callback is Some <==> self.spec_debug_callback() is Some,
            debug_callback is Some ==> Some(*debug_callback->0) == self.spec_debug_callback(),
    {
        self.debug_callback.as_ref()
    }

    /// The graphics instance.
    pub fn instance(&self) -> (instance: &I)
        ensures
            *instance == self.spec_instance(),
    {
        &self.instance
    }

    /// The window.
    pub fn window(&self) -> (window: &W)
        ensures
            *window == self.spec_window(),
    {
        &self.window
    }

    /// The driver of the event loop.
    pub fn driver(&self) -> (driver: EventLoopDriver)
        ensures
            driver == self.spec_driver(),
    {
        self.driver
    }

    /// One turn of the main loop, on the raw event that the platform
    /// delivered: the loop is left on a close request for the
    /// application's window and once that has been seen, and else goes on
    /// as the driver's policy says.
    pub fn main_loop(&mut self, raw: RawEvent) -> (flow: ControlFlow)
        ensures
            flow == dispatch_of(
                old(self).spec_driver().spec_state(),
                old(self).spec_driver().spec_window(),
                old(self).spec_driver().spec_policy(),
                raw,
            ).flow,
            final(self).spec_driver().spec_state() == state_after(
                old(self).spec_driver().spec_state(),
                old(self).spec_driver().spec_window(),
                raw,
            ),
            final(self).spec_driver().spec_window() == old(self).spec_driver().spec_window(),
            final(self).spec_driver().spec_policy() == old(self).spec_driver().spec_policy(),
            final(self).spec_debug_callback() == old(self).spec_debug_callback(),
            final(self).spec_instance() == old(self).spec_instance(),
            final(self).spec_window() == old(self).spec_window(),
    {
        let mut driver = self.driver;
        let dispatch = driver.window_event(raw);
        self.driver = driver;
        dispatch.flow
    }
}

/// The one error that reaches the exit of the process: a failure of the
/// window or of the renderer, as a line of text.
#[derive(Debug, Clone, PartialEq, Eq)]
pub struct ApplicationError(pub String);

/// The exit code of a run that ended cleanly.
pub const EXIT_SUCCESS: i32 = 0;

/// The exit code of a run that failed.
pub const EXIT_FAILURE: i32 = 1;

impl ApplicationError {
    /// Wraps the failure of a window, with its text.
    pub fn from_window_error(error: &WindowError) -> (wrapped: ApplicationError)
        ensures
            wrapped.0@ == "Window creation error: "@ + error.spec_reason()@,
    {
        ApplicationError(error.to_string())
    }

    /// Wraps the failure of the renderer, with its text.
    pub fn from_renderer_error(error: &RendererError) -> (wrapped: ApplicationError)
        ensures
            wrapped.0@ == "SurfaceInitialization"@,
    {
        ApplicationError(error.to_string())
    }
}

/// The exit code of the process for the outcome of the run: zero after a
/// clean end of the loop, and not zero after a failure.
pub fn exit_code(outcome: &Result<(), ApplicationError>) -> (code: i32)
    ensures
        code == if outcome is Ok {
            EXIT_SUCCESS
        } else {
            EXIT_FAILURE
        },
{
    match outcome {
        Ok(_) => EXIT_SUCCESS,
        Err(_) => EXIT_FAILURE,
    }
}

} // verus!
