use blackbird::application::{
    check_validation_layer_support, create_instance, exit_code, get_required_extensions,
    setup_debug_callback, stages, validation_layers, Application, ApplicationError,
    DebugCallbackPlan, ShellConfig, Stage, Version,
};
use blackbird::platform::windows::WindowError;
use blackbird::renderer::RendererError;
use blackbird::event_loop::{ControlFlow, LoopState, RawEvent, WaitPolicy};

fn names(list: &[&str]) -> Vec<String> {
    list.iter().map(|s| s.to_string()).collect()
}

#[test]
fn the_validation_layer() {
    assert_eq!(validation_layers(), names(&["VK_LAYER_LUNARG_standard_validation"]));
}

#[test]
fn layer_support() {
    assert!(!check_validation_layer_support(&Vec::new()));
    assert!(!check_validation_layer_support(&names(&["VK_LAYER_KHRONOS_validation"])));
    assert!(check_validation_layer_support(&names(&[
        "VK_LAYER_KHRONOS_validation",
        "VK_LAYER_LUNARG_standard_validation",
    ])));
    assert!(!check_validation_layer_support(&names(&[
        "VK_LAYER_LUNARG_standard_validation ",
    ])));
}

#[test]
fn required_extensions() {
    let window = names(&["VK_KHR_surface", "VK_KHR_win32_surface"]);
    assert_eq!(get_required_extensions(window.clone(), false), window);
    assert_eq!(
        get_required_extensions(window.clone(), true),
        names(&["VK_KHR_surface", "VK_KHR_win32_surface", "VK_EXT_debug_utils"])
    );
    let with = names(&["VK_EXT_debug_utils", "VK_KHR_surface"]);
    assert_eq!(get_required_extensions(with.clone(), true), with);
    assert_eq!(get_required_extensions(Vec::new(), true), names(&["VK_EXT_debug_utils"]));
    assert_eq!(get_required_extensions(Vec::new(), false), Vec::<String>::new());
}

#[test]
fn instance_plan_with_validation() {
    let available = names(&["VK_LAYER_LUNARG_standard_validation"]);
    let plan = create_instance(true, &available, names(&["VK_KHR_surface"]));
    assert_eq!(plan.application_name, "My Application");
    assert_eq!(plan.application_version, Version { major: 1, minor: 0, patch: 0 });
    assert_eq!(plan.engine_name, "Blackbird");
    assert_eq!(plan.engine_version, Version { major: 1, minor: 0, patch: 0 });
    assert_eq!(plan.extensions, names(&["VK_KHR_surface", "VK_EXT_debug_utils"]));
    assert_eq!(plan.layers, names(&["VK_LAYER_LUNARG_standard_validation"]));
}

#[test]
fn instance_plan_without_layers() {
    let available = names(&["VK_LAYER_LUNARG_standard_validation"]);
    let plan = create_instance(false, &available, names(&["VK_KHR_surface"]));
    assert_eq!(plan.extensions, names(&["VK_KHR_surface"]));
    assert!(plan.layers.is_empty());
    let plan = create_instance(true, &Vec::new(), Vec::new());
    assert_eq!(plan.extensions, names(&["VK_EXT_debug_utils"]));
    assert!(plan.layers.is_empty());
}

#[test]
fn debug_callback_plan() {
    assert_eq!(setup_debug_callback(false), None);
    assert_eq!(
        setup_debug_callback(true),
        Some(DebugCallbackPlan {
            error: true,
            warning: true,
            information: false,
            verbose: false,
            general: true,
            validation: true,
            performance: true,
        })
    );
}

#[test]
fn stage_order() {
    assert_eq!(
        stages(ShellConfig { debug_callback: false, surface: false }),
        vec![Stage::Instance, Stage::Window, Stage::Dispatch]
    );
    assert_eq!(
        stages(ShellConfig { debug_callback: true, surface: false }),
        vec![Stage::Instance, Stage::DebugCallback, Stage::Window, Stage::Dispatch]
    );
    assert_eq!(
        stages(ShellConfig { debug_callback: false, surface: true }),
        vec![Stage::Instance, Stage::Window, Stage::Surface, Stage::Adapter, Stage::Dispatch]
    );
    assert_eq!(
        stages(ShellConfig { debug_callback: true, surface: true }),
        vec![
            Stage::Instance,
            Stage::DebugCallback,
            Stage::Window,
            Stage::Surface,
            Stage::Adapter,
            Stage::Dispatch,
        ]
    );
}

#[test]
fn application_holds_its_parts() {
    let app: Application<&str, u8, char> = Application::initialize(Some("callback"), 1, 'w', 77);
    assert_eq!(app.debug_callback(), Some(&"callback"));
    assert_eq!(*app.instance(), 1);
    assert_eq!(*app.window(), 'w');
    assert_eq!(app.driver().state(), LoopState::Resumed);
    assert_eq!(app.driver().window(), Some(77));
    assert_eq!(app.driver().policy(), WaitPolicy::Wait);
    let app: Application<&str, u8, char> = Application::initialize(None, 1, 'w', 77);
    assert_eq!(app.debug_callback(), None);
}

#[test]
fn main_loop_waits_until_its_window_is_closed() {
    let mut app: Application<(), (), ()> = Application::initialize(None, (), (), 77);
    assert_eq!(app.main_loop(RawEvent::Other), ControlFlow::Wait);
    assert_eq!(app.main_loop(RawEvent::RedrawRequested), ControlFlow::Wait);
    assert_eq!(app.main_loop(RawEvent::CloseRequested { window: 78 }), ControlFlow::Wait);
    assert_eq!(app.driver().state(), LoopState::Running);
    assert_eq!(app.main_loop(RawEvent::CloseRequested { window: 77 }), ControlFlow::Exit);
    assert_eq!(app.driver().state(), LoopState::ExitRequested);
    assert_eq!(app.main_loop(RawEvent::Other), ControlFlow::Exit);
}

#[test]
fn errors_are_wrapped_with_their_text() {
    let error = WindowError::CreationError("Null window handle");
    assert_eq!(
        ApplicationError::from_window_error(&error),
        ApplicationError(String::from("Window creation error: Null window handle"))
    );
    assert_eq!(
        ApplicationError::from_renderer_error(&RendererError::SurfaceInitialization),
        ApplicationError(String::from("SurfaceInitialization"))
    );
}

#[test]
fn exit_codes() {
    assert_eq!(exit_code(&Ok(())), 0);
    assert_eq!(exit_code(&Err(ApplicationError(String::from("x")))), 1);
    assert_eq!(exit_code(&Err(ApplicationError(String::new()))), 1);
}
