use blackbird::platform::windows::class::{
    class_name, create_request, register_window_class, CLASS_STYLE, USE_DEFAULT, WINDOW_STYLE,
};
use blackbird::platform::windows::message::{CREATE, DESTROY, NCCREATE, PAINT};
use blackbird::platform::windows::pump::{Fetched, Pumped, FAILURE, MESSAGE, QUIT};
use blackbird::platform::windows::router::{public_window_callback, WindowTable};
use blackbird::platform::windows::wide::encode_wide;
use blackbird::platform::windows::{
    create_window, InitData, Win32Handle, Window, WindowError, WindowOptions,
};

fn bound_initdata(handle: isize) -> InitData {
    let mut table = WindowTable::new();
    let mut initdata = InitData::new();
    public_window_callback(&mut table, &mut initdata, handle, NCCREATE);
    initdata
}

#[test]
fn default_options() {
    let options = WindowOptions::default();
    assert_eq!(options.name, "My Application");
    assert_eq!(options.initial_size, None);
}

#[test]
fn failed_class_registration_yields_no_window() {
    let result = Window::create(0, 42, bound_initdata(42));
    assert_eq!(
        result,
        Err(WindowError::CreationError("Window class registration failed"))
    );
    let result = create_window(0, 0, InitData::new());
    assert_eq!(
        result,
        Err(WindowError::CreationError("Window class registration failed"))
    );
}

#[test]
fn null_handle_yields_no_window() {
    let result = Window::create(0xC001, 0, bound_initdata(42));
    assert_eq!(result, Err(WindowError::CreationError("Null window handle")));
}

#[test]
fn unbound_creation_yields_no_window() {
    let result = Window::create(0xC001, 42, InitData::new());
    assert_eq!(result, Err(WindowError::CreationError("Window data not bound")));
}

#[test]
fn creation_returns_the_recorded_window() {
    let window = Window::create(0xC001, 42, bound_initdata(42)).unwrap();
    assert_eq!(window.handle(), 42);
    assert_eq!(Some(window), Window::from_handle(42));
}

#[test]
fn creation_refused_by_the_router_leaves_the_slot_empty() {
    let mut table = WindowTable::new();
    let mut initdata = InitData::new();
    public_window_callback(&mut table, &mut initdata, 42, CREATE);
    assert!(Window::create(0xC001, 0, initdata).is_err());
}

#[test]
fn window_of_null_handle_does_not_exist() {
    assert_eq!(Window::from_handle(0), None);
    assert_eq!(Window::from_handle(-1).map(|w| w.handle()), Some(-1));
}

#[test]
fn handle_create_fills_the_slot() {
    let mut initdata = InitData::new();
    assert_eq!(initdata.window(), None);
    assert!(initdata.handle_create(0).is_none());
    assert_eq!(initdata.window(), None);
    assert!(initdata.handle_create(5).is_some());
    assert_eq!(initdata.window(), Window::from_handle(5));
    assert!(initdata.handle_create(0).is_none());
    assert_eq!(initdata.window(), Window::from_handle(5));
}

#[test]
fn error_text() {
    let error = WindowError::CreationError("Null window handle");
    assert_eq!(error.reason(), "Null window handle");
    assert_eq!(error.to_string(), "Window creation error: Null window handle");
}

#[test]
fn window_handle_for_the_backend() {
    let window = Window::from_handle(42).unwrap();
    assert_eq!(
        window.window_handle(7),
        Win32Handle { hwnd: 42, hinstance: Some(7) }
    );
    assert_eq!(
        window.window_handle(0),
        Win32Handle { hwnd: 42, hinstance: None }
    );
}

#[test]
fn wide_strings_end_with_zero() {
    assert_eq!(encode_wide(""), vec![0]);
    assert_eq!(encode_wide("Ab"), vec![0x41, 0x62, 0]);
    assert_eq!(encode_wide("é€"), vec![0x00E9, 0x20AC, 0]);
}

#[test]
fn wide_strings_use_surrogate_pairs() {
    assert_eq!(encode_wide("\u{10000}"), vec![0xD800, 0xDC00, 0]);
    assert_eq!(encode_wide("\u{1F600}"), vec![0xD83D, 0xDE00, 0]);
    assert_eq!(encode_wide("\u{10FFFF}"), vec![0xDBFF, 0xDFFF, 0]);
    assert_eq!(encode_wide("\u{FFFF}"), vec![0xFFFF, 0]);
}

#[test]
fn wide_strings_agree_with_std() {
    for text in ["My Application", "Blackbird window", "naïve ☃ \u{1F980} x"] {
        let mut expected: Vec<u16> = text.encode_utf16().collect();
        expected.push(0);
        assert_eq!(encode_wide(text), expected);
    }
}

#[test]
fn window_class_description() {
    let name = encode_wide(class_name());
    let class = register_window_class(&name);
    assert_eq!(class.class_name, name);
    assert_eq!(class.style, 3);
    assert_eq!(CLASS_STYLE, 3);
    assert_eq!(class.class_extra, 0);
    assert_eq!(class.window_extra, 0);
}

#[test]
fn creation_request_for_default_options() {
    let request = create_request(&WindowOptions::default());
    assert_eq!(request.class_name, encode_wide("Blackbird window"));
    assert_eq!(request.title, encode_wide("My Application"));
    assert_eq!(request.style, 0x10CF_0000);
    assert_eq!(WINDOW_STYLE, 0x10CF_0000);
    assert_eq!(request.ex_style, 0);
    assert_eq!(USE_DEFAULT, i32::MIN);
    assert_eq!(request.x, i32::MIN);
    assert_eq!(request.y, i32::MIN);
    assert_eq!(request.width, i32::MIN);
    assert_eq!(request.height, i32::MIN);
}

#[test]
fn creation_request_with_size() {
    let options = WindowOptions { name: String::from("T"), initial_size: Some((800, 600)) };
    let request = create_request(&options);
    assert_eq!(request.title, vec![0x54, 0]);
    assert_eq!((request.width, request.height), (800, 600));
    assert_eq!((request.x, request.y), (i32::MIN, i32::MIN));
    let options = WindowOptions { name: String::new(), initial_size: Some((u32::MAX, 0x8000_0000)) };
    let request = create_request(&options);
    assert_eq!((request.width, request.height), (i32::MAX, i32::MAX));
    let options = WindowOptions { name: String::new(), initial_size: Some((0x7FFF_FFFF, 0)) };
    let request = create_request(&options);
    assert_eq!((request.width, request.height), (i32::MAX, 0));
}

#[test]
fn pump_step_by_status() {
    let window = Window::from_handle(42).unwrap();
    assert_eq!((QUIT, FAILURE, MESSAGE), (0, -1, 1));
    assert_eq!(window.pump(0), Some(Ok(())));
    assert_eq!(
        window.pump(-1),
        Some(Err(WindowError::CreationError("Window error")))
    );
    assert_eq!(window.pump(1), None);
    assert_eq!(window.pump(-2), None);
    assert_eq!(window.pump(i32::MAX), None);
}

#[test]
fn destroy_ends_the_pump_at_the_next_fetch() {
    let window = Window::from_handle(42).unwrap();
    let mut table = WindowTable::new();
    let mut initdata = InitData::new();
    let queue = vec![
        Fetched::Message { window: 42, id: NCCREATE },
        Fetched::Message { window: 42, id: PAINT },
        Fetched::Message { window: 42, id: DESTROY },
        Fetched::Message { window: 42, id: PAINT },
        Fetched::Failure,
    ];
    let pumped = window.run(&mut table, &mut initdata, &queue);
    assert_eq!(pumped, Pumped { outcome: Some(Ok(())), dispatched: 3 });
    assert!(table.is_bound(42));
}

#[test]
fn destroy_of_an_unbound_window_does_not_end_the_pump() {
    let window = Window::from_handle(42).unwrap();
    let mut table = WindowTable::new();
    let mut initdata = InitData::new();
    let queue = vec![
        Fetched::Message { window: 42, id: DESTROY },
        Fetched::Message { window: 42, id: PAINT },
    ];
    let pumped = window.run(&mut table, &mut initdata, &queue);
    assert_eq!(pumped, Pumped { outcome: None, dispatched: 2 });
    assert_eq!(table.len(), 0);
}

#[test]
fn failed_fetch_ends_the_pump_with_an_error() {
    let window = Window::from_handle(42).unwrap();
    let mut table = WindowTable::new();
    let mut initdata = InitData::new();
    let queue = vec![
        Fetched::Message { window: 42, id: NCCREATE },
        Fetched::Failure,
        Fetched::Message { window: 42, id: DESTROY },
    ];
    let pumped = window.run(&mut table, &mut initdata, &queue);
    assert_eq!(
        pumped,
        Pumped {
            outcome: Some(Err(WindowError::CreationError("Window error"))),
            dispatched: 1
        }
    );
}

#[test]
fn empty_queue_leaves_the_pump_waiting() {
    let window = Window::from_handle(42).unwrap();
    let mut table = WindowTable::new();
    let mut initdata = InitData::new();
    let pumped = window.run(&mut table, &mut initdata, &Vec::new());
    assert_eq!(pumped, Pumped { outcome: None, dispatched: 0 });
}

#[test]
fn destroy_as_last_message_still_ends_the_pump() {
    let window = Window::from_handle(42).unwrap();
    let mut table = WindowTable::new();
    let mut initdata = InitData::new();
    let queue = vec![
        Fetched::Message { window: 42, id: NCCREATE },
        Fetched::Message { window: 42, id: DESTROY },
    ];
    let pumped = window.run(&mut table, &mut initdata, &queue);
    assert_eq!(pumped, Pumped { outcome: Some(Ok(())), dispatched: 2 });
}
