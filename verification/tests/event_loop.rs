use blackbird::event_loop::{
    ControlFlow, Dispatch, Event, EventLoopDriver, EventLoopError, LoopState, RawEvent,
    ResumeAction, WaitPolicy,
};

fn running(policy: WaitPolicy, window: u64) -> EventLoopDriver {
    let mut driver = EventLoopDriver::new(policy);
    assert_eq!(driver.resumed(), Ok(ResumeAction::CreateWindow));
    assert_eq!(driver.bind_window(window), Ok(()));
    driver
}

#[test]
fn policy_flow() {
    assert_eq!(WaitPolicy::Wait.flow(), ControlFlow::Wait);
    assert_eq!(WaitPolicy::Poll.flow(), ControlFlow::Poll);
}

#[test]
fn new_driver_has_no_window() {
    let driver = EventLoopDriver::new(WaitPolicy::Poll);
    assert_eq!(driver.state(), LoopState::Created);
    assert_eq!(driver.window(), None);
    assert_eq!(driver.policy(), WaitPolicy::Poll);
}

#[test]
fn binding_a_window_resumes_the_loop() {
    let mut driver = EventLoopDriver::new(WaitPolicy::Wait);
    assert_eq!(driver.bind_window(3), Ok(()));
    assert_eq!(driver.state(), LoopState::Resumed);
    assert_eq!(driver.window(), Some(3));
}

#[test]
fn second_window_is_refused() {
    let mut driver = running(WaitPolicy::Wait, 3);
    let before = driver;
    assert_eq!(driver.bind_window(4), Err(EventLoopError {}));
    assert_eq!(driver, before);
    assert_eq!(driver.window(), Some(3));
}

#[test]
fn second_resume_reports_the_bound_window() {
    let mut driver = running(WaitPolicy::Wait, 3);
    driver.window_event(RawEvent::Other);
    assert_eq!(driver.state(), LoopState::Running);
    assert_eq!(driver.resumed(), Ok(ResumeAction::AlreadyBound(3)));
    assert_eq!(driver.state(), LoopState::Resumed);
    assert_eq!(driver.window(), Some(3));
}

#[test]
fn close_request_for_the_bound_window_requests_exit() {
    let mut driver = running(WaitPolicy::Wait, 3);
    let dispatch = driver.window_event(RawEvent::CloseRequested { window: 3 });
    assert_eq!(
        dispatch,
        Dispatch { event: Some(Event::CloseRequested), flow: ControlFlow::Exit, rearm: false }
    );
    assert_eq!(driver.state(), LoopState::ExitRequested);
    for raw in [
        RawEvent::RedrawRequested,
        RawEvent::Other,
        RawEvent::CloseRequested { window: 3 },
        RawEvent::CloseRequested { window: 4 },
    ] {
        assert_eq!(
            driver.window_event(raw),
            Dispatch { event: None, flow: ControlFlow::Exit, rearm: false }
        );
        assert_eq!(driver.state(), LoopState::ExitRequested);
    }
}

#[test]
fn close_request_for_another_window_is_ignored() {
    let mut driver = running(WaitPolicy::Wait, 3);
    let dispatch = driver.window_event(RawEvent::CloseRequested { window: 4 });
    assert_eq!(
        dispatch,
        Dispatch { event: None, flow: ControlFlow::Wait, rearm: false }
    );
    assert_eq!(driver.state(), LoopState::Running);
    let dispatch = driver.window_event(RawEvent::RedrawRequested);
    assert_eq!(dispatch.event, Some(Event::RedrawRequested));
}

#[test]
fn redraw_is_forwarded_and_rearmed_when_polling() {
    let mut driver = running(WaitPolicy::Poll, 3);
    assert_eq!(
        driver.window_event(RawEvent::RedrawRequested),
        Dispatch { event: Some(Event::RedrawRequested), flow: ControlFlow::Poll, rearm: true }
    );
    let mut driver = running(WaitPolicy::Wait, 3);
    assert_eq!(
        driver.window_event(RawEvent::RedrawRequested),
        Dispatch { event: Some(Event::RedrawRequested), flow: ControlFlow::Wait, rearm: false }
    );
}

#[test]
fn other_events_are_dropped() {
    let mut driver = running(WaitPolicy::Poll, 3);
    assert_eq!(
        driver.window_event(RawEvent::Other),
        Dispatch { event: None, flow: ControlFlow::Poll, rearm: false }
    );
    assert_eq!(driver.state(), LoopState::Running);
}

#[test]
fn events_before_a_window_are_dropped() {
    let mut driver = EventLoopDriver::new(WaitPolicy::Wait);
    for raw in [
        RawEvent::RedrawRequested,
        RawEvent::Other,
        RawEvent::CloseRequested { window: 0 },
    ] {
        assert_eq!(
            driver.window_event(raw),
            Dispatch { event: None, flow: ControlFlow::Wait, rearm: false }
        );
        assert_eq!(driver.state(), LoopState::Created);
    }
}

#[test]
fn finish_ends_the_loop_after_an_exit_request() {
    let mut driver = running(WaitPolicy::Wait, 3);
    assert_eq!(driver.finish(), Err(EventLoopError {}));
    assert_eq!(driver.state(), LoopState::Resumed);
    driver.window_event(RawEvent::CloseRequested { window: 3 });
    assert_eq!(driver.finish(), Ok(Event::Exit));
    assert_eq!(driver.state(), LoopState::Terminated);
    assert_eq!(driver.finish(), Err(EventLoopError {}));
    assert_eq!(driver.resumed(), Err(EventLoopError {}));
    assert_eq!(driver.bind_window(9), Err(EventLoopError {}));
    assert_eq!(
        driver.window_event(RawEvent::RedrawRequested),
        Dispatch { event: None, flow: ControlFlow::Exit, rearm: false }
    );
    assert_eq!(driver.state(), LoopState::Terminated);
}
