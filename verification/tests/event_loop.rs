use std::time::{Duration, Instant};

use winit_adwaita::{
    ActiveEventLoop, ColorScheme, ControlFlow, CustomCursorSource, DeviceEvents, EventLoop,
    EventLoopError, LoopStep, MonitorHandle, NativeDisplay, NativeMonitor, OsError,
    PlatformSpecificEventLoopAttributes, Rectangle, RequestError, Theme,
};

fn wayland() -> NativeDisplay {
    NativeDisplay::Wayland { wl_display: Some(0x7f00_1000) }
}

fn started(display: NativeDisplay) -> EventLoop {
    EventLoop::new(&PlatformSpecificEventLoopAttributes::default(), Ok(()), Some(display))
        .expect("a started toolkit with a display makes a loop")
}

fn output(identity: usize, description: Option<&str>, x: i32, y: i32, scale: i32) -> NativeMonitor {
    NativeMonitor {
        identity,
        description: description.map(String::from),
        geometry: Rectangle { x, y, width: 1920, height: 1080 },
        scale_factor: scale,
    }
}

#[test]
fn new_loop_waits_by_default() {
    let event_loop = started(wayland());
    assert_eq!(event_loop.window_target().control_flow(), ControlFlow::default());
    assert_eq!(event_loop.window_target().control_flow(), ControlFlow::Wait);
    assert!(!event_loop.window_target().exiting());
}

#[test]
fn control_flow_stays_default_until_it_is_set() {
    let mut event_loop = started(wayland());
    event_loop.window_target().listen_device_events(DeviceEvents::Always);
    event_loop.window_target_mut().exit();
    let _ = event_loop.window_target().primary_monitor();
    assert_eq!(event_loop.window_target().control_flow(), ControlFlow::Wait);

    event_loop.window_target_mut().set_control_flow(ControlFlow::Poll);
    assert_eq!(event_loop.window_target().control_flow(), ControlFlow::Poll);
}

#[test]
fn set_control_flow_is_read_back() {
    let mut event_loop = started(wayland());
    let deadline = Instant::now() + Duration::from_millis(250);
    event_loop.window_target_mut().set_control_flow(ControlFlow::WaitUntil(deadline));
    assert_eq!(event_loop.window_target().control_flow(), ControlFlow::WaitUntil(deadline));
    event_loop.window_target_mut().set_control_flow(ControlFlow::Wait);
    assert_eq!(event_loop.window_target().control_flow(), ControlFlow::Wait);
    assert!(!event_loop.window_target().exiting());
}

#[test]
fn exit_twice_is_exit_once() {
    let mut event_loop = started(wayland());
    assert_eq!(event_loop.next_step(), LoopStep::Wait);

    event_loop.window_target_mut().exit();
    assert!(event_loop.window_target().exiting());
    assert_eq!(event_loop.next_step(), LoopStep::Exit(0));

    event_loop.window_target_mut().exit();
    assert!(event_loop.window_target().exiting());
    assert_eq!(event_loop.next_step(), LoopStep::Exit(0));
    assert_eq!(event_loop.window_target().control_flow(), ControlFlow::Wait);
}

#[test]
fn exit_is_not_taken_back_by_a_new_wait_policy() {
    let mut event_loop = started(wayland());
    event_loop.window_target_mut().exit();
    event_loop.window_target_mut().set_control_flow(ControlFlow::Poll);
    assert!(event_loop.window_target().exiting());
    assert_eq!(event_loop.next_step(), LoopStep::Exit(0));
}

#[test]
fn next_step_follows_the_wait_policy() {
    let mut event_loop = started(wayland());
    assert_eq!(event_loop.next_step(), LoopStep::Wait);

    event_loop.window_target_mut().set_control_flow(ControlFlow::Poll);
    assert_eq!(event_loop.next_step(), LoopStep::Poll);

    let deadline = Instant::now() + Duration::from_secs(2);
    event_loop.window_target_mut().set_control_flow(ControlFlow::WaitUntil(deadline));
    assert_eq!(event_loop.next_step(), LoopStep::WaitUntil(deadline));
}

#[test]
fn toolkit_that_did_not_start_is_an_os_error() {
    let result = EventLoop::new(
        &PlatformSpecificEventLoopAttributes,
        Err(String::from("no display server")),
        Some(wayland()),
    );
    match result {
        Err(EventLoopError::Os(error)) => {
            assert_eq!(error.message(), "failed to initialize `libadwaita`: no display server");
        },
        other => panic!("expected an OS error, got {:?}", other),
    }
}

#[test]
fn toolkit_that_did_not_start_wins_over_a_missing_display() {
    let result =
        EventLoop::new(&PlatformSpecificEventLoopAttributes, Err(String::new()), None);
    match result {
        Err(EventLoopError::Os(error)) => {
            assert_eq!(error.message(), "failed to initialize `libadwaita`: ");
        },
        other => panic!("expected an OS error, got {:?}", other),
    }
}

#[test]
fn missing_display_is_an_os_error() {
    let result = EventLoop::new(&PlatformSpecificEventLoopAttributes, Ok(()), None);
    match result {
        Err(EventLoopError::Os(error)) => {
            assert_eq!(error.message(), "failed to get default `libadwaita` Wayland display");
            assert_eq!(
                error,
                OsError::new(String::from("failed to get default `libadwaita` Wayland display"))
            );
        },
        other => panic!("expected an OS error, got {:?}", other),
    }
}

#[test]
fn available_monitors_lists_each_output_once_in_order() {
    let event_loop = started(wayland());
    let outputs = vec![
        output(0x10, Some("Built-in display"), 0, 0, 2),
        output(0x20, None, 1920, 0, 1),
        output(0x30, Some("Projector"), 3840, -200, 1),
    ];
    let monitors = event_loop.window_target().available_monitors(&outputs);
    assert_eq!(monitors.len(), 3);
    assert_eq!(monitors[0].name(), Some(String::from("Built-in display")));
    assert_eq!(monitors[1].name(), None);
    assert_eq!(monitors[2].name(), Some(String::from("Projector")));
    for (monitor, output) in monitors.iter().zip(outputs.iter()) {
        assert_eq!(monitor, &MonitorHandle::new(output.clone()));
        assert_eq!(monitor.scale_factor(), output.scale_factor);
    }
}

#[test]
fn available_monitors_is_stable_across_two_calls() {
    let mut event_loop = started(wayland());
    let outputs = vec![output(1, Some("left"), 0, 0, 1), output(2, Some("right"), 1920, 0, 1)];
    let first = event_loop.window_target().available_monitors(&outputs);
    event_loop.window_target_mut().set_control_flow(ControlFlow::Poll);
    let second = event_loop.window_target().available_monitors(&outputs);
    assert_eq!(first.len(), outputs.len());
    assert_eq!(first, second);
    let names: Vec<Option<String>> = first.iter().map(|monitor| monitor.name()).collect();
    let again: Vec<Option<String>> = second.iter().map(|monitor| monitor.name()).collect();
    assert_eq!(names, again);
}

#[test]
fn available_monitors_of_no_outputs_is_empty() {
    let event_loop = started(wayland());
    assert!(event_loop.window_target().available_monitors(&Vec::new()).is_empty());
}

#[test]
fn primary_monitor_is_none() {
    let event_loop = started(wayland());
    assert_eq!(event_loop.window_target().primary_monitor(), None);
}

#[test]
fn listen_device_events_changes_nothing() {
    let event_loop = started(wayland());
    let target: &ActiveEventLoop = event_loop.window_target();
    target.listen_device_events(DeviceEvents::Never);
    target.listen_device_events(DeviceEvents::WhenFocused);
    assert_eq!(target.control_flow(), ControlFlow::Wait);
    assert!(!target.exiting());
}

#[test]
fn system_theme_maps_each_colour_scheme() {
    let event_loop = started(wayland());
    let target = event_loop.window_target();
    assert_eq!(target.system_theme(ColorScheme::Default), None);
    assert_eq!(target.system_theme(ColorScheme::PreferLight), Some(Theme::Light));
    assert_eq!(target.system_theme(ColorScheme::ForceLight), Some(Theme::Light));
    assert_eq!(target.system_theme(ColorScheme::PreferDark), Some(Theme::Dark));
    assert_eq!(target.system_theme(ColorScheme::ForceDark), Some(Theme::Dark));
    assert_eq!(target.system_theme(ColorScheme::Unknown), None);
}

#[test]
fn a_preferred_theme_reads_back_as_itself() {
    assert_eq!(Theme::Light.color_scheme(), ColorScheme::PreferLight);
    assert_eq!(Theme::Dark.color_scheme(), ColorScheme::PreferDark);
    assert_eq!(Theme::Light.color_scheme().theme(), Some(Theme::Light));
    assert_eq!(Theme::Dark.color_scheme().theme(), Some(Theme::Dark));
}

#[test]
fn create_custom_cursor_is_not_supported() {
    let event_loop = started(wayland());
    let source = CustomCursorSource {
        rgba: vec![0xff; 4 * 2 * 2],
        width: 2,
        height: 2,
        hotspot_x: 0,
        hotspot_y: 1,
    };
    match event_loop.window_target().create_custom_cursor(source) {
        Err(RequestError::NotSupported(error)) => {
            assert_eq!(error.reason(), "create_custom_cursor is not implemented");
        },
        other => panic!("expected a refusal, got {:?}", other),
    }
}
