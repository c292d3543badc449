use winit_adwaita::{
    display_handle_from_gdk, EventLoop, FingerId, HandleError, MonitorHandle, NativeDisplay,
    NativeMonitor, OwnedDisplayHandle, PhysicalPosition, PhysicalSize,
    PlatformSpecificEventLoopAttributes, RawDisplayHandle, Rectangle, VideoModeHandle,
    WaylandDisplayHandle, XlibDisplayHandle,
};

fn output(identity: usize, x: i32, y: i32, scale_factor: i32) -> NativeMonitor {
    NativeMonitor {
        identity,
        description: Some(String::from("Panel")),
        geometry: Rectangle { x, y, width: 1280, height: 800 },
        scale_factor,
    }
}

fn started(display: NativeDisplay) -> EventLoop {
    EventLoop::new(&PlatformSpecificEventLoopAttributes, Ok(()), Some(display))
        .expect("a started toolkit with a display makes a loop")
}

#[test]
fn compositor_display_gives_a_compositor_handle() {
    let display = NativeDisplay::Wayland { wl_display: Some(0x7f12_3400) };
    let handle = display_handle_from_gdk(&display);
    assert_eq!(
        handle,
        Ok(RawDisplayHandle::Wayland(WaylandDisplayHandle { display: 0x7f12_3400 }))
    );
    match handle {
        Ok(RawDisplayHandle::Wayland(wayland)) => assert_ne!(wayland.display, 0),
        other => panic!("expected a compositor handle, got {:?}", other),
    }
}

#[test]
fn compositor_display_without_connection_is_unavailable() {
    let display = NativeDisplay::Wayland { wl_display: None };
    assert_eq!(display_handle_from_gdk(&display), Err(HandleError::Unavailable));
}

#[test]
fn x_display_gives_its_own_screen_number() {
    for screen in [0, 1, 7, -1, i32::MAX] {
        let display = NativeDisplay::X11 { xdisplay: 0x55aa_0000, screen };
        assert_eq!(
            display_handle_from_gdk(&display),
            Ok(RawDisplayHandle::Xlib(XlibDisplayHandle { display: Some(0x55aa_0000), screen }))
        );
    }
}

#[test]
fn x_display_without_connection_has_no_pointer() {
    let display = NativeDisplay::X11 { xdisplay: 0, screen: 2 };
    assert_eq!(
        display_handle_from_gdk(&display),
        Ok(RawDisplayHandle::Xlib(XlibDisplayHandle { display: None, screen: 2 }))
    );
}

#[test]
fn loop_and_owned_handle_agree_with_the_display() {
    let display = NativeDisplay::X11 { xdisplay: 0x1000, screen: 3 };
    let event_loop = started(display);
    let owned = event_loop.window_target().owned_display_handle();
    assert_eq!(owned, OwnedDisplayHandle::new(display));
    assert_eq!(event_loop.window_target().display_handle(), display_handle_from_gdk(&display));
    assert_eq!(owned.display_handle(), display_handle_from_gdk(&display));

    let wayland = NativeDisplay::Wayland { wl_display: None };
    let event_loop = started(wayland);
    assert_eq!(event_loop.window_target().display_handle(), Err(HandleError::Unavailable));
    assert_eq!(
        event_loop.window_target().owned_display_handle().display_handle(),
        Err(HandleError::Unavailable)
    );
}

#[test]
fn monitor_position_is_geometry_times_scale() {
    let monitor = MonitorHandle::new(output(1, 1920, -540, 2));
    assert_eq!(monitor.position(), Some(PhysicalPosition { x: 3840, y: -1080 }));
    let origin = MonitorHandle::new(output(2, 0, 0, 3));
    assert_eq!(origin.position(), Some(PhysicalPosition { x: 0, y: 0 }));
    let plain = MonitorHandle::new(output(3, 17, 19, 1));
    assert_eq!(plain.position(), Some(PhysicalPosition { x: 17, y: 19 }));
}

#[test]
fn monitor_tells_its_name_and_scale() {
    let monitor = MonitorHandle::new(output(1, 0, 0, 2));
    assert_eq!(monitor.name(), Some(String::from("Panel")));
    assert_eq!(monitor.scale_factor(), 2);
    let mut nameless = output(2, 0, 0, 1);
    nameless.description = None;
    assert_eq!(MonitorHandle::new(nameless).name(), None);
}

#[test]
fn monitor_has_no_video_modes() {
    let monitor = MonitorHandle::new(output(1, 0, 0, 1));
    assert_eq!(monitor.current_video_mode(), None);
    assert!(monitor.video_modes().is_empty());
}

#[test]
fn monitors_are_compared_by_identity() {
    let first = MonitorHandle::new(output(0x100, 0, 0, 1));
    let moved = MonitorHandle::new(output(0x100, 640, 480, 2));
    let second = MonitorHandle::new(output(0x200, 0, 0, 1));
    assert_eq!(first, moved);
    assert_ne!(first, second);
    assert!(first < second);
    assert!(second > moved);
    assert!(first <= moved && first >= moved);
    assert_eq!(first.partial_cmp(&second), Some(std::cmp::Ordering::Less));
    assert_eq!(first.partial_cmp(&moved), Some(std::cmp::Ordering::Equal));
    assert_eq!(second.partial_cmp(&first), Some(std::cmp::Ordering::Greater));
    assert_eq!(first.clone(), first);
}

#[test]
fn video_mode_hands_back_what_it_was_made_of() {
    let monitor = MonitorHandle::new(output(9, 0, 0, 1));
    let mode =
        VideoModeHandle::new(monitor.clone(), PhysicalSize { width: 1920, height: 1080 }, 59_940);
    assert_eq!(mode.size(), PhysicalSize { width: 1920, height: 1080 });
    assert_eq!(mode.refresh_rate_millihertz(), Some(59_940));
    assert_eq!(mode.bit_depth(), None);
    assert_eq!(mode.monitor(), monitor);
    assert_eq!(mode.monitor().name(), Some(String::from("Panel")));
    assert_eq!(mode.clone(), mode);
}

#[test]
fn video_mode_with_zero_refresh_rate_has_none() {
    let monitor = MonitorHandle::new(output(9, 0, 0, 1));
    let mode = VideoModeHandle::new(monitor, PhysicalSize { width: 800, height: 600 }, 0);
    assert_eq!(mode.refresh_rate_millihertz(), None);
}

#[test]
fn dummy_finger_is_always_the_same() {
    assert_eq!(FingerId::dummy(), FingerId::dummy());
}

#[test]
fn position_fits_tells_when_the_place_can_be_written() {
    assert!(MonitorHandle::new(output(1, 1920, -540, 2)).position_fits());
    assert!(MonitorHandle::new(output(2, i32::MAX, i32::MIN, 1)).position_fits());
    assert!(MonitorHandle::new(output(3, 1, 1, i32::MAX)).position_fits());
    assert!(!MonitorHandle::new(output(4, i32::MAX, 0, 2)).position_fits());
    assert!(!MonitorHandle::new(output(5, 0, i32::MIN, -1)).position_fits());
    assert!(!MonitorHandle::new(output(6, 65_536, 0, 32_768)).position_fits());
    assert_eq!(
        MonitorHandle::new(output(7, i32::MAX, i32::MIN, 1)).position(),
        Some(PhysicalPosition { x: i32::MAX, y: i32::MIN })
    );
}

#[test]
fn native_id_is_the_identity_of_the_output() {
    assert_eq!(MonitorHandle::new(output(0xabc0, 0, 0, 1)).native_id(), 0xabc0);
}
