//! The decision-making core of a libadwaita windowing backend.
//!
//! Everything here works on plain values: the state of the event loop, the
//! settings that a window's attributes come to, what a display tells of its
//! monitors, and the choice of a raw display handle. Talking to the toolkit
//! itself is left to the caller, who feeds what the toolkit reported into
//! these functions and carries out what they return.

pub mod display;
pub mod error;
pub mod event_loop;
pub mod input;
pub mod output;
pub mod theme;
pub mod units;
pub mod window;

pub use display::{
    display_handle_from_gdk, NativeDisplay, OwnedDisplayHandle, RawDisplayHandle,
    WaylandDisplayHandle, XlibDisplayHandle,
};
pub use error::{EventLoopError, HandleError, NotSupportedError, OsError, RequestError};
pub use event_loop::{
    ActiveEventLoop, ControlFlow, CustomCursor, CustomCursorSource, DeviceEvents, EventLoop,
    LoopOp, LoopState, LoopStep, PlatformSpecificEventLoopAttributes,
};
pub use input::{DeviceId, FingerId};
pub use output::{MonitorHandle, NativeMonitor, Rectangle, VideoModeHandle};
pub use theme::{ColorScheme, Theme};
pub use units::{LogicalPosition, LogicalSize, PhysicalPosition, PhysicalSize, Position, Size};
pub use window::{
    Fullscreen, FullscreenRequest, PlatformSpecificWindowAttributes, Window, WindowAttributes,
    WindowId, WindowLevel, WindowSettings,
};
