//! Windows: what an application asks for, and what the toolkit is told.

use crate::error::{NotSupportedError, OsError, RequestError};
use crate::output::{MonitorHandle, VideoModeHandle};
use crate::theme::{preferred_scheme, ColorScheme, Theme};
use crate::units::{LogicalSize, PhysicalPosition, Position, Size};
use vstd::prelude::*;

verus! {

/// Identifies a window for as long as it lives.
///
/// The number is a key to compare and to hash. It is taken from where the
/// toolkit keeps the window, and is good for nothing else.
#[derive(Clone, Copy, Debug, PartialEq, Eq, Structural, Hash)]
pub struct WindowId(usize);

impl View for WindowId {
    type V = usize;

    /// The number behind the identifier.
    closed spec fn view(&self) -> usize {
        self.0
    }
}

impl WindowId {
    /// The identifier that stands for `raw`.
    pub fn from_raw(raw: usize) -> (id: WindowId)
        ensures
            id@ == raw,
    {
        WindowId(raw)
    }

    /// The number behind the identifier.
    pub fn into_raw(self) -> (raw: usize)
        ensures
            raw == self@,
    {
        self.0
    }
}

/// Window attributes that only this backend has. There are none.
#[derive(Clone, Copy, Debug, PartialEq, Eq, Structural, Hash)]
pub struct PlatformSpecificWindowAttributes;

impl Default for PlatformSpecificWindowAttributes {
    fn default() -> (attributes: PlatformSpecificWindowAttributes)
        ensures
            attributes == PlatformSpecificWindowAttributes,
    {
        PlatformSpecificWindowAttributes
    }
}

/// Where a window stands among the other windows of the desktop.
#[derive(Clone, Copy, Debug, PartialEq, Eq, Structural, Hash)]
pub enum WindowLevel {
    AlwaysOnBottom,
    Normal,
    AlwaysOnTop,
}

/// How a window is to fill a screen.
#[derive(Clone, Debug, PartialEq, Eq)]
pub enum Fullscreen {
    /// Switch the monitor to a video mode and take it over.
    Exclusive(VideoModeHandle),
    /// Cover a monitor without borders: the given one, or the one that the
    /// window is on.
    Borderless(Option<MonitorHandle>),
}

/// What an application asks of a new window.
#[derive(Clone, Debug, PartialEq, Eq)]
pub struct WindowAttributes {
    pub surface_size: Option<Size>,
    pub min_surface_size: Option<Size>,
    pub max_surface_size: Option<Size>,
    pub surface_resize_increments: Option<Size>,
    pub position: Option<Position>,
    pub resizable: bool,
    pub title: String,
    pub maximized: bool,
    pub visible: bool,
    pub transparent: bool,
    pub blur: bool,
    pub decorations: bool,
    pub preferred_theme: Option<Theme>,
    pub content_protected: bool,
    pub window_level: WindowLevel,
    pub active: bool,
    pub parent_window: Option<WindowId>,
    pub fullscreen: Option<Fullscreen>,
    pub platform_specific: PlatformSpecificWindowAttributes,
}

/// What the toolkit is asked to do about filling a screen.
#[derive(Clone, Debug, PartialEq, Eq)]
pub enum FullscreenRequest {
    /// Nothing: the window stays a window.
    Windowed,
    /// Cover the monitor that the window is on.
    CurrentMonitor,
    /// Cover the given monitor.
    OnMonitor(MonitorHandle),
}

/// What the toolkit is told when it sets up a window.
#[derive(Clone, Debug, PartialEq, Eq)]
pub struct WindowSettings {
    /// Whether F10 opens a menu bar. There is no menu bar to open.
    pub handle_menubar_accel: bool,
    pub resizable: bool,
    pub title: String,
    pub maximized: bool,
    pub visible: bool,
    pub decorated: bool,
    /// The size that the window starts with, if one was asked for.
    pub default_size: Option<LogicalSize>,
    /// The size below which the window does not shrink, if one was asked for.
    pub size_request: Option<LogicalSize>,
    /// The colour scheme to set, if a theme was asked for. The toolkit has
    /// one scheme for all its windows, so this changes them all.
    pub color_scheme: Option<ColorScheme>,
    pub fullscreen: FullscreenRequest,
}

/// A size as the toolkit takes it, if there is one to take.
pub open spec fn initial_logical_size(size: Option<Size>) -> Option<LogicalSize> {
    match size {
        Some(size) => Some(size.logical_at_unit_scale()),
        None => None,
    }
}

/// The colour scheme that states a preferred theme, if there is one to state.
pub open spec fn scheme_request(theme: Option<Theme>) -> Option<ColorScheme> {
    match theme {
        Some(theme) => Some(preferred_scheme(theme)),
        None => None,
    }
}

/// What the toolkit can do of what was asked about filling a screen.
/// Taking over a monitor in a video mode of its own is more than it can do,
/// and is passed over.
pub open spec fn fullscreen_request(fullscreen: Option<Fullscreen>) -> FullscreenRequest {
    match fullscreen {
        Some(Fullscreen::Borderless(Some(monitor))) => FullscreenRequest::OnMonitor(monitor),
        Some(Fullscreen::Borderless(None)) => FullscreenRequest::CurrentMonitor,
        Some(Fullscreen::Exclusive(_)) => FullscreenRequest::Windowed,
        None => FullscreenRequest::Windowed,
    }
}

impl WindowAttributes {
    /// What the toolkit is told for a window with these attributes.
    ///
    /// Sizes are taken as logical pixels at a scale factor of one. What the
    /// toolkit has no setting for leaves no trace: the largest size, the
    /// resize increments, the position, transparency, blur, protection of
    /// the content, the window level, activation and the parent window.
    pub open spec fn settings(self) -> WindowSettings {
        WindowSettings {
            handle_menubar_accel: false,
            resizable: self.resizable,
            title: self.title,
            maximized: self.maximized,
            visible: self.visible,
            decorated: self.decorations,
            default_size: initial_logical_size(self.surface_size),
            size_request: initial_logical_size(self.min_surface_size),
            color_scheme: scheme_request(self.preferred_theme),
            fullscreen: fullscreen_request(self.fullscreen),
        }
    }

    /// Whether `self` and `other` ask the same of everything that the
    /// toolkit has a setting for.
    pub open spec fn same_supported(self, other: WindowAttributes) -> bool {
        &&& self.surface_size == other.surface_size
        &&& self.min_surface_size == other.min_surface_size
        &&& self.resizable == other.resizable
        &&& self.title == other.title
        &&& self.maximized == other.maximized
        &&& self.visible == other.visible
        &&& self.decorations == other.decorations
        &&& self.preferred_theme == other.preferred_theme
        &&& self.fullscreen == other.fullscreen
    }
}

/// One top-level window.
#[derive(Debug, PartialEq, Eq)]
pub struct Window {
    window_id: WindowId,
    settings: WindowSettings,
}

impl Window {
    /// The window's identifier.
    pub closed spec fn spec_id(&self) -> WindowId {
        self.window_id
    }

    /// What the toolkit was told when the window was set up.
    pub closed spec fn spec_settings(&self) -> WindowSettings {
        self.settings
    }

    /// The window that the toolkit keeps at `address`, set up as
    /// `attributes` ask.
    ///
    /// The identifier is the address, as a number. The settings are those of
    /// [`WindowAttributes::settings`], for the caller to hand to the toolkit.
    pub fn new(attributes: WindowAttributes, address: usize) -> (window: Window)
        ensures
            window.spec_id()@ == address,
            window.spec_settings() == attributes.settings(),
    {
        let default_size = match attributes.surface_size {
            Some(surface_size) => Some(surface_size.to_initial_logical()),
            None => None,
        };
        let size_request = match attributes.min_surface_size {
            Some(min_surface_size) => Some(min_surface_size.to_initial_logical()),
            None => None,
        };
        let color_scheme = match attributes.preferred_theme {
            Some(preferred_theme) => Some(preferred_theme.color_scheme()),
            None => None,
        };
        let fullscreen = match attributes.fullscreen {
            Some(Fullscreen::Exclusive(_)) => FullscreenRequest::Windowed,
            Some(Fullscreen::Borderless(Some(monitor))) => FullscreenRequest::OnMonitor(monitor),
            Some(Fullscreen::Borderless(None)) => FullscreenRequest::CurrentMonitor,
            None => FullscreenRequest::Windowed,
        };
        let settings = WindowSettings {
            handle_menubar_accel: false,
            resizable: attributes.resizable,
            title: attributes.title,
            maximized: attributes.maximized,
            visible: attributes.visible,
            decorated: attributes.decorations,
            default_size,
            size_request,
            color_scheme,
            fullscreen,
        };
        Window { window_id: WindowId::from_raw(address), settings }
    }

    /// The window's identifier: the same for as long as the window lives.
    #[verifier::when_used_as_spec(spec_id)]
    pub fn id(&self) -> (id: WindowId)
        ensures
            id == self.spec_id(),
    {
        self.window_id
    }

    /// What the toolkit is to be told about this window.
    pub fn settings(&self) -> (settings: &WindowSettings)
        ensures
            *settings == self.spec_settings(),
    {
        &self.settings
    }

    /// Where the window's content lies on the desktop. The display protocol
    /// gives windows no place that they could know of.
    pub fn inner_position(&self) -> (position: Result<PhysicalPosition, RequestError>)
        ensures
            position matches Err(RequestError::NotSupported(error)) && error@
                == "inner_position is not supported"@,
    {
        Err(RequestError::NotSupported(NotSupportedError::new("inner_position is not supported")))
    }

    /// Where the window's frame lies on the desktop. The display protocol
    /// gives windows no place that they could know of.
    pub fn outer_position(&self) -> (position: Result<PhysicalPosition, RequestError>)
        ensures
            position matches Err(RequestError::NotSupported(error)) && error@
                == "outer_position is not supported"@,
    {
        Err(RequestError::NotSupported(NotSupportedError::new("outer_position is not supported")))
    }

    /// Asks for the window's frame to be moved. The display protocol lets no
    /// window place itself: nothing happens.
    pub fn set_outer_position(&self, position: Position) {
    }
}

/// Attributes that ask the same of everything the toolkit has a setting for
/// lead to the same settings: what else they ask is passed over in silence.
pub proof fn lemma_unsupported_attributes_are_ignored(
    first: WindowAttributes,
    second: WindowAttributes,
)
    requires
        first.same_supported(second),
    ensures
        first.settings() == second.settings(),
{
}

} // verus!
