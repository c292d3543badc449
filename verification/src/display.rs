//! The display connection, and the raw handle by which a graphics library
//! reaches it.

use crate::error::HandleError;
use vstd::prelude::*;

verus! {

/// The display connection, by the protocol that it speaks.
///
/// Which protocol it is is settled once, when the connection is made, and
/// carried along from then on.
#[derive(Clone, Copy, Debug, PartialEq, Eq, Structural, Hash)]
pub enum NativeDisplay {
    /// A connection to a compositor.
    Wayland {
        /// Where the compositor connection lies in memory; none while the
        /// display has no connection to show.
        wl_display: Option<usize>,
    },
    /// A connection to an X server.
    X11 {
        /// Where the server connection lies in memory; zero where the
        /// toolkit has none.
        xdisplay: usize,
        /// The number of the screen that the display is on.
        screen: i32,
    },
}

impl NativeDisplay {
    /// A compositor connection that is there lies somewhere: its address is
    /// not zero.
    pub open spec fn well_formed(self) -> bool {
        self matches NativeDisplay::Wayland { wl_display: Some(address) } ==> address != 0
    }
}

/// The raw handle of a compositor connection.
#[derive(Clone, Copy, Debug, PartialEq, Eq, Structural, Hash)]
pub struct WaylandDisplayHandle {
    /// The address of the connection; never zero.
    pub display: usize,
}

/// The raw handle of an X server connection.
#[derive(Clone, Copy, Debug, PartialEq, Eq, Structural, Hash)]
pub struct XlibDisplayHandle {
    /// The address of the connection, where there is one; never zero.
    pub display: Option<usize>,
    /// The number of the screen.
    pub screen: i32,
}

/// A raw display handle, tagged with its protocol.
#[derive(Clone, Copy, Debug, PartialEq, Eq, Structural, Hash)]
pub enum RawDisplayHandle {
    Wayland(WaylandDisplayHandle),
    Xlib(XlibDisplayHandle),
}

/// The raw handle of a display.
///
/// A compositor connection gives a compositor handle with the connection's
/// address, and no handle while the connection is not there. An X server
/// connection gives an X handle with the connection's address, where it is
/// not zero, and the display's screen number.
pub open spec fn raw_display_handle(display: NativeDisplay) -> Result<
    RawDisplayHandle,
    HandleError,
> {
    match display {
        NativeDisplay::Wayland { wl_display: Some(address) } => Ok(
            RawDisplayHandle::Wayland(WaylandDisplayHandle { display: address }),
        ),
        NativeDisplay::Wayland { wl_display: None } => Err(HandleError::Unavailable),
        NativeDisplay::X11 { xdisplay, screen } => Ok(
            RawDisplayHandle::Xlib(
                XlibDisplayHandle {
                    display: if xdisplay == 0 {
                        None
                    } else {
                        Some(xdisplay)
                    },
                    screen,
                },
            ),
        ),
    }
}

/// Gives out the raw handle of `display`, by its protocol.
///
/// For a compositor connection the result is a compositor handle or no
/// handle at all, never an X handle, and the handle's address is not zero.
/// For an X server connection the result is an X handle that carries the
/// display's own screen number.
pub fn display_handle_from_gdk(display: &NativeDisplay) -> (handle: Result<
    RawDisplayHandle,
    HandleError,
>)
    requires
        display.well_formed(),
    ensures
        handle == raw_display_handle(*display),
        *display is Wayland ==> !(handle matches Ok(RawDisplayHandle::Xlib(_))),
        *display matches NativeDisplay::Wayland { wl_display: Some(address) } ==> handle matches Ok(
            RawDisplayHandle::Wayland(wayland),
        ) && wayland.display == address && wayland.display != 0,
        *display matches NativeDisplay::X11 { screen, .. } ==> handle matches Ok(
            RawDisplayHandle::Xlib(xlib),
        ) && xlib.screen == screen,
{
    match *display {
        NativeDisplay::Wayland { wl_display } => {
            match wl_display {
                Some(address) => Ok(
                    RawDisplayHandle::Wayland(WaylandDisplayHandle { display: address }),
                ),
                None => Err(HandleError::Unavailable),
            }
        },
        NativeDisplay::X11 { xdisplay, screen } => {
            let display = if xdisplay == 0 {
                None
            } else {
                Some(xdisplay)
            };
            Ok(RawDisplayHandle::Xlib(XlibDisplayHandle { display, screen }))
        },
    }
}

/// A display connection of its own, which no window has to keep alive.
#[derive(Clone, Copy, Debug, PartialEq, Eq, Structural, Hash)]
pub struct OwnedDisplayHandle {
    inner: NativeDisplay,
}

impl View for OwnedDisplayHandle {
    type V = NativeDisplay;

    /// The connection that is held.
    closed spec fn view(&self) -> NativeDisplay {
        self.inner
    }
}

impl OwnedDisplayHandle {
    /// A handle that holds `display`.
    pub fn new(display: NativeDisplay) -> (owned: OwnedDisplayHandle)
        ensures
            owned@ == display,
    {
        OwnedDisplayHandle { inner: display }
    }

    /// The raw handle of the connection that is held.
    pub fn display_handle(&self) -> (handle: Result<RawDisplayHandle, HandleError>)
        requires
            self@.well_formed(),
        ensures
            handle == raw_display_handle(self@),
    {
        display_handle_from_gdk(&self.inner)
    }
}

} // verus!
