//! Monitors, as the display reports them.

use crate::units::{PhysicalPosition, PhysicalSize};
use std::cmp::Ordering;
use vstd::prelude::*;
use vstd::std_specs::cmp::{PartialEqSpecImpl, PartialOrdSpecImpl};

verus! {

/// A rectangle in logical pixels.
#[derive(Clone, Copy, Debug, PartialEq, Eq, Structural, Hash)]
pub struct Rectangle {
    pub x: i32,
    pub y: i32,
    pub width: i32,
    pub height: i32,
}

/// What the display tells of one of its outputs.
#[derive(Debug, PartialEq, Eq)]
pub struct NativeMonitor {
    /// Tells this output from every other one that the display has.
    pub identity: usize,
    /// The output's description, if the display has one for it.
    pub description: Option<String>,
    /// Where the output lies, in logical pixels.
    pub geometry: Rectangle,
    /// How many device pixels make up one logical pixel.
    pub scale_factor: i32,
}

impl Clone for NativeMonitor {
    fn clone(&self) -> (copy: NativeMonitor)
        ensures
            copy == *self,
    {
        let description = match &self.description {
            Some(text) => Some(text.clone()),
            None => None,
        };
        NativeMonitor {
            identity: self.identity,
            description,
            geometry: self.geometry,
            scale_factor: self.scale_factor,
        }
    }
}

/// One output of the display.
///
/// Two handles are the same, and are ordered, by the identity of the output
/// alone.
#[derive(Debug)]
pub struct MonitorHandle {
    inner: NativeMonitor,
}

impl View for MonitorHandle {
    type V = NativeMonitor;

    /// What the display told of this output.
    closed spec fn view(&self) -> NativeMonitor {
        self.inner
    }
}

impl Clone for MonitorHandle {
    fn clone(&self) -> (copy: MonitorHandle)
        ensures
            copy == *self,
    {
        MonitorHandle { inner: self.inner.clone() }
    }
}

impl PartialEq for MonitorHandle {
    fn eq(&self, other: &MonitorHandle) -> (same: bool) {
        self.inner.identity == other.inner.identity
    }
}

impl Eq for MonitorHandle {

}

impl PartialEqSpecImpl for MonitorHandle {
    open spec fn obeys_eq_spec() -> bool {
        true
    }

    open spec fn eq_spec(&self, other: &MonitorHandle) -> bool {
        self@.identity == other@.identity
    }
}

impl PartialOrd for MonitorHandle {
    fn partial_cmp(&self, other: &MonitorHandle) -> (order: Option<Ordering>) {
        if self.inner.identity < other.inner.identity {
            Some(Ordering::Less)
        } else if self.inner.identity == other.inner.identity {
            Some(Ordering::Equal)
        } else {
            Some(Ordering::Greater)
        }
    }
}

impl PartialOrdSpecImpl for MonitorHandle {
    open spec fn obeys_partial_cmp_spec() -> bool {
        true
    }

    open spec fn partial_cmp_spec(&self, other: &MonitorHandle) -> Option<Ordering> {
        if self@.identity < other@.identity {
            Some(Ordering::Less)
        } else if self@.identity == other@.identity {
            Some(Ordering::Equal)
        } else {
            Some(Ordering::Greater)
        }
    }
}

/// A handle holds what the display told of its output and nothing else: two
/// handles that tell the same are one and the same.
pub proof fn lemma_handle_is_its_view(first: MonitorHandle, second: MonitorHandle)
    requires
        first@ == second@,
    ensures
        first == second,
{
}

impl NativeMonitor {
    /// Whether the output's corner, counted in device pixels, can be written
    /// in `i32`.
    pub open spec fn position_fits(self) -> bool {
        &&& i32::MIN <= self.geometry.x * self.scale_factor <= i32::MAX
        &&& i32::MIN <= self.geometry.y * self.scale_factor <= i32::MAX
    }

    /// The output's corner in device pixels: the corner in logical pixels,
    /// each coordinate times the scale factor.
    pub open spec fn physical_position(self) -> PhysicalPosition {
        PhysicalPosition {
            x: (self.geometry.x * self.scale_factor) as i32,
            y: (self.geometry.y * self.scale_factor) as i32,
        }
    }
}

impl MonitorHandle {
    /// A handle to the output that `proxy` tells of.
    pub fn new(proxy: NativeMonitor) -> (handle: MonitorHandle)
        ensures
            handle@ == proxy,
    {
        MonitorHandle { inner: proxy }
    }

    /// The number that tells this output from every other one of the
    /// display.
    pub fn native_id(&self) -> (id: usize)
        ensures
            id == self@.identity,
    {
        self.inner.identity
    }

    /// The output's description, where the display has one.
    pub fn name(&self) -> (name: Option<String>)
        ensures
            name == self@.description,
    {
        match &self.inner.description {
            Some(text) => Some(text.clone()),
            None => None,
        }
    }

    /// Whether the output's place can be written in device pixels: a call
    /// of [`MonitorHandle::position`] is in order when this holds.
    pub fn position_fits(&self) -> (fits: bool)
        ensures
            fits == self@.position_fits(),
    {
        let x = self.inner.geometry.x as i64;
        let y = self.inner.geometry.y as i64;
        let scale_factor = self.inner.scale_factor as i64;
        assert(i64::MIN <= x * scale_factor <= i64::MAX && i64::MIN <= y * scale_factor
            <= i64::MAX) by (nonlinear_arith)
            requires
                i32::MIN <= x <= i32::MAX,
                i32::MIN <= y <= i32::MAX,
                i32::MIN <= scale_factor <= i32::MAX,
        ;
        let physical_x = x * scale_factor;
        let physical_y = y * scale_factor;
        let least = i32::MIN as i64;
        let most = i32::MAX as i64;
        least <= physical_x && physical_x <= most && least <= physical_y && physical_y <= most
    }

    /// Where the output lies, in device pixels.
    ///
    /// The display reports the place in logical pixels; the scale factor
    /// turns it into device pixels.
    pub fn position(&self) -> (position: Option<PhysicalPosition>)
        requires
            self@.position_fits(),
        ensures
            position == Some(self@.physical_position()),
    {
        let geometry = self.inner.geometry;
        let scale_factor = self.inner.scale_factor;
        Some(PhysicalPosition { x: geometry.x * scale_factor, y: geometry.y * scale_factor })
    }

    /// How many device pixels make up one logical pixel on this output.
    pub fn scale_factor(&self) -> (scale_factor: i32)
        ensures
            scale_factor == self@.scale_factor,
    {
        self.inner.scale_factor
    }

    /// The video mode that the output is in. No video mode is known of any
    /// output.
    pub fn current_video_mode(&self) -> (mode: Option<VideoModeHandle>)
        ensures
            mode is None,
    {
        None
    }

    /// The video modes that the output offers. None is known.
    pub fn video_modes(&self) -> (modes: Vec<VideoModeHandle>)
        ensures
            modes@.len() == 0,
    {
        Vec::new()
    }
}

/// A resolution and refresh rate that a monitor can be switched to.
#[derive(Debug, PartialEq, Eq)]
pub struct VideoModeHandle {
    monitor: MonitorHandle,
    size: PhysicalSize,
    refresh_rate_millihertz: Option<u32>,
}

impl Clone for VideoModeHandle {
    fn clone(&self) -> (copy: VideoModeHandle)
        ensures
            copy == *self,
    {
        proof {
            use_type_invariant(self);
        }
        VideoModeHandle {
            monitor: self.monitor.clone(),
            size: self.size,
            refresh_rate_millihertz: self.refresh_rate_millihertz,
        }
    }
}

impl VideoModeHandle {
    /// A refresh rate, where one is known, is not zero.
    #[verifier::type_invariant]
    pub closed spec fn well_formed(&self) -> bool {
        self.refresh_rate_millihertz != Some(0u32)
    }

    /// The monitor that the mode belongs to.
    pub closed spec fn spec_monitor(&self) -> MonitorHandle {
        self.monitor
    }

    /// The resolution, in device pixels.
    pub closed spec fn spec_size(&self) -> PhysicalSize {
        self.size
    }

    /// The refresh rate in thousandths of a hertz, where it is known.
    pub closed spec fn spec_refresh_rate_millihertz(&self) -> Option<u32> {
        self.refresh_rate_millihertz
    }

    /// A mode of `monitor` with the resolution `size`. A refresh rate of
    /// zero stands for one that is not known.
    pub fn new(monitor: MonitorHandle, size: PhysicalSize, refresh_rate_millihertz: u32) -> (mode:
        VideoModeHandle)
        ensures
            mode.spec_monitor() == monitor,
            mode.spec_size() == size,
            mode.spec_refresh_rate_millihertz() == if refresh_rate_millihertz == 0 {
                None
            } else {
                Some(refresh_rate_millihertz)
            },
    {
        let refresh_rate_millihertz = if refresh_rate_millihertz == 0 {
            None
        } else {
            Some(refresh_rate_millihertz)
        };
        VideoModeHandle { monitor, size, refresh_rate_millihertz }
    }

    /// The resolution, in device pixels.
    #[verifier::when_used_as_spec(spec_size)]
    pub fn size(&self) -> (size: PhysicalSize)
        ensures
            size == self.spec_size(),
    {
        self.size
    }

    /// The colour depth in bits per pixel. It is not known of any mode.
    pub fn bit_depth(&self) -> (depth: Option<u16>)
        ensures
            depth is None,
    {
        None
    }

    /// The refresh rate in thousandths of a hertz, where it is known; never
    /// zero.
    #[verifier::when_used_as_spec(spec_refresh_rate_millihertz)]
    pub fn refresh_rate_millihertz(&self) -> (rate: Option<u32>)
        ensures
            rate == self.spec_refresh_rate_millihertz(),
            rate != Some(0u32),
    {
        proof {
            use_type_invariant(self);
        }
        self.refresh_rate_millihertz
    }

    /// The monitor that the mode belongs to.
    pub fn monitor(&self) -> (monitor: MonitorHandle)
        ensures
            monitor == self.spec_monitor(),
    {
        self.monitor.clone()
    }
}

} // verus!
