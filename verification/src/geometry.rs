//! Positions, sizes and monitors.
use crate::error::RuntimeError;
use crate::platform::Platform;
use vstd::prelude::*;

verus! {

/// A position in physical pixels.
#[derive(Debug, Clone, Copy, PartialEq, Eq, Structural)]
pub struct PhysicalPosition {
    pub x: i32,
    pub y: i32,
}

/// A size in physical pixels.
#[derive(Debug, Clone, Copy, PartialEq, Eq, Structural)]
pub struct PhysicalSize {
    pub width: u32,
    pub height: u32,
}

/// A rectangle in physical pixels.
#[derive(Debug, Clone, Copy, PartialEq, Eq, Structural)]
pub struct PhysicalRect {
    pub position: PhysicalPosition,
    pub size: PhysicalSize,
}

/// A position in physical or in logical pixels.
pub enum Position<P: Platform> {
    Physical(PhysicalPosition),
    Logical { x: P::Scalar, y: P::Scalar },
}

/// A size in physical or in logical pixels.
pub enum Size<P: Platform> {
    Physical(PhysicalSize),
    Logical { width: P::Scalar, height: P::Scalar },
}

/// What the windowing system tells of a monitor.
pub struct MonitorReading<P: Platform> {
    pub name: Option<String>,
    pub size: PhysicalSize,
    pub position: PhysicalPosition,
    pub scale_factor: P::Scalar,
}

/// A monitor as the application sees it.
pub struct Monitor<P: Platform> {
    pub name: Option<String>,
    pub size: PhysicalSize,
    pub position: PhysicalPosition,
    pub work_area: PhysicalRect,
    pub scale_factor: P::Scalar,
}

/// The monitor that a reading describes: its work area is the whole monitor.
pub open spec fn monitor_of<P: Platform>(reading: MonitorReading<P>) -> Monitor<P> {
    Monitor {
        name: reading.name,
        size: reading.size,
        position: reading.position,
        work_area: PhysicalRect { position: reading.position, size: reading.size },
        scale_factor: reading.scale_factor,
    }
}

/// The monitor that a reading describes.
pub fn tao_monitor<P: Platform>(reading: MonitorReading<P>) -> (monitor: Monitor<P>)
    ensures
        monitor == monitor_of(reading),
        monitor.name == reading.name,
        monitor.size == reading.size,
        monitor.position == reading.position,
        monitor.work_area.position == reading.position,
        monitor.work_area.size == reading.size,
        monitor.scale_factor == reading.scale_factor,
{
    Monitor {
        name: reading.name,
        size: reading.size,
        position: reading.position,
        work_area: PhysicalRect { position: reading.position, size: reading.size },
        scale_factor: reading.scale_factor,
    }
}

/// The answer to a question for the monitor of a window, which may be on none.
pub fn monitor_reply<P: Platform>(reading: Option<MonitorReading<P>>) -> (reply: Result<
    Option<Monitor<P>>,
    RuntimeError,
>)
    ensures
        reply == Ok::<Option<Monitor<P>>, RuntimeError>(
            match reading {
                Some(reading) => Some(monitor_of(reading)),
                None => None,
            },
        ),
{
    match reading {
        Some(reading) => Ok(Some(tao_monitor(reading))),
        None => Ok(None),
    }
}

/// The answer to a question for the position of a window, which the windowing
/// system may be unable to tell.
pub fn position_reply(reading: Option<PhysicalPosition>) -> (reply: Result<
    PhysicalPosition,
    RuntimeError,
>)
    ensures
        reply == (match reading {
            Some(position) => Ok(position),
            None => Err(RuntimeError::FailedToGetMonitor),
        }),
{
    match reading {
        Some(position) => Ok(position),
        None => Err(RuntimeError::FailedToGetMonitor),
    }
}

/// A monitor is told as it is read, and its work area is the whole of it.
pub proof fn law_monitor_is_told_as_read<P: Platform>(reading: MonitorReading<P>)
    ensures
        monitor_of(reading).name == reading.name,
        monitor_of(reading).size == reading.size,
        monitor_of(reading).position == reading.position,
        monitor_of(reading).work_area.position == monitor_of(reading).position,
        monitor_of(reading).work_area.size == monitor_of(reading).size,
        monitor_of(reading).scale_factor == reading.scale_factor,
{
}

} // verus!
