//! What the animation of a trajectory is made of, as far as it can be
//! decided without drawing anything: frame timing, the colour of each body's
//! marker and the number shown in the time label.
use vstd::prelude::*;

verus! {

/// Frames per second of the animation.
pub const FPS: u32 = 180;

/// Width and height of the canvas in pixels.
pub const CANVAS_SIZE: u32 = 250;

/// Lowest coordinate on either axis of the plot.
pub const AXIS_MIN: i32 = -100;

/// Highest coordinate on either axis of the plot.
pub const AXIS_MAX: i32 = 100;

/// Plot units per unit of position.
pub const POSITION_SCALE: i32 = 100;

/// Radius of a body's marker in pixels.
pub const MARKER_RADIUS: i32 = 2;

/// Colour of a marker.
#[derive(Clone, Copy, Debug, PartialEq, Eq)]
pub enum Colour {
    Blue,
    Red,
    Green,
    Black,
}

/// The colour in which body `n` is drawn.
pub open spec fn colour_of(n: int) -> Colour {
    if n == 0 {
        Colour::Blue
    } else if n == 1 {
        Colour::Red
    } else if n == 2 {
        Colour::Green
    } else {
        Colour::Black
    }
}

/// The colour in which body `n` is drawn: blue, red and green for the three
/// bodies, black for anything else.
pub fn body_colour(n: usize) -> (c: Colour)
    ensures
        c == colour_of(n as int),
{
    match n {
        0 => Colour::Blue,
        1 => Colour::Red,
        2 => Colour::Green,
        _ => Colour::Black,
    }
}

/// Milliseconds for which one frame is shown at `fps` frames per second,
/// rounded down. There is no such delay at zero frames per second.
pub fn frame_delay(fps: u32) -> (r: Option<u32>)
    ensures
        fps == 0 ==> r is None,
        fps != 0 ==> r == Some((1000int / fps as int) as u32),
{
    if fps == 0 {
        None
    } else {
        Some(1000 / fps)
    }
}

/// The number of seconds shown in a frame's label: the step's time, capped
/// at the largest 32-bit number.
pub open spec fn label_seconds(time: u64) -> u32 {
    if time > 0xFFFF_FFFF {
        0xFFFF_FFFFu32
    } else {
        time as u32
    }
}

/// Computes the number shown in a frame's label.
pub fn displayed_seconds(time: u64) -> (r: u32)
    ensures
        r == label_seconds(time),
{
    if time > 0xFFFF_FFFF {
        0xFFFF_FFFF
    } else {
        time as u32
    }
}

} // verus!
