//! Presentation-adjacent decisions: where the floating reminder
//! window goes, which tray theme applies, and how a display power
//! notification payload is read.

use vstd::prelude::*;

use crate::models::{FloatingPosition, Theme};

verus! {

/// Horizontal margin kept between the floating reminder and the
/// screen edge, in pixels.
pub const FLOATING_MARGIN_X: i32 = 20;

/// Vertical margin kept between the floating reminder and the screen
/// edge, in pixels.
pub const FLOATING_MARGIN_Y: i32 = 96;

pub open spec fn clamp_int(v: int, lo: int, hi: int) -> int {
    if v < lo {
        lo
    } else if v > hi {
        hi
    } else {
        v
    }
}

/// Where the floating reminder window goes on a monitor at `origin`
/// of the given size: into the requested corner, kept a margin away
/// from the edges, and clamped onto the monitor.
pub open spec fn spec_resolve_floating_position(
    origin_x: int,
    origin_y: int,
    screen_w: int,
    screen_h: int,
    win_w: int,
    win_h: int,
    pos: FloatingPosition,
) -> (int, int) {
    let left = origin_x + FLOATING_MARGIN_X;
    let right = origin_x + screen_w - win_w - FLOATING_MARGIN_X;
    let top = origin_y + FLOATING_MARGIN_Y;
    let bottom = origin_y + screen_h - win_h - FLOATING_MARGIN_Y;
    let x = if pos is TopLeft || pos is BottomLeft {
        left
    } else {
        right
    };
    let y = if pos is TopLeft || pos is TopRight {
        top
    } else {
        bottom
    };
    let max_x = origin_x + (if screen_w - win_w >= 0 {
        screen_w - win_w
    } else {
        0
    });
    let max_y = origin_y + (if screen_h - win_h >= 0 {
        screen_h - win_h
    } else {
        0
    });
    (clamp_int(x, origin_x, max_x), clamp_int(y, origin_y, max_y))
}

/// Compute the floating reminder window's position; see
/// `spec_resolve_floating_position`. Coordinates are physical
/// pixels; `origin` is the monitor's top-left corner.
pub fn resolve_floating_position(
    origin_x: i32,
    origin_y: i32,
    screen_width: u32,
    screen_height: u32,
    window_width: u32,
    window_height: u32,
    floating_position: FloatingPosition,
) -> (r: (i32, i32))
    requires
        -0x10_0000 <= origin_x <= 0x10_0000,
        -0x10_0000 <= origin_y <= 0x10_0000,
        screen_width <= 0x10_0000,
        screen_height <= 0x10_0000,
        window_width <= 0x10_0000,
        window_height <= 0x10_0000,
    ensures
        (r.0 as int, r.1 as int) == spec_resolve_floating_position(
            origin_x as int,
            origin_y as int,
            screen_width as int,
            screen_height as int,
            window_width as int,
            window_height as int,
            floating_position,
        ),
{
    let screen_w = screen_width as i32;
    let screen_h = screen_height as i32;
    let win_w = window_width as i32;
    let win_h = window_height as i32;
    let left = origin_x + FLOATING_MARGIN_X;
    let right = origin_x + screen_w - win_w - FLOATING_MARGIN_X;
    let top = origin_y + FLOATING_MARGIN_Y;
    let bottom = origin_y + screen_h - win_h - FLOATING_MARGIN_Y;
    let x = match floating_position {
        FloatingPosition::TopLeft | FloatingPosition::BottomLeft => left,
        FloatingPosition::TopRight | FloatingPosition::BottomRight => right,
    };
    let y = match floating_position {
        FloatingPosition::TopLeft | FloatingPosition::TopRight => top,
        FloatingPosition::BottomLeft | FloatingPosition::BottomRight => bottom,
    };
    let span_x = if screen_w - win_w >= 0 {
        screen_w - win_w
    } else {
        0
    };
    let span_y = if screen_h - win_h >= 0 {
        screen_h - win_h
    } else {
        0
    };
    let max_x = origin_x + span_x;
    let max_y = origin_y + span_y;
    let cx = if x < origin_x {
        origin_x
    } else if x > max_x {
        max_x
    } else {
        x
    };
    let cy = if y < origin_y {
        origin_y
    } else if y > max_y {
        max_y
    } else {
        y
    };
    (cx, cy)
}

/// Relies on dark_light::detect for the machine's theme; reduces its
/// three-valued mode to "dark or not", which is all the tray icon
/// choice uses.
#[verifier::external_body]
fn detect_dark_mode() -> (r: bool) {
    match dark_light::detect() {
        dark_light::Mode::Dark => true,
        dark_light::Mode::Light => false,
        dark_light::Mode::Default => false,
    }
}

/// Whether the machine currently prefers a dark theme.
pub fn current_system_theme() -> bool {
    detect_dark_mode()
}

/// The tray icon theme for a preference: dark or light as chosen,
/// and the machine's current theme under Auto.
pub fn resolve_tray_theme(preference: &Theme) -> (dark: bool)
    ensures
        preference is Dark ==> dark,
        preference is Light ==> !dark,
{
    match preference {
        Theme::Dark => true,
        Theme::Light => false,
        Theme::Auto => current_system_theme(),
    }
}

/// Read the display state out of a power-notification payload: its
/// first four bytes hold a little-endian word, zero meaning the
/// display went off. Too short a payload carries no state.
pub fn display_state_from_bytes(data: &[u8]) -> (r: Option<bool>)
    ensures
        data@.len() < 4 ==> r is None,
        data@.len() >= 4 ==> r == Some(
            !(data@[0] == 0 && data@[1] == 0 && data@[2] == 0 && data@[3] == 0),
        ),
{
    if data.len() < 4 {
        return None;
    }
    Some(data[0] != 0 || data[1] != 0 || data[2] != 0 || data[3] != 0)
}

} // verus!
