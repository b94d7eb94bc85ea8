//! Overlay placement and warmup timing constants.
use vstd::prelude::*;

verus! {

/// Overlay window width, in physical pixels.
pub const OVERLAY_WIDTH: i32 = 200;

/// Overlay height while the model warms up.
pub const OVERLAY_HEIGHT_WARMUP: i32 = 70;

/// Overlay height while recording.
pub const OVERLAY_HEIGHT_RECORDING: i32 = 50;

/// Gap between the overlay and the bottom edge of the monitor.
pub const OVERLAY_BOTTOM_OFFSET: i32 = 60;

/// Shortest time the warmup overlay stays up, in seconds.
pub const WARMUP_MIN_DISPLAY_SECS: u64 = 1;

/// Pause between repeated warmup mode announcements, in milliseconds.
pub const WARMUP_EMIT_INTERVAL_MS: u64 = 100;

/// How often the warmup mode is announced.
pub const WARMUP_EMIT_COUNT: u8 = 5;

/// How long `stop` keeps capturing after the key is released, in
/// milliseconds.
pub const TRAILING_CAPTURE_MS: u64 = 150;

/// Integer division rounding toward zero, as Rust's `/` on integers.
pub open spec fn div_toward_zero(a: int, d: int) -> int
    recommends
        d > 0,
{
    if a >= 0 {
        a / d
    } else {
        -((-a) / d)
    }
}

/// Horizontal position that centres the overlay on the monitor.
pub open spec fn overlay_x(monitor_x: int, monitor_width: int) -> int {
    monitor_x + div_toward_zero(monitor_width - OVERLAY_WIDTH, 2)
}

/// Vertical position that puts the overlay's bottom edge above the
/// monitor's bottom edge by the offset.
pub open spec fn overlay_y(monitor_y: int, monitor_height: int, height: int) -> int {
    monitor_y + monitor_height - height - OVERLAY_BOTTOM_OFFSET
}

/// The position fits the `i32` coordinates of a window.
pub open spec fn fits_i32(v: int) -> bool {
    i32::MIN <= v <= i32::MAX
}

/// Top-left corner of an overlay of `height` placed bottom-centre on a
/// monitor at (`monitor_x`, `monitor_y`) of the given size; `None` when a
/// coordinate does not fit in `i32`.
pub fn overlay_position(
    monitor_x: i32,
    monitor_y: i32,
    monitor_width: u32,
    monitor_height: u32,
    height: i32,
) -> (r: Option<(i32, i32)>)
    ensures
        r == if fits_i32(overlay_x(monitor_x as int, monitor_width as int)) && fits_i32(
            overlay_y(monitor_y as int, monitor_height as int, height as int),
        ) {
            Some(
                (
                    overlay_x(monitor_x as int, monitor_width as int) as i32,
                    overlay_y(monitor_y as int, monitor_height as int, height as int) as i32,
                ),
            )
        } else {
            None
        },
{
    let spare: i64 = monitor_width as i64 - OVERLAY_WIDTH as i64;
    let half: i64 = if spare >= 0 {
        spare / 2
    } else {
        -((-spare) / 2)
    };
    let x: i64 = monitor_x as i64 + half;
    let y: i64 = monitor_y as i64 + monitor_height as i64 - height as i64
        - OVERLAY_BOTTOM_OFFSET as i64;
    if i32::MIN as i64 <= x && x <= i32::MAX as i64 && i32::MIN as i64 <= y && y
        <= i32::MAX as i64 {
        Some((x as i32, y as i32))
    } else {
        None
    }
}

} // verus!
