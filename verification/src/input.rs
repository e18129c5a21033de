use vstd::prelude::*;

verus! {

/// Largest value of the virtual pointer's absolute axes (the smallest is 0).
pub open spec fn abs_axis_max() -> int {
    65535
}

/// `v` held to the surface `[0, max]`.
pub open spec fn on_surface(v: int, max: int) -> int {
    if v < 0 {
        0
    } else if v > max {
        max
    } else {
        v
    }
}

/// Absolute-axis value for position `v` on a surface `max` units wide: the
/// position held to the surface, scaled onto `[0, 65535]` (rounding down);
/// 0 on an empty surface.
pub open spec fn abs_axis(v: int, max: int) -> int {
    if max <= 0 {
        0
    } else {
        on_surface(v, max) * abs_axis_max() / max
    }
}

/// Scales a pointer position onto the virtual pointer's absolute axis.
pub fn abs_axis_value(v: i32, max: i32) -> (r: i32)
    ensures
        r == abs_axis(v as int, max as int),
        0 <= r <= abs_axis_max(),
{
    if max <= 0 {
        return 0;
    }
    let c: i64 = if v < 0 {
        0
    } else if v > max {
        max as i64
    } else {
        v as i64
    };
    let m = max as i64;
    let ghost ci = c as int;
    let ghost mi = m as int;
    assert(0 <= ci * 65535 <= mi * 65535) by (nonlinear_arith)
        requires
            0 <= ci <= mi,
    ;
    assert(0 <= ci * 65535 / mi <= 65535) by (nonlinear_arith)
        requires
            0 <= ci <= mi,
            mi > 0,
    ;
    (c * 65535 / m) as i32
}

/// Button code of the left, right and middle mouse buttons.
pub open spec fn btn_left() -> u16 {
    0x110
}

pub open spec fn btn_right() -> u16 {
    0x111
}

pub open spec fn btn_middle() -> u16 {
    0x112
}

/// The input button code for a gateway mouse button: 0 left, 1 middle,
/// 2 right; any other number is taken as a button code already.
pub open spec fn button_code(button: u16) -> u16 {
    if button == 0 {
        btn_left()
    } else if button == 1 {
        btn_middle()
    } else if button == 2 {
        btn_right()
    } else {
        button
    }
}

/// Maps a gateway mouse button to its input button code.
pub fn mouse_button_code(button: u16) -> (code: u16)
    ensures
        code == button_code(button),
{
    match button {
        0 => 0x110,
        1 => 0x112,
        2 => 0x111,
        other => other,
    }
}

} // verus!
