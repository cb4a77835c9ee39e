use vstd::prelude::*;

verus! {

/// Lowest brightness the display accepts, in nits.
pub const MIN_BRIGHTNESS: u32 = 400;

/// Highest brightness the display accepts, in nits.
pub const MAX_BRIGHTNESS: u32 = 60000;

/// Width of the brightness scale, in nits.
pub const BRIGHTNESS_RANGE: u32 = MAX_BRIGHTNESS - MIN_BRIGHTNESS;

/// `n` limited to the device's range `[MIN_BRIGHTNESS, MAX_BRIGHTNESS]`.
pub open spec fn clamp_nits(n: int) -> int {
    if n < MIN_BRIGHTNESS {
        MIN_BRIGHTNESS as int
    } else if n > MAX_BRIGHTNESS {
        MAX_BRIGHTNESS as int
    } else {
        n
    }
}

/// The linear interpolation between the two ends of the scale at `p` percent.
pub open spec fn nits_of_percent(p: int) -> int {
    MIN_BRIGHTNESS + (MAX_BRIGHTNESS - MIN_BRIGHTNESS) * p / 100
}

/// What is written to the device for `p` percent.
pub open spec fn device_nits_of_percent(p: int) -> int {
    clamp_nits(nits_of_percent(p))
}

/// The percent shown for a device value `n`, rounded down; values outside the
/// device's range count as its nearest end.
pub open spec fn percent_of_nits(n: int) -> int {
    if n <= MIN_BRIGHTNESS {
        0
    } else if n >= MAX_BRIGHTNESS {
        100
    } else {
        (n - MIN_BRIGHTNESS) * 100 / (MAX_BRIGHTNESS - MIN_BRIGHTNESS)
    }
}

/// `v` limited to `[0, 100]`.
pub open spec fn clamp_percent(v: int) -> int {
    if v < 0 {
        0
    } else if v > 100 {
        100
    } else {
        v
    }
}

/// Converts a percent to the nits value written to the device. Percents above
/// 100 are never passed by a well-behaved caller; they still land in range.
pub fn percent_to_nits(percent: u8) -> (r: u32)
    ensures
        r == device_nits_of_percent(percent as int),
        MIN_BRIGHTNESS <= r <= MAX_BRIGHTNESS,
{
    assert(BRIGHTNESS_RANGE * (percent as int) <= 59600 * 255) by (nonlinear_arith)
        requires
            percent <= 255,
            BRIGHTNESS_RANGE == 59600,
    ;
    let nits: u32 = MIN_BRIGHTNESS + BRIGHTNESS_RANGE * (percent as u32) / 100;
    if nits > MAX_BRIGHTNESS {
        MAX_BRIGHTNESS
    } else {
        nits
    }
}

/// Converts a device value in nits to the percent shown to the user.
pub fn nits_to_percent(nits: u32) -> (r: u8)
    ensures
        r == percent_of_nits(nits as int),
        r <= 100,
{
    if nits <= MIN_BRIGHTNESS {
        0
    } else if nits >= MAX_BRIGHTNESS {
        100
    } else {
        let offset: u32 = nits - MIN_BRIGHTNESS;
        assert(offset * 100 / 59600 < 100) by (nonlinear_arith)
            requires
                offset < 59600,
        ;
        (offset * 100 / BRIGHTNESS_RANGE) as u8
    }
}

/// The brightness one step up from `current`, saturating at 100.
pub fn step_up(current: u8, step: u8) -> (r: u8)
    ensures
        r == clamp_percent(current + step),
{
    let sum: u16 = current as u16 + step as u16;
    if sum > 100 {
        100
    } else {
        sum as u8
    }
}

/// The brightness one step down from `current`, saturating at 0 (and at 100
/// for a current value above the scale).
pub fn step_down(current: u8, step: u8) -> (r: u8)
    ensures
        r == clamp_percent(current - step),
{
    if current <= step {
        0
    } else if current - step > 100 {
        100
    } else {
        current - step
    }
}

/// For every percent of the scale, the device value is the exact
/// interpolation `MIN + (MAX - MIN) * p / 100`, which needs no clamping, and
/// converting it back gives the same percent.
pub proof fn lemma_percent_round_trip(p: int)
    requires
        0 <= p <= 100,
    ensures
        device_nits_of_percent(p) == MIN_BRIGHTNESS + (MAX_BRIGHTNESS - MIN_BRIGHTNESS) * p / 100,
        percent_of_nits(device_nits_of_percent(p)) == p,
{
    assert(59600 * p / 100 == 596 * p) by (nonlinear_arith);
    assert(0 <= 596 * p <= 59600) by (nonlinear_arith)
        requires
            0 <= p <= 100,
    ;
    assert((596 * p) * 100 / 59600 == p) by (nonlinear_arith);
}

/// The ends of the percent scale are the ends of the device's range.
pub proof fn lemma_percent_ends()
    ensures
        device_nits_of_percent(0) == MIN_BRIGHTNESS,
        device_nits_of_percent(100) == MAX_BRIGHTNESS,
{
}

} // verus!
