use vstd::prelude::*;

verus! {

/// Scroll speed, in pixels per second, for one tempo unit.
pub const SCROLL_GAIN: u64 = 10;

/// Tempo is held in eighths of a tempo unit: a wheel value of 8 is one unit.
pub const TEMPO_SCALE: u64 = 8;

/// Time is measured in microseconds.
pub const MICROS_PER_SECOND: u64 = 1_000_000;

/// The offset is measured in sub-pixel units fine enough that one frame's
/// advance is a whole number of them.
pub const UNITS_PER_PIXEL: u64 = TEMPO_SCALE * MICROS_PER_SECOND;

/// The width of one step, in offset units: the viewport width over the number of steps.
pub open spec fn step_size_spec(viewport_width: u32, window_length: usize) -> int {
    (viewport_width as int * UNITS_PER_PIXEL as int) / (window_length as int)
}

/// How far the view scrolls in `dt_micros` at `tempo` (in eighths), in offset units.
pub open spec fn scroll_increment(tempo: u32, dt_micros: u64) -> int {
    tempo as int * SCROLL_GAIN as int * dt_micros as int
}

/// The offset after one frame, wrapped into `[0, step)`.
pub open spec fn next_offset(offset: u64, step: int, tempo: u32, dt_micros: u64) -> int {
    (offset as int + scroll_increment(tempo, dt_micros)) % step
}

/// A step boundary is crossed exactly when the offset wrapped this frame.
pub open spec fn wrapped(offset: u64, step: int, tempo: u32, dt_micros: u64) -> bool {
    next_offset(offset, step, tempo, dt_micros) < offset
}

/// A step is at least one unit wide on any viewport of at least one pixel.
pub proof fn lemma_step_size_positive(viewport_width: u32, window_length: usize)
    requires
        viewport_width >= 1,
        1 <= window_length <= UNITS_PER_PIXEL,
    ensures
        step_size_spec(viewport_width, window_length) >= 1,
{
    let total = viewport_width as int * UNITS_PER_PIXEL as int;
    assert(total >= UNITS_PER_PIXEL) by (nonlinear_arith)
        requires total == viewport_width as int * UNITS_PER_PIXEL as int, viewport_width >= 1, UNITS_PER_PIXEL >= 1;
    assert(total / (window_length as int) >= 1) by (nonlinear_arith)
        requires total >= window_length as int, window_length >= 1;
}

pub fn step_size(viewport_width: u32, window_length: usize) -> (r: u64)
    requires
        1 <= window_length,
    ensures
        r as int == step_size_spec(viewport_width, window_length),
        viewport_width >= 1 && window_length <= UNITS_PER_PIXEL ==> r >= 1,
{
    let w = viewport_width as u64;
    assert(w * UNITS_PER_PIXEL <= u32::MAX as int * UNITS_PER_PIXEL) by (nonlinear_arith)
        requires w <= u32::MAX;
    let total = w * UNITS_PER_PIXEL;
    let wl = window_length as u64;
    proof {
        if viewport_width >= 1 && window_length <= UNITS_PER_PIXEL {
            lemma_step_size_positive(viewport_width, window_length);
        }
    }
    total / wl
}

/// Advances the offset by one frame; says whether it wrapped past a step boundary.
pub fn advance_offset(offset: u64, step: u64, tempo: u32, dt_micros: u64) -> (r: (u64, bool))
    requires
        step >= 1,
    ensures
        r.0 as int == next_offset(offset, step as int, tempo, dt_micros),
        r.0 < step,
        r.1 == wrapped(offset, step as int, tempo, dt_micros),
{
    let t = tempo as u128;
    let d = dt_micros as u128;
    assert(t * (SCROLL_GAIN as u128) <= u32::MAX as int * 10) by (nonlinear_arith)
        requires t <= u32::MAX;
    let rate = t * (SCROLL_GAIN as u128);
    assert(rate * d <= (u32::MAX as int * 10) * u64::MAX as int) by (nonlinear_arith)
        requires rate <= u32::MAX as int * 10, d <= u64::MAX;
    let inc = rate * d;
    let sum = offset as u128 + inc;
    let next = (sum % (step as u128)) as u64;
    (next, next < offset)
}

} // verus!
