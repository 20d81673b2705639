use vstd::prelude::*;

verus! {

/// The parameter value `1.0`: parameter values are counted in millionths.
pub const UNIT: i64 = 1_000_000;

/// The progress value `1.0`: envelope progress is counted in billionths.
pub const PROGRESS_ONE: u64 = 1_000_000_000;

/// `x` brought into the range of `i64`.
pub open spec fn clamp_i64(x: int) -> int {
    if x < i64::MIN {
        i64::MIN as int
    } else if x > i64::MAX {
        i64::MAX as int
    } else {
        x
    }
}

/// The point at fraction `t` (in billionths) of the way from `a` to `b`,
/// rounded toward `a`.
pub open spec fn lerp_spec(a: int, b: int, t: int) -> int {
    if b >= a {
        a + (b - a) * t / (PROGRESS_ONE as int)
    } else {
        a - (a - b) * t / (PROGRESS_ONE as int)
    }
}

/// Linear interpolation from `a` to `b` at `t` billionths of the way,
/// rounded toward `a` and held within `i64`.
pub fn lerp(a: i64, b: i64, t: u32) -> (r: i64)
    ensures
        r as int == clamp_i64(lerp_spec(a as int, b as int, t as int)),
{
    let ai = a as i128;
    let bi = b as i128;
    let ti = t as i128;
    let one = PROGRESS_ONE as i128;
    let r: i128;
    if bi >= ai {
        let d = bi - ai;
        assert(0 <= d * ti <= 0x1_0000_0000_0000_0000 * 0x1_0000_0000) by (nonlinear_arith)
            requires 0 <= d < 0x1_0000_0000_0000_0000, 0 <= ti < 0x1_0000_0000;
        let p = d * ti;
        let q = p / one;
        r = ai + q;
    } else {
        let d = ai - bi;
        assert(0 <= d * ti <= 0x1_0000_0000_0000_0000 * 0x1_0000_0000) by (nonlinear_arith)
            requires 0 <= d < 0x1_0000_0000_0000_0000, 0 <= ti < 0x1_0000_0000;
        let p = d * ti;
        let q = p / one;
        r = ai - q;
    }
    if r < i64::MIN as i128 {
        i64::MIN
    } else if r > i64::MAX as i128 {
        i64::MAX
    } else {
        r as i64
    }
}

} // verus!
