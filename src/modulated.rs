use vstd::prelude::*;

verus! {

/// A parameter value: a base value and a modulation offset laid over it.
#[derive(Clone, Copy, Debug, Default, PartialEq, Eq)]
pub struct Modulated<T> {
    pub value: T,
    pub modulation: T,
}

/// `x` brought into the range of `i32`.
pub open spec fn clamp_i32(x: int) -> int {
    if x < i32::MIN {
        i32::MIN as int
    } else if x > i32::MAX {
        i32::MAX as int
    } else {
        x
    }
}

impl<T> Modulated<T> {
    pub fn new(value: T, modulation: T) -> (r: Self)
        ensures
            r.value == value,
            r.modulation == modulation,
    {
        Modulated { value, modulation }
    }

    /// Combines this pair with another field by field.
    pub fn map2<B, R, F: Fn(&T, &B) -> R>(&self, other: &Modulated<B>, f: F) -> (r: Modulated<R>)
        requires
            f.requires((&self.value, &other.value)),
            f.requires((&self.modulation, &other.modulation)),
        ensures
            f.ensures((&self.value, &other.value), r.value),
            f.ensures((&self.modulation, &other.modulation), r.modulation),
    {
        Modulated { value: f(&self.value, &other.value), modulation: f(&self.modulation, &other.modulation) }
    }
}

impl<T: Copy> Modulated<Option<T>> {
    /// Fills each absent field from `default`.
    pub fn unwrap_or(self, default: Modulated<T>) -> (r: Modulated<T>)
        ensures
            r.value == (match self.value { Some(v) => v, None => default.value }),
            r.modulation == (match self.modulation { Some(m) => m, None => default.modulation }),
    {
        Modulated {
            value: match self.value { Some(v) => v, None => default.value },
            modulation: match self.modulation { Some(m) => m, None => default.modulation },
        }
    }
}

impl Modulated<i32> {
    /// The effective value `value + modulation`, held within `i32`.
    pub fn modulated(self) -> (r: i32)
        ensures
            r as int == clamp_i32(self.value + self.modulation),
    {
        let sum = self.value as i64 + self.modulation as i64;
        if sum < i32::MIN as i64 {
            i32::MIN
        } else if sum > i32::MAX as i64 {
            i32::MAX
        } else {
            sum as i32
        }
    }

    /// The effective value `value + modulation`, exact in `i64`.
    pub fn into_modulated(self) -> (r: i64)
        ensures
            r == self.value + self.modulation,
    {
        self.value as i64 + self.modulation as i64
    }
}

} // verus!
