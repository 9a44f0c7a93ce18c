//! Attribute values of templates: fixed, or rolled from one seed byte.
use vstd::prelude::*;

verus! {

/// An attribute of a template: a fixed value, or one rolled in `[min, max)`.
pub enum ValueType {
    Random(u16, u16),
    Fixed(u16),
}

impl Clone for ValueType {
    fn clone(&self) -> (r: Self)
        ensures
            r == *self,
    {
        match self {
            ValueType::Random(min, max) => ValueType::Random(*min, *max),
            ValueType::Fixed(v) => ValueType::Fixed(*v),
        }
    }
}

impl ValueType {
    /// A rolled range must be non-empty.
    pub open spec fn wf(self) -> bool {
        match self {
            ValueType::Random(min, max) => min < max,
            ValueType::Fixed(_) => true,
        }
    }

    /// The value that `seed` rolls.
    pub open spec fn rolled(self, seed: u8) -> u16 {
        match self {
            ValueType::Random(min, max) => ((seed as int % (max - min)) + min) as u16,
            ValueType::Fixed(v) => v,
        }
    }

    pub fn value_u8(&self, seed: u8) -> (r: u8)
        requires
            self.wf(),
        ensures
            r == self.rolled(seed) as u8,
    {
        self.value_u16(seed) as u8
    }

    pub fn value_u16(&self, seed: u8) -> (r: u16)
        requires
            self.wf(),
        ensures
            r == self.rolled(seed),
    {
        match self {
            ValueType::Random(min, max) => seed as u16 % (*max - *min) + *min,
            ValueType::Fixed(value) => *value,
        }
    }
}

} // verus!
