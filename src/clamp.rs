use vstd::prelude::*;

verus! {

/// Restriction of a value to a closed range.
pub trait Clamp: Sized {
    type Elem;

    /// The value restricted to `[min, max]`.
    spec fn spec_clamp(self, min: Self::Elem, max: Self::Elem) -> Self;

    /// Returns the value restricted to the range `[min, max]`. Where `min > max`
    /// the result is still defined and nothing panics.
    fn clamp(self, min: Self::Elem, max: Self::Elem) -> (r: Self)
        ensures
            r == self.spec_clamp(min, max),
    ;
}

impl Clamp for i8 {
    type Elem = i8;

    open spec fn spec_clamp(self, min: i8, max: i8) -> i8 {
        if self < min {
            min
        } else if self > max {
            max
        } else {
            self
        }
    }

    fn clamp(self, min: i8, max: i8) -> (r: i8) {
        if self < min {
            min
        } else if self > max {
            max
        } else {
            self
        }
    }
}

impl Clamp for u8 {
    type Elem = u8;

    open spec fn spec_clamp(self, min: u8, max: u8) -> u8 {
        if self < min {
            min
        } else if self > max {
            max
        } else {
            self
        }
    }

    fn clamp(self, min: u8, max: u8) -> (r: u8) {
        if self < min {
            min
        } else if self > max {
            max
        } else {
            self
        }
    }
}

impl Clamp for i16 {
    type Elem = i16;

    open spec fn spec_clamp(self, min: i16, max: i16) -> i16 {
        if self < min {
            min
        } else if self > max {
            max
        } else {
            self
        }
    }

    fn clamp(self, min: i16, max: i16) -> (r: i16) {
        if self < min {
            min
        } else if self > max {
            max
        } else {
            self
        }
    }
}

impl Clamp for u16 {
    type Elem = u16;

    open spec fn spec_clamp(self, min: u16, max: u16) -> u16 {
        if self < min {
            min
        } else if self > max {
            max
        } else {
            self
        }
    }

    fn clamp(self, min: u16, max: u16) -> (r: u16) {
        if self < min {
            min
        } else if self > max {
            max
        } else {
            self
        }
    }
}

impl Clamp for i32 {
    type Elem = i32;

    open spec fn spec_clamp(self, min: i32, max: i32) -> i32 {
        if self < min {
            min
        } else if self > max {
            max
        } else {
            self
        }
    }

    fn clamp(self, min: i32, max: i32) -> (r: i32) {
        if self < min {
            min
        } else if self > max {
            max
        } else {
            self
        }
    }
}

impl Clamp for u32 {
    type Elem = u32;

    open spec fn spec_clamp(self, min: u32, max: u32) -> u32 {
        if self < min {
            min
        } else if self > max {
            max
        } else {
            self
        }
    }

    fn clamp(self, min: u32, max: u32) -> (r: u32) {
        if self < min {
            min
        } else if self > max {
            max
        } else {
            self
        }
    }
}

impl Clamp for i64 {
    type Elem = i64;

    open spec fn spec_clamp(self, min: i64, max: i64) -> i64 {
        if self < min {
            min
        } else if self > max {
            max
        } else {
            self
        }
    }

    fn clamp(self, min: i64, max: i64) -> (r: i64) {
        if self < min {
            min
        } else if self > max {
            max
        } else {
            self
        }
    }
}

impl Clamp for u64 {
    type Elem = u64;

    open spec fn spec_clamp(self, min: u64, max: u64) -> u64 {
        if self < min {
            min
        } else if self > max {
            max
        } else {
            self
        }
    }

    fn clamp(self, min: u64, max: u64) -> (r: u64) {
        if self < min {
            min
        } else if self > max {
            max
        } else {
            self
        }
    }
}

impl Clamp for isize {
    type Elem = isize;

    open spec fn spec_clamp(self, min: isize, max: isize) -> isize {
        if self < min {
            min
        } else if self > max {
            max
        } else {
            self
        }
    }

    fn clamp(self, min: isize, max: isize) -> (r: isize) {
        if self < min {
            min
        } else if self > max {
            max
        } else {
            self
        }
    }
}

impl Clamp for usize {
    type Elem = usize;

    open spec fn spec_clamp(self, min: usize, max: usize) -> usize {
        if self < min {
            min
        } else if self > max {
            max
        } else {
            self
        }
    }

    fn clamp(self, min: usize, max: usize) -> (r: usize) {
        if self < min {
            min
        } else if self > max {
            max
        } else {
            self
        }
    }
}

} // verus!
