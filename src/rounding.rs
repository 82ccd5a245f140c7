use vstd::prelude::*;

verus! {

/// IEEE-754 rounding-direction attribute.
#[derive(Clone, Copy, Debug, PartialEq, Eq, Structural)]
pub enum RoundingMode {
    /// round to nearest, ties to even
    TiesToEven,
    /// round toward zero
    TowardZero,
    /// round toward negative infinity
    TowardNegative,
    /// round toward positive infinity
    TowardPositive,
    /// round to nearest, ties away from zero
    TiesToAway,
}

impl RoundingMode {
    /// Numeric code of the mode, used to key the kernel's results.
    pub open spec fn code(self) -> u8 {
        match self {
            RoundingMode::TiesToEven => 0,
            RoundingMode::TowardZero => 1,
            RoundingMode::TowardNegative => 2,
            RoundingMode::TowardPositive => 3,
            RoundingMode::TiesToAway => 4,
        }
    }

    /// The numeric code of this mode.
    pub fn to_code(&self) -> (r: u8)
        ensures
            r == self.code(),
    {
        match self {
            RoundingMode::TiesToEven => 0,
            RoundingMode::TowardZero => 1,
            RoundingMode::TowardNegative => 2,
            RoundingMode::TowardPositive => 3,
            RoundingMode::TiesToAway => 4,
        }
    }

    /// The mode with numeric code `c`, if there is one.
    pub fn from_code(c: u8) -> (r: Option<RoundingMode>)
        ensures
            c <= 4 <==> r.is_some(),
            r.is_some() ==> r.unwrap().code() == c,
    {
        match c {
            0 => Some(RoundingMode::TiesToEven),
            1 => Some(RoundingMode::TowardZero),
            2 => Some(RoundingMode::TowardNegative),
            3 => Some(RoundingMode::TowardPositive),
            4 => Some(RoundingMode::TiesToAway),
            _ => None,
        }
    }
}

impl Default for RoundingMode {
    fn default() -> (r: RoundingMode)
        ensures
            r == RoundingMode::TiesToEven,
    {
        RoundingMode::TiesToEven
    }
}

} // verus!
