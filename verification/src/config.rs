//! Validated configuration values: the logo size percentage, and the errors
//! a bad configuration produces.
//!
//! The percentage is held in hundredths of a percent, so that fractional
//! command-line values such as 0.5 or 100.01 are represented and rejected
//! exactly. The valid range [1, 100] percent is [100, 10000] hundredths.

use vstd::prelude::*;

verus! {

/// A configuration that cannot be used.
#[derive(Clone, Copy, Debug, PartialEq, Eq, Structural)]
pub enum ConfigError {
    /// The size percentage lies outside the inclusive range [1, 100].
    PercentageOutOfRange,
    /// The logo image has a zero width or height, so it has no aspect ratio
    /// to preserve.
    EmptyLogo,
}

/// Whether a percentage, in hundredths of a percent, lies in [1, 100].
pub open spec fn percentage_in_range(hundredths: u32) -> bool {
    100 <= hundredths <= 10000
}

/// A validated logo size: a percentage of the base image, in hundredths of
/// a percent, always within [1, 100] percent.
#[derive(Clone, Copy, Debug)]
pub struct SizeSpec {
    hundredths: u32,
}

impl SizeSpec {
    /// The size in hundredths of a percent.
    pub closed spec fn spec_hundredths(self) -> u32 {
        self.hundredths
    }

    #[verifier::type_invariant]
    pub closed spec fn inv(self) -> bool {
        percentage_in_range(self.hundredths)
    }

    /// Validate a percentage given in hundredths of a percent; values
    /// outside [1, 100] percent are rejected, exactly at the bounds.
    pub fn new(hundredths: u32) -> (r: Result<SizeSpec, ConfigError>)
        ensures
            percentage_in_range(hundredths) <==> (r matches Ok(s) && s.spec_hundredths()
                == hundredths),
            !percentage_in_range(hundredths) <==> r == Err::<SizeSpec, ConfigError>(
                ConfigError::PercentageOutOfRange,
            ),
    {
        if 100 <= hundredths && hundredths <= 10000 {
            Ok(SizeSpec { hundredths })
        } else {
            Err(ConfigError::PercentageOutOfRange)
        }
    }

    /// The size in hundredths of a percent, always within [100, 10000].
    pub fn hundredths(&self) -> (h: u32)
        ensures
            h == self.spec_hundredths(),
            percentage_in_range(h),
    {
        proof {
            use_type_invariant(self);
        }
        self.hundredths
    }
}

} // verus!
