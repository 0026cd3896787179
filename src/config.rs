use crate::profile::FanLevel;
use vstd::prelude::*;

verus! {

/// CPU performance limits for one profile.
#[derive(Clone, Copy, Debug, PartialEq, Eq, Structural)]
pub struct PerfParams {
    pub min_percentage: u8,
    pub max_percentage: u8,
    /// `true` disables turbo.
    pub no_turbo: bool,
}

/// The performance limits of each profile.
#[derive(Clone, Copy, Debug, PartialEq, Eq, Structural)]
pub struct ModePerformance {
    pub normal: PerfParams,
    pub boost: PerfParams,
    pub silent: PerfParams,
}

/// The settings that the controller reads and changes. Loading and saving
/// them is the caller's part.
#[derive(Clone, Copy, Debug, PartialEq, Eq, Structural)]
pub struct Config {
    /// The code of the selected profile.
    pub fan_mode: u8,
    /// The battery charge limit, in percent.
    pub bat_charge_limit: u8,
    pub mode_performance: ModePerformance,
}

impl ModePerformance {
    pub open spec fn for_level(self, l: FanLevel) -> PerfParams {
        match l {
            FanLevel::Normal => self.normal,
            FanLevel::Boost => self.boost,
            FanLevel::Silent => self.silent,
        }
    }

    /// The limits of profile `l`.
    pub fn params(&self, l: FanLevel) -> (r: PerfParams)
        ensures
            r == self.for_level(l),
    {
        match l {
            FanLevel::Normal => self.normal,
            FanLevel::Boost => self.boost,
            FanLevel::Silent => self.silent,
        }
    }
}

} // verus!
