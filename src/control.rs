use crate::config::Config;
use crate::error::RogError;
use crate::profile::{code_of, level_of, next_level, FanLevel};
use vstd::prelude::*;

verus! {

/// The kernel control files that the controller writes.
#[derive(Clone, Copy, Debug, PartialEq, Eq, Structural)]
pub enum ControlPath {
    /// Fan control of newer machines; tried first.
    FanThrottlePolicy,
    /// Fan control of older machines.
    FanBoostMode,
    /// CPU boost toggle, used where the performance-state interface is absent.
    CpuBoost,
    /// Battery charge limit.
    BatteryChargeLimit,
}

pub open spec fn path_of(p: ControlPath) -> Seq<char> {
    match p {
        ControlPath::FanThrottlePolicy => "/sys/devices/platform/asus-nb-wmi/throttle_thermal_policy"@,
        ControlPath::FanBoostMode => "/sys/devices/platform/asus-nb-wmi/fan_boost_mode"@,
        ControlPath::CpuBoost => "/sys/devices/system/cpu/cpufreq/boost"@,
        ControlPath::BatteryChargeLimit => "/sys/class/power_supply/BAT0/charge_control_end_threshold"@,
    }
}

impl ControlPath {
    /// The file system path of this control file.
    pub fn path(self) -> (r: &'static str)
        ensures
            r@ == path_of(self),
    {
        match self {
            ControlPath::FanThrottlePolicy => "/sys/devices/platform/asus-nb-wmi/throttle_thermal_policy",
            ControlPath::FanBoostMode => "/sys/devices/platform/asus-nb-wmi/fan_boost_mode",
            ControlPath::CpuBoost => "/sys/devices/system/cpu/cpufreq/boost",
            ControlPath::BatteryChargeLimit => "/sys/class/power_supply/BAT0/charge_control_end_threshold",
        }
    }
}

/// What is written to a control file.
#[derive(Clone, Copy, Debug, PartialEq, Eq, Structural)]
pub enum Payload {
    /// A profile code, as decimal digits and a newline.
    FanMode(u8),
    /// Boost on (`"1"`) or off (`"0"`).
    Boost(bool),
    /// A charge limit, as decimal digits.
    ChargeLimit(u8),
}

/// The ASCII decimal digits of `n`.
pub open spec fn decimal(n: nat) -> Seq<u8>
    decreases n,
{
    if n < 10 {
        seq![(48 + n) as u8]
    } else {
        decimal(n / 10).push((48 + n % 10) as u8)
    }
}

pub open spec fn payload_bytes(p: Payload) -> Seq<u8> {
    match p {
        Payload::FanMode(n) => decimal(n as nat).push(10u8),
        Payload::Boost(on) => if on {
            seq![49u8]
        } else {
            seq![48u8]
        },
        Payload::ChargeLimit(n) => decimal(n as nat),
    }
}

fn push_decimal(v: &mut Vec<u8>, n: u8)
    ensures
        final(v)@ == old(v)@ + decimal(n as nat),
{
    reveal_with_fuel(decimal, 3);
    if n >= 100 {
        v.push(48 + n / 100);
        v.push(48 + (n / 10) % 10);
        v.push(48 + n % 10);
    } else if n >= 10 {
        v.push(48 + n / 10);
        v.push(48 + n % 10);
    } else {
        v.push(48 + n);
    }
    assert(final(v)@ =~= old(v)@ + decimal(n as nat));
}

impl Payload {
    /// The bytes to write.
    pub fn to_bytes(self) -> (r: Vec<u8>)
        ensures
            r@ == payload_bytes(self),
    {
        let mut v: Vec<u8> = Vec::new();
        match self {
            Payload::FanMode(n) => {
                push_decimal(&mut v, n);
                v.push(10);
            },
            Payload::Boost(on) => {
                v.push(if on { 49 } else { 48 });
            },
            Payload::ChargeLimit(n) => {
                push_decimal(&mut v, n);
            },
        }
        assert(v@ =~= payload_bytes(self));
        v
    }
}

/// The fan operation in progress: re-apply the stored profile, or select
/// the profile with the given code.
#[derive(Clone, Copy, Debug, PartialEq, Eq, Structural)]
pub enum FanRequest {
    Reload,
    Select(u8),
}

/// Where an operation stands: the step whose outcome is awaited.
#[derive(Clone, Copy, Debug, PartialEq, Eq, Structural)]
pub enum Phase {
    Idle,
    FanOpen(FanRequest, ControlPath),
    FanSave(ControlPath, u8),
    FanWrite(FanLevel),
    PStateProbe(FanLevel),
    PStateMin(FanLevel),
    PStateMax(FanLevel),
    PStateNoTurbo(FanLevel),
    BoostOpen(FanLevel),
    BoostWrite,
    ChargeOpen(u8),
    ChargeWrite(u8),
    ChargeSave,
}

/// The next thing for the caller to do. The caller reports its outcome to
/// [`RogCore::resume`]: whether the file opened, the write went through, the
/// performance-state interface is present, or the setting was accepted.
/// After `SaveConfig` the outcome is not looked at.
#[derive(Clone, Copy, Debug, PartialEq, Eq, Structural)]
pub enum Action {
    OpenForWrite(ControlPath),
    /// Write to the file opened last; a failure is only to be logged.
    Write(ControlPath, Payload),
    /// Persist the configuration.
    SaveConfig,
    /// Acquire the CPU performance-state interface.
    ProbePState,
    SetMinPerf(u8),
    SetMaxPerf(u8),
    SetNoTurbo(bool),
    /// The operation succeeded.
    Done,
    /// The operation stopped with this error.
    Fail(RogError),
}

/// The fan control file to use, given which of the two exist: the first
/// variant wins where both do.
pub open spec fn fan_path_of(type1_exists: bool, type2_exists: bool) -> Result<ControlPath, RogError> {
    if type1_exists {
        Ok(ControlPath::FanThrottlePolicy)
    } else if type2_exists {
        Ok(ControlPath::FanBoostMode)
    } else {
        Err(RogError::FanModeUnavailable)
    }
}

/// How a fan operation begins.
pub open spec fn fan_start(req: FanRequest, type1_exists: bool, type2_exists: bool) -> (Phase, Action) {
    match fan_path_of(type1_exists, type2_exists) {
        Ok(path) => (Phase::FanOpen(req, path), Action::OpenForWrite(path)),
        Err(e) => (Phase::Idle, Action::Fail(e)),
    }
}

/// The code of the profile after the stored one; an unknown stored code
/// counts as `Normal`.
pub open spec fn step_code(n: u8) -> u8 {
    code_of(next_level(level_of(n)))
}

/// Whether a charge limit lies in the nominal range 20 to 100.
pub open spec fn charge_limit_nominal(limit: u8) -> bool {
    20 <= limit <= 100
}

/// One step of an operation: from the phase, the outcome of the last action
/// and the configuration, the next phase, the next action and the
/// configuration after it.
pub open spec fn advance(p: Phase, ok: bool, c: Config) -> (Phase, Action, Config) {
    match p {
        Phase::Idle => (Phase::Idle, Action::Done, c),
        Phase::FanOpen(req, path) => if !ok {
            (Phase::Idle, Action::Fail(RogError::FanPathOpen), c)
        } else {
            match req {
                FanRequest::Reload => (
                    Phase::FanWrite(level_of(c.fan_mode)),
                    Action::Write(path, Payload::FanMode(c.fan_mode)),
                    c,
                ),
                FanRequest::Select(n) => (
                    Phase::FanSave(path, n),
                    Action::SaveConfig,
                    Config { fan_mode: n, ..c },
                ),
            }
        },
        Phase::FanSave(path, n) => (
            Phase::FanWrite(level_of(n)),
            Action::Write(path, Payload::FanMode(n)),
            c,
        ),
        Phase::FanWrite(l) => (Phase::PStateProbe(l), Action::ProbePState, c),
        Phase::PStateProbe(l) => if ok {
            (
                Phase::PStateMin(l),
                Action::SetMinPerf(c.mode_performance.for_level(l).min_percentage),
                c,
            )
        } else {
            (Phase::BoostOpen(l), Action::OpenForWrite(ControlPath::CpuBoost), c)
        },
        Phase::PStateMin(l) => if ok {
            (
                Phase::PStateMax(l),
                Action::SetMaxPerf(c.mode_performance.for_level(l).max_percentage),
                c,
            )
        } else {
            (Phase::Idle, Action::Fail(RogError::PStateSetting), c)
        },
        Phase::PStateMax(l) => if ok {
            (
                Phase::PStateNoTurbo(l),
                Action::SetNoTurbo(c.mode_performance.for_level(l).no_turbo),
                c,
            )
        } else {
            (Phase::Idle, Action::Fail(RogError::PStateSetting), c)
        },
        Phase::PStateNoTurbo(_) => if ok {
            (Phase::Idle, Action::Done, c)
        } else {
            (Phase::Idle, Action::Fail(RogError::PStateSetting), c)
        },
        Phase::BoostOpen(l) => if ok {
            (
                Phase::BoostWrite,
                Action::Write(
                    ControlPath::CpuBoost,
                    Payload::Boost(!c.mode_performance.for_level(l).no_turbo),
                ),
                c,
            )
        } else {
            (Phase::Idle, Action::Fail(RogError::BoostUnavailable), c)
        },
        Phase::BoostWrite => (Phase::Idle, Action::Done, c),
        Phase::ChargeOpen(limit) => if ok {
            (
                Phase::ChargeWrite(limit),
                Action::Write(ControlPath::BatteryChargeLimit, Payload::ChargeLimit(limit)),
                c,
            )
        } else {
            (Phase::Idle, Action::Fail(RogError::ChargeLimitUnavailable), c)
        },
        Phase::ChargeWrite(limit) => (
            Phase::ChargeSave,
            Action::SaveConfig,
            Config { bat_charge_limit: limit, ..c },
        ),
        Phase::ChargeSave => (Phase::Idle, Action::Done, c),
    }
}

/// ROG device controller: holds the operation in progress.
pub struct RogCore {
    phase: Phase,
}

impl View for RogCore {
    type V = Phase;

    closed spec fn view(&self) -> Phase {
        self.phase
    }
}

impl RogCore {
    /// A controller with no operation in progress.
    pub fn new(vendor: u16, product: u16) -> (r: RogCore)
        ensures
            r@ == Phase::Idle,
    {
        RogCore { phase: Phase::Idle }
    }

    /// The fan control file to use, given which of the two variants exist.
    pub fn get_fan_path(type1_exists: bool, type2_exists: bool) -> (r: Result<ControlPath, RogError>)
        ensures
            r == fan_path_of(type1_exists, type2_exists),
    {
        if type1_exists {
            Ok(ControlPath::FanThrottlePolicy)
        } else if type2_exists {
            Ok(ControlPath::FanBoostMode)
        } else {
            Err(RogError::FanModeUnavailable)
        }
    }

    fn start_fan(&mut self, req: FanRequest, type1_exists: bool, type2_exists: bool) -> (r: Action)
        ensures
            (final(self)@, r) == fan_start(req, type1_exists, type2_exists),
    {
        match RogCore::get_fan_path(type1_exists, type2_exists) {
            Ok(path) => {
                self.phase = Phase::FanOpen(req, path);
                Action::OpenForWrite(path)
            },
            Err(e) => {
                self.phase = Phase::Idle;
                Action::Fail(e)
            },
        }
    }

    /// Begins re-applying the profile stored in the configuration, given
    /// which fan control files exist.
    pub fn fan_mode_reload(&mut self, type1_exists: bool, type2_exists: bool) -> (r: Action)
        ensures
            (final(self)@, r) == fan_start(FanRequest::Reload, type1_exists, type2_exists),
    {
        self.start_fan(FanRequest::Reload, type1_exists, type2_exists)
    }

    /// Begins selecting the profile with code `n`, given which fan control
    /// files exist. The code is stored only once the fan file has opened.
    pub fn set_fan_mode(&mut self, n: u8, type1_exists: bool, type2_exists: bool) -> (r: Action)
        ensures
            (final(self)@, r) == fan_start(FanRequest::Select(n), type1_exists, type2_exists),
    {
        self.start_fan(FanRequest::Select(n), type1_exists, type2_exists)
    }

    /// Begins selecting the profile after the one stored in `config`, which
    /// the caller has just reloaded.
    pub fn fan_mode_step(&mut self, config: &Config, type1_exists: bool, type2_exists: bool) -> (r:
        Action)
        ensures
            (final(self)@, r) == fan_start(
                FanRequest::Select(step_code(config.fan_mode)),
                type1_exists,
                type2_exists,
            ),
    {
        let n = FanLevel::from_code(config.fan_mode).next().code();
        self.set_fan_mode(n, type1_exists, type2_exists)
    }

    /// Begins writing the charge limit `limit`, then storing it. A limit
    /// outside 20 to 100 is written all the same.
    pub fn set_charge_limit(&mut self, limit: u8) -> (r: Action)
        ensures
            final(self)@ == Phase::ChargeOpen(limit),
            r == Action::OpenForWrite(ControlPath::BatteryChargeLimit),
    {
        self.phase = Phase::ChargeOpen(limit);
        Action::OpenForWrite(ControlPath::BatteryChargeLimit)
    }

    /// Begins re-applying the charge limit of `config`, which the caller has
    /// just reloaded.
    pub fn bat_charge_limit_reload(&mut self, config: &Config) -> (r: Action)
        ensures
            final(self)@ == Phase::ChargeOpen(config.bat_charge_limit),
            r == Action::OpenForWrite(ControlPath::BatteryChargeLimit),
    {
        self.set_charge_limit(config.bat_charge_limit)
    }

    /// Whether `limit` lies in the nominal range; one outside it deserves a
    /// warning.
    pub fn charge_limit_nominal(limit: u8) -> (r: bool)
        ensures
            r == charge_limit_nominal(limit),
    {
        20 <= limit && limit <= 100
    }

    /// Takes the outcome of the last action and gives the next one.
    pub fn resume(&mut self, ok: bool, config: &mut Config) -> (r: Action)
        ensures
            (final(self)@, r, *final(config)) == advance(old(self)@, ok, *old(config)),
    {
        let (p, a) = match self.phase {
            Phase::Idle => (Phase::Idle, Action::Done),
            Phase::FanOpen(req, path) => if !ok {
                (Phase::Idle, Action::Fail(RogError::FanPathOpen))
            } else {
                match req {
                    FanRequest::Reload => (
                        Phase::FanWrite(FanLevel::from_code(config.fan_mode)),
                        Action::Write(path, Payload::FanMode(config.fan_mode)),
                    ),
                    FanRequest::Select(n) => {
                        config.fan_mode = n;
                        (Phase::FanSave(path, n), Action::SaveConfig)
                    },
                }
            },
            Phase::FanSave(path, n) => (
                Phase::FanWrite(FanLevel::from_code(n)),
                Action::Write(path, Payload::FanMode(n)),
            ),
            Phase::FanWrite(l) => (Phase::PStateProbe(l), Action::ProbePState),
            Phase::PStateProbe(l) => if ok {
                (
                    Phase::PStateMin(l),
                    Action::SetMinPerf(config.mode_performance.params(l).min_percentage),
                )
            } else {
                (Phase::BoostOpen(l), Action::OpenForWrite(ControlPath::CpuBoost))
            },
            Phase::PStateMin(l) => if ok {
                (
                    Phase::PStateMax(l),
                    Action::SetMaxPerf(config.mode_performance.params(l).max_percentage),
                )
            } else {
                (Phase::Idle, Action::Fail(RogError::PStateSetting))
            },
            Phase::PStateMax(l) => if ok {
                (
                    Phase::PStateNoTurbo(l),
                    Action::SetNoTurbo(config.mode_performance.params(l).no_turbo),
                )
            } else {
                (Phase::Idle, Action::Fail(RogError::PStateSetting))
            },
            Phase::PStateNoTurbo(_) => if ok {
                (Phase::Idle, Action::Done)
            } else {
                (Phase::Idle, Action::Fail(RogError::PStateSetting))
            },
            Phase::BoostOpen(l) => if ok {
                (
                    Phase::BoostWrite,
                    Action::Write(
                        ControlPath::CpuBoost,
                        Payload::Boost(!config.mode_performance.params(l).no_turbo),
                    ),
                )
            } else {
                (Phase::Idle, Action::Fail(RogError::BoostUnavailable))
            },
            Phase::BoostWrite => (Phase::Idle, Action::Done),
            Phase::ChargeOpen(limit) => if ok {
                (
                    Phase::ChargeWrite(limit),
                    Action::Write(ControlPath::BatteryChargeLimit, Payload::ChargeLimit(limit)),
                )
            } else {
                (Phase::Idle, Action::Fail(RogError::ChargeLimitUnavailable))
            },
            Phase::ChargeWrite(limit) => {
                config.bat_charge_limit = limit;
                (Phase::ChargeSave, Action::SaveConfig)
            },
            Phase::ChargeSave => (Phase::Idle, Action::Done),
        };
        self.phase = p;
        a
    }
}

/// Where neither fan control file exists, every fan operation fails at once
/// with `FanModeUnavailable`, leaving no operation in progress, so that the
/// configuration is not changed: it changes only once a fan control file
/// has opened or a charge limit has been written.
pub proof fn lemma_fan_absent_fails(req: FanRequest, p: Phase, ok: bool, c: Config)
    ensures
        fan_start(req, false, false) == (Phase::Idle, Action::Fail(RogError::FanModeUnavailable)),
        advance(Phase::Idle, ok, c).2 == c,
        advance(p, ok, c).2 != c ==> (ok && p is FanOpen) || p is ChargeWrite,
{
}

/// Where only the second fan control file exists, it is the one opened.
pub proof fn lemma_second_fan_path(req: FanRequest)
    ensures
        fan_path_of(false, true) == Ok::<ControlPath, RogError>(ControlPath::FanBoostMode),
        fan_start(req, false, true).1 == Action::OpenForWrite(ControlPath::FanBoostMode),
{
}

/// A refused performance-state setting ends the operation with
/// `PStateSetting`; turbo is set only right after the maximum was accepted.
pub proof fn lemma_pstate_refusal_stops(l: FanLevel, p: Phase, ok: bool, c: Config)
    ensures
        advance(Phase::PStateMin(l), false, c) == (
            Phase::Idle,
            Action::Fail(RogError::PStateSetting),
            c,
        ),
        advance(Phase::PStateMax(l), false, c) == (
            Phase::Idle,
            Action::Fail(RogError::PStateSetting),
            c,
        ),
        advance(p, ok, c).1 is SetNoTurbo ==> ok && p is PStateMax,
        advance(p, ok, c).1 is SetMaxPerf ==> ok && p is PStateMin,
{
}

/// Without the performance-state interface the boost toggle is opened, and
/// it is written `"0"` for a profile that disables turbo and `"1"` for one
/// that does not.
pub proof fn lemma_boost_fallback_inverts(l: FanLevel, c: Config)
    ensures
        advance(Phase::PStateProbe(l), false, c) == (
            Phase::BoostOpen(l),
            Action::OpenForWrite(ControlPath::CpuBoost),
            c,
        ),
        advance(Phase::BoostOpen(l), true, c).1 == Action::Write(
            ControlPath::CpuBoost,
            Payload::Boost(!c.mode_performance.for_level(l).no_turbo),
        ),
        payload_bytes(Payload::Boost(!c.mode_performance.for_level(l).no_turbo)) == if c.mode_performance.for_level(l).no_turbo {
            seq![48u8]
        } else {
            seq![49u8]
        },
{
}

} // verus!
