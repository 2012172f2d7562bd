//! The daily cycle as a state machine: sensing, dosing, a countdown by the minute, and
//! the last part of a minute. Each phase gives one step for the device to carry out.

use vstd::prelude::*;
use crate::config::{
    ConfigError, CycleSchedule, DoseConfig, Thresholds, DAY_MS, MINUTE_MS, SENSORS_ON_MS,
};
use crate::countdown::{countdown_text, CountDown};
use crate::decision::{decide, spec_decide, Decision};
use crate::display::LCD_COLUMNS;

verus! {

/// Both sensor readings of one cycle.
#[derive(Clone, Copy, Debug, PartialEq, Eq, Structural)]
pub struct SensorSample {
    pub water_reading: u16,
    pub moisture_reading: u16,
}

/// Where the controller stands in its cycle.
#[derive(Clone, Copy, Debug, PartialEq, Eq, Structural)]
pub enum Phase {
    /// The sensors are powered, then sampled.
    Sensing,
    /// The sample is judged and the pump runs or stays off.
    Dosing(SensorSample),
    /// This many whole minutes are left until the next sensing.
    Countdown(u64),
    /// Less than a minute is left until the next sensing.
    LastMinute,
}

/// What the display shows during a step.
#[derive(Clone, Copy, Debug, PartialEq, Eq)]
pub enum Screen {
    /// The sensors are on.
    SensorsOn,
    /// The decision of this cycle.
    Verdict(Decision),
    /// Time left until the next sensing, as the ASCII text `HHh:MMmin`.
    TimeLeft([u8; 9]),
    /// The time left does not fit the display's fields.
    TimeLeftError,
    /// Less than a minute is left.
    UnderOneMinute,
}

impl Screen {
    /// The text of the first display line.
    pub open spec fn spec_first_row(self) -> Seq<char> {
        match self {
            Screen::SensorsOn => "Water & moisture"@,
            Screen::Verdict(d) => d.spec_rows().0,
            Screen::TimeLeft(_) => "Measures in"@,
            Screen::TimeLeftError => "Error: countdown"@,
            Screen::UnderOneMinute => "Measures in"@,
        }
    }

    /// The text of the second display line, where it is fixed; the time left is shown
    /// from its bytes instead.
    pub open spec fn spec_second_row(self) -> Option<Seq<char>> {
        match self {
            Screen::SensorsOn => Some("sensors ON"@),
            Screen::Verdict(d) => Some(d.spec_rows().1),
            Screen::TimeLeft(_) => None,
            Screen::TimeLeftError => Some("out of range"@),
            Screen::UnderOneMinute => Some("less than 1 min"@),
        }
    }

    /// The text of the first display line.
    pub fn first_row(&self) -> (r: &'static str)
        ensures
            r@ == self.spec_first_row(),
            r@.len() <= LCD_COLUMNS,
    {
        proof {
            reveal_strlit("Water & moisture");
            reveal_strlit("Measures in");
            reveal_strlit("Error: countdown");
            reveal_strlit("sensors ON");
            reveal_strlit("out of range");
            reveal_strlit("less than 1 min");
        }
        match self {
            Screen::SensorsOn => "Water & moisture",
            Screen::Verdict(d) => d.rows().0,
            Screen::TimeLeft(_) => "Measures in",
            Screen::TimeLeftError => "Error: countdown",
            Screen::UnderOneMinute => "Measures in",
        }
    }

    /// The text of the second display line, or `None` for the time left, whose line is
    /// the ASCII text that the screen holds.
    pub fn second_row(&self) -> (r: Option<&'static str>)
        ensures
            r matches Some(t) ==> self.spec_second_row() == Some(t@) && t@.len() <= LCD_COLUMNS,
            r is None ==> self.spec_second_row() is None,
    {
        proof {
            reveal_strlit("Water & moisture");
            reveal_strlit("Measures in");
            reveal_strlit("Error: countdown");
            reveal_strlit("sensors ON");
            reveal_strlit("out of range");
            reveal_strlit("less than 1 min");
        }
        match self {
            Screen::SensorsOn => Some("sensors ON"),
            Screen::Verdict(d) => Some(d.rows().1),
            Screen::TimeLeft(_) => None,
            Screen::TimeLeftError => Some("out of range"),
            Screen::UnderOneMinute => Some("less than 1 min"),
        }
    }
}

/// One step of the cycle: set both power lines, show the screen, wait `hold_ms`, then
/// sample both sensors if `sample_after_hold` is set.
#[derive(Clone, Copy, Debug, PartialEq, Eq)]
pub struct Step {
    pub sensor_power: bool,
    pub pump_power: bool,
    pub screen: Screen,
    pub hold_ms: u64,
    pub sample_after_hold: bool,
}

/// The limits and durations that the controller runs with.
#[derive(Clone, Copy, Debug, PartialEq, Eq, Structural)]
pub struct Controller {
    pub limits: Thresholds,
    pub schedule: CycleSchedule,
}

/// The phase that follows `phase`; `sample` is what sensing produced, if anything.
pub open spec fn spec_next_phase(schedule: CycleSchedule, phase: Phase, sample: Option<SensorSample>) -> Phase {
    match phase {
        Phase::Sensing => match sample {
            Some(s) => Phase::Dosing(s),
            None => Phase::Sensing,
        },
        Phase::Dosing(_) => if schedule.next_check_minutes >= 1 {
            Phase::Countdown(schedule.next_check_minutes)
        } else {
            Phase::LastMinute
        },
        Phase::Countdown(mins) => if mins > 1 {
            Phase::Countdown((mins - 1) as u64)
        } else {
            Phase::LastMinute
        },
        Phase::LastMinute => Phase::Sensing,
    }
}

/// The phase `n` steps after `phase` when no sample is handed in.
pub open spec fn phase_after(schedule: CycleSchedule, phase: Phase, n: nat) -> Phase
    decreases n,
{
    if n == 0 {
        phase
    } else {
        phase_after(schedule, spec_next_phase(schedule, phase, None), (n - 1) as nat)
    }
}

impl Controller {
    /// How long the step of `phase` holds, in milliseconds.
    pub open spec fn spec_hold_ms(self, phase: Phase) -> u64 {
        match phase {
            Phase::Sensing => self.schedule.sensors_on_duration_ms,
            Phase::Dosing(_) => self.schedule.pump_on_duration_ms,
            Phase::Countdown(_) => MINUTE_MS,
            Phase::LastMinute => self.schedule.next_check_remainder_ms,
        }
    }

    /// The holds of the `n` steps that start at `phase`, with no sample handed in.
    pub open spec fn hold_total(self, phase: Phase, n: nat) -> nat
        decreases n,
    {
        if n == 0 {
            0
        } else {
            self.spec_hold_ms(phase) as nat + self.hold_total(
                spec_next_phase(self.schedule, phase, None),
                (n - 1) as nat,
            )
        }
    }

    /// The limits are ordered and the durations agree.
    pub open spec fn wf(self) -> bool {
        self.limits.wf() && self.schedule.wf()
    }

    /// A controller from its limits and dose, with the standard sensing time. Refused as
    /// `Thresholds::new` and `CycleSchedule::new` refuse.
    pub fn new(limits: Thresholds, dose: &DoseConfig) -> (r: Result<Controller, ConfigError>)
        ensures
            !limits.wf() ==> r == Err::<Controller, ConfigError>(ConfigError::ThresholdOrder),
            limits.wf() && !dose.wf() ==> r == Err::<Controller, ConfigError>(
                ConfigError::ZeroFlowRate,
            ),
            limits.wf() && dose.wf() && dose.spec_pump_on_ms() < SENSORS_ON_MS ==> r == Err::<
                Controller,
                ConfigError,
            >(ConfigError::PumpShorterThanSensing),
            limits.wf() && dose.wf() && SENSORS_ON_MS <= dose.spec_pump_on_ms()
                && dose.spec_pump_on_ms() - SENSORS_ON_MS > DAY_MS ==> r == Err::<
                Controller,
                ConfigError,
            >(ConfigError::CycleTooLong),
            limits.wf() && dose.wf() && SENSORS_ON_MS <= dose.spec_pump_on_ms()
                && dose.spec_pump_on_ms() - SENSORS_ON_MS <= DAY_MS ==> (r matches Ok(c)
                && c.wf() && c.limits == limits && c.schedule.sensors_on_duration_ms
                == SENSORS_ON_MS && c.schedule.pump_on_duration_ms == dose.spec_pump_on_ms()),
    {
        if limits.moisture_sensor_lower_limit >= limits.moisture_sensor_dry_soil_limit {
            return Err(ConfigError::ThresholdOrder);
        }
        match CycleSchedule::new(dose, SENSORS_ON_MS) {
            Ok(schedule) => Ok(Controller { limits, schedule }),
            Err(e) => Err(e),
        }
    }

    /// The controller as built: the default limits and the standard dose, which give a
    /// pump time of 6315 ms and a wait of 1439 minutes and 56685 ms.
    pub fn standard() -> (r: Controller)
        ensures
            r.wf(),
            r.limits == Thresholds::default_spec(),
            r.schedule == (CycleSchedule {
                sensors_on_duration_ms: 3000,
                pump_on_duration_ms: 6315,
                next_check_delay_ms: 86_396_685,
                next_check_minutes: 1439,
                next_check_remainder_ms: 56685,
            }),
    {
        let dose = DoseConfig::standard();
        assert(dose.spec_pump_on_ms() == 6315);
        Controller::new(Thresholds::default(), &dose).unwrap()
    }

    /// The phase that follows `phase`. After sensing the sample leads to dosing; the
    /// countdown runs from the whole minutes of the wait down to one, then the last
    /// part of a minute, then sensing again.
    pub fn next_phase(&self, phase: Phase, sample: Option<SensorSample>) -> (r: Phase)
        ensures
            r == spec_next_phase(self.schedule, phase, sample),
    {
        match phase {
            Phase::Sensing => match sample {
                Some(s) => Phase::Dosing(s),
                None => Phase::Sensing,
            },
            Phase::Dosing(_) => if self.schedule.next_check_minutes >= 1 {
                Phase::Countdown(self.schedule.next_check_minutes)
            } else {
                Phase::LastMinute
            },
            Phase::Countdown(mins) => if mins > 1 {
                Phase::Countdown(mins - 1)
            } else {
                Phase::LastMinute
            },
            Phase::LastMinute => Phase::Sensing,
        }
    }

    /// The step to carry out in `phase`. Dosing holds for the pump's running time whatever
    /// the decision, so a cycle lasts the same whether or not the plant is watered.
    pub fn step(&self, phase: Phase) -> (r: Step)
        ensures
            r.hold_ms == self.spec_hold_ms(phase),
            phase == Phase::Sensing ==> r == (Step {
                sensor_power: true,
                pump_power: false,
                screen: Screen::SensorsOn,
                hold_ms: self.schedule.sensors_on_duration_ms,
                sample_after_hold: true,
            }),
            phase matches Phase::Dosing(s) ==> r == (Step {
                sensor_power: false,
                pump_power: spec_decide(s.water_reading, s.moisture_reading, self.limits).spec_pump_on(),
                screen: Screen::Verdict(spec_decide(s.water_reading, s.moisture_reading, self.limits)),
                hold_ms: self.schedule.pump_on_duration_ms,
                sample_after_hold: false,
            }),
            phase matches Phase::Countdown(mins) ==> {
                &&& !r.sensor_power && !r.pump_power
                &&& r.hold_ms == MINUTE_MS
                &&& !r.sample_after_hold
                &&& mins < 6000 ==> (r.screen matches Screen::TimeLeft(text)
                    && text@ == countdown_text(mins as nat / 60, mins as nat % 60))
                &&& mins >= 6000 ==> r.screen == Screen::TimeLeftError
            },
            phase == Phase::LastMinute ==> r == (Step {
                sensor_power: false,
                pump_power: false,
                screen: Screen::UnderOneMinute,
                hold_ms: self.schedule.next_check_remainder_ms,
                sample_after_hold: false,
            }),
    {
        match phase {
            Phase::Sensing => Step {
                sensor_power: true,
                pump_power: false,
                screen: Screen::SensorsOn,
                hold_ms: self.schedule.sensors_on_duration_ms,
                sample_after_hold: true,
            },
            Phase::Dosing(s) => {
                let decision = decide(s.water_reading, s.moisture_reading, &self.limits);
                Step {
                    sensor_power: false,
                    pump_power: decision.pump_on(),
                    screen: Screen::Verdict(decision),
                    hold_ms: self.schedule.pump_on_duration_ms,
                    sample_after_hold: false,
                }
            },
            Phase::Countdown(mins) => {
                let screen = if mins > u32::MAX as u64 {
                    Screen::TimeLeftError
                } else {
                    let mut text: [u8; 9] = [0u8; 9];
                    match CountDown::new(mins as u32).to_str(&mut text) {
                        Ok(()) => Screen::TimeLeft(text),
                        Err(_) => Screen::TimeLeftError,
                    }
                };
                Step {
                    sensor_power: false,
                    pump_power: false,
                    screen,
                    hold_ms: MINUTE_MS,
                    sample_after_hold: false,
                }
            },
            Phase::LastMinute => Step {
                sensor_power: false,
                pump_power: false,
                screen: Screen::UnderOneMinute,
                hold_ms: self.schedule.next_check_remainder_ms,
                sample_after_hold: false,
            },
        }
    }
}

/// A countdown from `mins` takes `mins` steps of a minute each and ends in the last minute.
pub proof fn lemma_countdown_walk(c: Controller, mins: u64)
    requires
        mins >= 1,
    ensures
        phase_after(c.schedule, Phase::Countdown(mins), mins as nat) == Phase::LastMinute,
        c.hold_total(Phase::Countdown(mins), mins as nat) == mins * MINUTE_MS,
    decreases mins,
{
    reveal_with_fuel(phase_after, 2);
    reveal_with_fuel(Controller::hold_total, 2);
    if mins > 1 {
        lemma_countdown_walk(c, (mins - 1) as u64);
    }
}

/// Every cycle lasts as long, whatever the sample and so whatever the decision: after
/// sensing, the dosing step and the `m` minutes of countdown and the last minute lead back
/// to sensing, and all holds of the cycle add up to a day and twice the sensing time.
pub proof fn lemma_cycle_length(c: Controller, sample: SensorSample)
    requires
        c.wf(),
    ensures
        spec_next_phase(c.schedule, Phase::Sensing, Some(sample)) == Phase::Dosing(sample),
        phase_after(
            c.schedule,
            Phase::Dosing(sample),
            c.schedule.next_check_minutes as nat + 2,
        ) == Phase::Sensing,
        c.spec_hold_ms(Phase::Sensing) + c.hold_total(
            Phase::Dosing(sample),
            c.schedule.next_check_minutes as nat + 2,
        ) == DAY_MS + 2 * c.schedule.sensors_on_duration_ms,
{
    let m = c.schedule.next_check_minutes;
    let delay = c.schedule.next_check_delay_ms;
    vstd::arithmetic::div_mod::lemma_fundamental_div_mod(delay as int, MINUTE_MS as int);
    assert(m * MINUTE_MS + c.schedule.next_check_remainder_ms == delay);
    let dosing = Phase::Dosing(sample);
    let n = m as nat + 2;
    reveal_with_fuel(phase_after, 2);
    reveal_with_fuel(Controller::hold_total, 2);
    assert(phase_after(c.schedule, dosing, n) == phase_after(
        c.schedule,
        spec_next_phase(c.schedule, dosing, None),
        (n - 1) as nat,
    ));
    assert(c.hold_total(dosing, n) == c.schedule.pump_on_duration_ms + c.hold_total(
        spec_next_phase(c.schedule, dosing, None),
        (n - 1) as nat,
    ));
    if m >= 1 {
        let countdown = Phase::Countdown(m);
        assert(spec_next_phase(c.schedule, dosing, None) == countdown);
        lemma_countdown_walk(c, m);
        lemma_walk_split(c, countdown, m as nat, 1);
        assert((n - 1) as nat == m as nat + 1);
        assert(phase_after(c.schedule, Phase::LastMinute, 1) == Phase::Sensing);
        assert(c.hold_total(Phase::LastMinute, 1) == c.schedule.next_check_remainder_ms);
    } else {
        assert(spec_next_phase(c.schedule, dosing, None) == Phase::LastMinute);
        assert(phase_after(c.schedule, Phase::LastMinute, 1) == Phase::Sensing);
    }
}

/// A walk of `n` steps followed by `k` more: its end and its holds add up.
pub proof fn lemma_walk_split(c: Controller, phase: Phase, n: nat, k: nat)
    ensures
        phase_after(c.schedule, phase, n + k) == phase_after(
            c.schedule,
            phase_after(c.schedule, phase, n),
            k,
        ),
        c.hold_total(phase, n + k) == c.hold_total(phase, n) + c.hold_total(
            phase_after(c.schedule, phase, n),
            k,
        ),
    decreases n,
{
    if n > 0 {
        lemma_walk_split(c, spec_next_phase(c.schedule, phase, None), (n - 1) as nat, k);
        assert((n - 1) as nat + k == (n + k - 1) as nat);
    }
}

} // verus!
