//! Build-time settings of the controller and the durations derived from them.

use vstd::prelude::*;

verus! {

/// One day in milliseconds.
pub const DAY_MS: u64 = 86_400_000;

/// One minute in milliseconds.
pub const MINUTE_MS: u64 = 60_000;

/// How long the sensors are powered before they are sampled, in milliseconds.
pub const SENSORS_ON_MS: u64 = 3000;

/// A setting that the controller cannot run with; found at start-up, before the first cycle.
#[derive(Clone, Copy, Debug, PartialEq, Eq, Structural)]
pub enum ConfigError {
    /// The lower moisture limit is not below the dry-soil limit.
    ThresholdOrder,
    /// The pump's flow rate is not a positive number of millilitres per millisecond.
    ZeroFlowRate,
    /// The pump runs for less time than the sensors are on.
    PumpShorterThanSensing,
    /// Sensing and pumping take longer than a day.
    CycleTooLong,
}

/// The three sensor limits that the watering decision compares readings with.
#[derive(Clone, Copy, Debug, PartialEq, Eq, Structural)]
pub struct Thresholds {
    /// A water reading below this means the water sensor touches no water.
    pub water_sensor_limit: u16,
    /// A moisture reading below this means the moisture sensor is not in soil.
    pub moisture_sensor_lower_limit: u16,
    /// A moisture reading below this means the soil is dry enough to water.
    pub moisture_sensor_dry_soil_limit: u16,
}

impl Thresholds {
    /// The limits are ordered: the lower moisture limit is below the dry-soil limit.
    pub open spec fn wf(self) -> bool {
        self.moisture_sensor_lower_limit < self.moisture_sensor_dry_soil_limit
    }

    /// Limits from their three values, refused unless the moisture limits are ordered.
    pub fn new(water_sensor_limit: u16, moisture_sensor_lower_limit: u16, moisture_sensor_dry_soil_limit: u16) -> (r: Result<Thresholds, ConfigError>)
        ensures
            moisture_sensor_lower_limit < moisture_sensor_dry_soil_limit ==> r == Ok::<Thresholds, ConfigError>(Thresholds {
                water_sensor_limit,
                moisture_sensor_lower_limit,
                moisture_sensor_dry_soil_limit,
            }),
            moisture_sensor_lower_limit >= moisture_sensor_dry_soil_limit ==> r == Err::<Thresholds, ConfigError>(ConfigError::ThresholdOrder),
            r matches Ok(t) ==> t.wf(),
    {
        if moisture_sensor_lower_limit < moisture_sensor_dry_soil_limit {
            Ok(Thresholds { water_sensor_limit, moisture_sensor_lower_limit, moisture_sensor_dry_soil_limit })
        } else {
            Err(ConfigError::ThresholdOrder)
        }
    }
}

impl Thresholds {
    /// The limits the controller is built with: water 100, moisture 20 and 500.
    pub open spec fn default_spec() -> Thresholds {
        Thresholds { water_sensor_limit: 100, moisture_sensor_lower_limit: 20, moisture_sensor_dry_soil_limit: 500 }
    }
}

impl Default for Thresholds {
    /// The limits the controller is built with: water 100, moisture 20 and 500.
    fn default() -> (r: Thresholds)
        ensures
            r == Thresholds::default_spec(),
            r.wf(),
    {
        Thresholds { water_sensor_limit: 100, moisture_sensor_lower_limit: 20, moisture_sensor_dry_soil_limit: 500 }
    }
}

/// The dose of water given per watering and the pump's flow rate.
/// The rate is `flow_ml` millilitres in `flow_ms` milliseconds.
#[derive(Clone, Copy, Debug, PartialEq, Eq, Structural)]
pub struct DoseConfig {
    pub water_to_plant_ml: u32,
    pub flow_ml: u32,
    pub flow_ms: u32,
}

impl DoseConfig {
    /// The flow rate is positive and finite.
    pub open spec fn wf(self) -> bool {
        self.flow_ml > 0 && self.flow_ms > 0
    }

    /// How long the pump runs to give the dose, in whole milliseconds (truncated).
    pub open spec fn spec_pump_on_ms(self) -> nat {
        (self.water_to_plant_ml as nat * self.flow_ms as nat / self.flow_ml as nat) as nat
    }

    /// The controller's dose: 300 ml at 950 ml per 20 s.
    pub fn standard() -> (r: DoseConfig)
        ensures
            r.water_to_plant_ml == 300,
            r.flow_ml == 950,
            r.flow_ms == 20_000,
            r.wf(),
    {
        DoseConfig { water_to_plant_ml: 300, flow_ml: 950, flow_ms: 20_000 }
    }

    /// The pump's running time for the dose, in whole milliseconds, truncated.
    pub fn pump_on_duration_ms(&self) -> (r: Result<u64, ConfigError>)
        ensures
            self.wf() ==> (r matches Ok(ms) && ms == self.spec_pump_on_ms()),
            !self.wf() ==> r == Err::<u64, ConfigError>(ConfigError::ZeroFlowRate),
    {
        if self.flow_ml == 0 || self.flow_ms == 0 {
            return Err(ConfigError::ZeroFlowRate);
        }
        let water: u64 = self.water_to_plant_ml as u64;
        let ms: u64 = self.flow_ms as u64;
        proof {
            assert(water * ms <= u32::MAX as nat * u32::MAX as nat) by (nonlinear_arith)
                requires water <= u32::MAX, ms <= u32::MAX;
        }
        let product: u64 = water * ms;
        proof {
            assert(product as nat / self.flow_ml as nat <= product as nat) by (nonlinear_arith)
                requires self.flow_ml > 0;
        }
        Ok(product / self.flow_ml as u64)
    }
}

/// The durations of one daily cycle, derived once at start-up.
#[derive(Clone, Copy, Debug, PartialEq, Eq, Structural)]
pub struct CycleSchedule {
    /// How long the sensors are powered before sampling.
    pub sensors_on_duration_ms: u64,
    /// How long the pump runs, or would run, after the decision.
    pub pump_on_duration_ms: u64,
    /// The wait from the end of pumping to the next sensing.
    pub next_check_delay_ms: u64,
    /// The wait in whole minutes.
    pub next_check_minutes: u64,
    /// The part of the wait below a minute, in milliseconds.
    pub next_check_remainder_ms: u64,
}

/// The wait after pumping: a day less the time that pumping adds beyond sensing.
pub open spec fn spec_next_check_delay(pump_on_ms: int, sensors_on_ms: int) -> int {
    DAY_MS - (pump_on_ms - sensors_on_ms)
}

impl CycleSchedule {
    /// The durations agree with each other.
    pub open spec fn wf(self) -> bool {
        &&& self.sensors_on_duration_ms <= self.pump_on_duration_ms
        &&& self.next_check_delay_ms == spec_next_check_delay(
            self.pump_on_duration_ms as int,
            self.sensors_on_duration_ms as int,
        )
        &&& self.next_check_minutes == self.next_check_delay_ms / MINUTE_MS
        &&& self.next_check_remainder_ms == self.next_check_delay_ms % MINUTE_MS
    }

    /// Derives the cycle's durations from the dose and the sensing time. Refused when the
    /// flow rate is zero, when the pump runs for less time than the sensors are on, or
    /// when pumping would outlast a day.
    pub fn new(dose: &DoseConfig, sensors_on_duration_ms: u64) -> (r: Result<CycleSchedule, ConfigError>)
        ensures
            !dose.wf() ==> r == Err::<CycleSchedule, ConfigError>(ConfigError::ZeroFlowRate),
            dose.wf() && dose.spec_pump_on_ms() < sensors_on_duration_ms ==> r == Err::<
                CycleSchedule,
                ConfigError,
            >(ConfigError::PumpShorterThanSensing),
            dose.wf() && sensors_on_duration_ms <= dose.spec_pump_on_ms()
                && dose.spec_pump_on_ms() - sensors_on_duration_ms > DAY_MS ==> r == Err::<
                CycleSchedule,
                ConfigError,
            >(ConfigError::CycleTooLong),
            dose.wf() && sensors_on_duration_ms <= dose.spec_pump_on_ms()
                && dose.spec_pump_on_ms() - sensors_on_duration_ms <= DAY_MS ==> (r matches Ok(s)
                && s.wf() && s.sensors_on_duration_ms == sensors_on_duration_ms
                && s.pump_on_duration_ms == dose.spec_pump_on_ms()),
    {
        let pump_on = match dose.pump_on_duration_ms() {
            Ok(ms) => ms,
            Err(e) => return Err(e),
        };
        if pump_on < sensors_on_duration_ms {
            return Err(ConfigError::PumpShorterThanSensing);
        }
        let extra: u64 = pump_on - sensors_on_duration_ms;
        if extra > DAY_MS {
            return Err(ConfigError::CycleTooLong);
        }
        let delay: u64 = DAY_MS - extra;
        Ok(CycleSchedule {
            sensors_on_duration_ms,
            pump_on_duration_ms: pump_on,
            next_check_delay_ms: delay,
            next_check_minutes: delay / MINUTE_MS,
            next_check_remainder_ms: delay % MINUTE_MS,
        })
    }
}

} // verus!
