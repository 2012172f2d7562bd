//! The watering decision taken from one pair of sensor readings.

use vstd::prelude::*;
use crate::config::Thresholds;
use crate::display::LCD_COLUMNS;

verus! {

/// What one pair of readings says about the plant.
#[derive(Clone, Copy, Debug, PartialEq, Eq, Structural)]
pub enum Decision {
    /// The moisture reading is too low for a sensor in soil; nothing else is trusted.
    SensorNotInSoil,
    /// The soil is dry and no water stands at the water sensor.
    NeedsWater,
    /// Either the soil is moist enough or water already stands.
    SufficientWater,
}

/// The decision for a water and a moisture reading under the given limits.
pub open spec fn spec_decide(water_reading: u16, moisture_reading: u16, limits: Thresholds) -> Decision {
    if moisture_reading < limits.moisture_sensor_lower_limit {
        Decision::SensorNotInSoil
    } else if water_reading < limits.water_sensor_limit && moisture_reading
        < limits.moisture_sensor_dry_soil_limit {
        Decision::NeedsWater
    } else {
        Decision::SufficientWater
    }
}

/// Decides whether the plant gets water. A moisture reading below the lower limit wins
/// over everything else; a reading equal to a limit counts as not below it.
pub fn decide(water_reading: u16, moisture_reading: u16, limits: &Thresholds) -> (r: Decision)
    ensures
        r == spec_decide(water_reading, moisture_reading, *limits),
        moisture_reading < limits.moisture_sensor_lower_limit ==> r == Decision::SensorNotInSoil,
        moisture_reading >= limits.moisture_sensor_lower_limit && water_reading
            < limits.water_sensor_limit && moisture_reading < limits.moisture_sensor_dry_soil_limit
            ==> r == Decision::NeedsWater,
        moisture_reading >= limits.moisture_sensor_lower_limit && !(water_reading
            < limits.water_sensor_limit && moisture_reading < limits.moisture_sensor_dry_soil_limit)
            ==> r == Decision::SufficientWater,
{
    if moisture_reading < limits.moisture_sensor_lower_limit {
        Decision::SensorNotInSoil
    } else if water_reading < limits.water_sensor_limit && moisture_reading
        < limits.moisture_sensor_dry_soil_limit {
        Decision::NeedsWater
    } else {
        Decision::SufficientWater
    }
}

impl Decision {
    /// The pump runs for this decision.
    pub open spec fn spec_pump_on(self) -> bool {
        self == Decision::NeedsWater
    }

    /// The two display rows that announce this decision.
    pub open spec fn spec_rows(self) -> (Seq<char>, Seq<char>) {
        match self {
            Decision::SensorNotInSoil => ("Moisture sensor"@, "not in soil"@),
            Decision::NeedsWater => ("Plant is dry:"@, "pump ON"@),
            Decision::SufficientWater => ("Plant has enough"@, "water: pump OFF"@),
        }
    }

    /// Whether the pump runs for this decision: only when the plant needs water.
    pub fn pump_on(&self) -> (r: bool)
        ensures
            r == self.spec_pump_on(),
    {
        match self {
            Decision::NeedsWater => true,
            _ => false,
        }
    }

    /// The two display rows that announce this decision.
    pub fn rows(&self) -> (r: (&'static str, &'static str))
        ensures
            (r.0@, r.1@) == self.spec_rows(),
            r.0@.len() <= LCD_COLUMNS && r.1@.len() <= LCD_COLUMNS,
    {
        proof {
            reveal_strlit("Moisture sensor");
            reveal_strlit("not in soil");
            reveal_strlit("Plant is dry:");
            reveal_strlit("pump ON");
            reveal_strlit("Plant has enough");
            reveal_strlit("water: pump OFF");
        }
        match self {
            Decision::SensorNotInSoil => ("Moisture sensor", "not in soil"),
            Decision::NeedsWater => ("Plant is dry:", "pump ON"),
            Decision::SufficientWater => ("Plant has enough", "water: pump OFF"),
        }
    }
}

} // verus!
