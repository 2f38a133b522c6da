//! The unified telemetry reading assembled from the gateway's endpoints.

use vstd::prelude::*;

verus! {

/// One poll's power-flow reading. Powers are integer watts; battery power is
/// signed with negative meaning discharging, grid power is signed with
/// negative meaning exporting. The battery level is held in hundredths of a
/// percent, already normalized for the gateway's reserved floor.
#[derive(Clone, Copy, Debug, PartialEq, Eq, Structural)]
pub struct SolarStatus {
    pub solar_power_watts: i32,
    pub battery_power_watts: i32,
    pub house_power_watts: i32,
    pub grid_power_watts: i32,
    pub battery_level_centipercent: i64,
}

} // verus!
