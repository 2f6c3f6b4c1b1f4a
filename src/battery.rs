//! The charge probe.
use vstd::prelude::*;

use crate::hal::{DeviceError, GpioPullType, GPIO};

verus! {

/// Charge indicator line: reads low while charging, high on battery.
pub const CHARGE_INDICATOR_PIN: i32 = 12;

/// Pull configuration of the charge indicator line.
pub const CHARGE_INDICATOR_PULL: GpioPullType = GpioPullType::UP;

/// Analog battery voltage input (a 12-bit reading); reserved.
pub const VOLTAGE_PIN: i32 = 31;

/// Whether the node is charging, from one read `state` of the charge
/// indicator line. The line is active low: 0 gives `true`, 1 gives `false`.
pub fn is_charging(state: i32) -> (r: Result<bool, DeviceError>)
    ensures
        state == 1 ==> r == Ok::<bool, DeviceError>(false),
        state == 0 ==> r == Ok::<bool, DeviceError>(true),
        state != 0 && state != 1 ==> r == Err::<bool, DeviceError>(DeviceError::HardwareFault),
{
    let bat = GPIO::new().set_pin(CHARGE_INDICATOR_PIN);
    match bat.read_state(state) {
        Ok(s) => {
            if s == 1 {
                Ok(false)
            } else {
                Ok(true)
            }
        },
        Err(e) => Err(e),
    }
}

} // verus!
