//! Charger status decoding.
//!
//! The charger drives its status pin low while the battery is charging and
//! releases it once charging has finished; reading the pin is the board's
//! business, its meaning is decided here.

use vstd::prelude::*;

verus! {

/// What the battery charger is doing.
#[derive(Clone, Copy, Debug, PartialEq, Eq, Hash, Structural)]
pub enum ChargingStatus {
    /// The battery is charging.
    Charging,
    /// The charging has finished.
    ChargeComplete,
}

/// The meaning of the charger's status pin level.
pub fn charging_status_from_pin(stat_low: bool) -> (s: ChargingStatus)
    ensures
        s == (if stat_low {
            ChargingStatus::Charging
        } else {
            ChargingStatus::ChargeComplete
        }),
{
    if stat_low {
        ChargingStatus::Charging
    } else {
        ChargingStatus::ChargeComplete
    }
}

} // verus!
