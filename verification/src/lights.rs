//! Quantizing a requested cabin light level to the positions the cabin
//! light switch actually has.

use vstd::prelude::*;

verus! {

/// A cabin light command: whether the switch is on, and the level the
/// potentiometer is set to (0, 50 or 100).
#[derive(Clone, Copy, Debug, PartialEq, Eq, Structural)]
pub struct CabinLightSetting {
    pub switch_on: bool,
    pub level: u64,
}

/// The cabin light level needs to be 0, 50 or 100 for the switch position
/// in the vehicle to work: anything up to 0 turns the switch off at level
/// 0, anything up to 50 turns it on at level 50, anything above turns it
/// on at level 100.
pub fn cabin_light_setting(level: i64) -> (r: CabinLightSetting)
    ensures
        level <= 0 ==> r == (CabinLightSetting { switch_on: false, level: 0u64 }),
        0 < level <= 50 ==> r == (CabinLightSetting { switch_on: true, level: 50u64 }),
        level > 50 ==> r == (CabinLightSetting { switch_on: true, level: 100u64 }),
{
    if level <= 0 {
        CabinLightSetting { switch_on: false, level: 0 }
    } else if level <= 50 {
        CabinLightSetting { switch_on: true, level: 50 }
    } else {
        CabinLightSetting { switch_on: true, level: 100 }
    }
}

} // verus!
