//! The reports that the device takes: fourteen bytes each.

use vstd::prelude::*;

verus! {

/// The report that sets the motor to `vibration`: the intensity is the ninth
/// byte, the others are fixed.
pub open spec fn spec_vibration_report(vibration: u8) -> Seq<u8> {
    seq![0x02u8, 7u8, 191u8, 0u8, 0u8, 3u8, 0x49u8, 0u8, vibration, 0u8, 0u8, 0u8, 0u8, 0u8]
}

/// The report that restarts the device.
pub open spec fn spec_restart_report() -> Seq<u8> {
    seq![0x02u8, 0x01u8, 0u8, 0u8, 0u8, 0x01u8, 0x04u8, 0u8, 0u8, 0u8, 0u8, 0u8, 0u8, 0u8]
}

/// The report that sets the motor to the intensity `vibration`.
pub fn vibration_report(vibration: u8) -> (data: [u8; 14])
    ensures
        data@ == spec_vibration_report(vibration),
{
    let data: [u8; 14] = [0x02, 7, 191, 0, 0, 3, 0x49, 0, vibration, 0, 0, 0, 0, 0];
    assert(data@ =~= spec_vibration_report(vibration));
    data
}

/// The report that restarts the device.
pub fn restart_report() -> (data: [u8; 14])
    ensures
        data@ == spec_restart_report(),
{
    let data: [u8; 14] = [0x02, 0x01, 0, 0, 0, 0x01, 0x04, 0, 0, 0, 0, 0, 0, 0];
    assert(data@ =~= spec_restart_report());
    data
}

} // verus!
