use vstd::prelude::*;
use crate::directory::{device_of, list_devices, Device, DirectoryRow};
use crate::instant::Instant;
use crate::schedule::{compute_wait, wait_for, Wait};
use crate::sunrise::{parsed_instant, resolve_sunrise, SunriseError};

verus! {

/// All that a run needs before it touches a device: whom to command, the
/// sunrise, and how long to wait first.
#[derive(Debug)]
pub struct Plan {
    pub devices: Vec<Device>,
    pub sunrise: Instant,
    pub wait: Wait,
}

/// Plans a run from the directory's rows, what the sunrise request brought
/// (`None` where it failed) and the current time.
///
/// Without a sunrise there is no plan: a failed request or a malformed
/// timestamp ends the run here, with no device named, before anything is sent
/// or logged for one.
pub fn plan_run(prefix: &str, rows: &Vec<DirectoryRow>, response: Option<&str>, now: Instant) -> (plan:
    Result<Plan, SunriseError>)
    ensures
        response is None ==> plan is Err && plan->Err_0 is Request,
        response is Some && parsed_instant(response->Some_0@) is None ==> plan is Err
            && plan->Err_0 is Parse,
        response is Some && parsed_instant(response->Some_0@) is Some ==> {
            &&& plan is Ok
            &&& Some(plan->Ok_0.sunrise) == parsed_instant(response->Some_0@)
            &&& plan->Ok_0.wait == wait_for(plan->Ok_0.sunrise, now)
            &&& plan->Ok_0.devices.len() == rows.len()
            &&& forall|i: int|
                0 <= i < rows.len() ==> (#[trigger] plan->Ok_0.devices[i])@ == device_of(
                    prefix@,
                    rows[i]@,
                )
        },
{
    match resolve_sunrise(response) {
        Err(e) => Err(e),
        Ok(sunrise) => {
            let wait = compute_wait(sunrise, now);
            let devices = list_devices(prefix, rows);
            Ok(Plan { devices, sunrise, wait })
        },
    }
}

} // verus!
