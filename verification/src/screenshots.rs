//! A screenshot request that is given the outcome of enumerating the
//! displays, so that a platform that cannot enumerate them is told apart
//! from a request for a display that is not there.

use vstd::prelude::*;
use crate::model::{Error, ErrorKind, LogicalParam, Monitor, PhysicalParam};
use crate::screenshot::{has_no_target, is_target_of, CaptureTarget};
use crate::transform::{rounds_to_nearest, scaled_region, within};
use crate::util::find_monitor;

verus! {

/// Scales a logical region to the pixels of `monitor`, each length on its
/// own, with the display's scale factor or with 1/1 where it reports none.
/// The result is not yet cut to the display.
pub fn logical_to_physical(monitor: &Monitor, param: &LogicalParam) -> (r: PhysicalParam)
    ensures
        r@ == scaled_region(param@, monitor@.scale),
        rounds_to_nearest(param@, monitor@.scale),
{
    PhysicalParam::scaled(monitor.scale_factor(), param)
}

/// Decides what a screenshot request captures. An invalid region is
/// rejected first. Then a failed enumeration is reported as a failure of
/// the capture, with the platform's reason. Only then the region is
/// resolved to the first display at its origin.
pub fn screenshots_take(param: &LogicalParam, enumerated: &Result<Vec<Monitor>, String>) -> (r:
    Result<CaptureTarget, Error>)
    ensures
        match r {
            Ok(target) => {
                &&& param@.valid()
                &&& enumerated matches Ok(monitors)
                &&& is_target_of(target, monitors@, param@)
                &&& within(
                    target.region@,
                    monitors@[target.monitor as int]@.width,
                    monitors@[target.monitor as int]@.height,
                )
            },
            Err(e) => if !param@.valid() {
                e.says(ErrorKind::Validation, "invalid param"@)
            } else {
                match enumerated {
                    Ok(monitors) => {
                        &&& has_no_target(monitors@, param@)
                        &&& e.says(ErrorKind::MonitorNotFound, "monitor not found"@)
                    },
                    Err(reason) => e.says(ErrorKind::CaptureFailure, reason@),
                }
            },
        },
{
    match param.validate() {
        Err(e) => {
            return Err(e);
        },
        Ok(()) => {},
    }
    match enumerated {
        Err(reason) => Err(Error { kind: ErrorKind::CaptureFailure, message: reason.clone() }),
        Ok(monitors) => match find_monitor(monitors, param.screen_x, param.screen_y) {
            Some(index) => {
                let monitor = &monitors[index];
                let region = logical_to_physical(monitor, param).clamp(
                    monitor.width(),
                    monitor.height(),
                );
                Ok(CaptureTarget { monitor: index, region })
            },
            None => Err(Error::new(ErrorKind::MonitorNotFound, "monitor not found")),
        },
    }
}

} // verus!
