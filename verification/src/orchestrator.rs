//! The capture orchestrator's planning step: given the discovered outputs,
//! an optional output name and an optional capture area, decide which
//! output one screen-copy transaction should run against. The transaction
//! itself is the frame state machine's business.

use vstd::prelude::*;

use crate::errors::CaptureError;
use crate::geometry::find_containing;
use crate::geometry::find_named;
use crate::geometry::find_output_from_region;
use crate::geometry::get_output;
use crate::geometry::Output;
use crate::geometry::Region;

verus! {

/// Resolve the output one capture should run against: the named output (or
/// the first discovered one when no name is given), re-resolved to the
/// output whose bounds contain the requested area when one is requested. A
/// name matching nothing or an empty output list is a not-found failure; an
/// area contained in no single output is an invalid region.
pub fn plan_capture(
    output_name: Option<&String>,
    region: Option<Region>,
    outputs: &Vec<Output>,
) -> (r: Result<(Output, Option<Region>), CaptureError>)
    ensures
        ({
            let named_ok = match output_name {
                Some(name) => find_named(outputs@, name@) is Some,
                None => outputs@.len() > 0,
            };
            &&& !named_ok ==> (r matches Err(e) && e == CaptureError::NotFound)
            &&& named_ok && region is None ==> {
                let i = match output_name {
                    Some(name) => find_named(outputs@, name@)->0,
                    None => 0,
                };
                r matches Ok(p) && p.0 == outputs@[i] && p.1 is None
            }
            &&& named_ok && region is Some ==> (match find_containing(outputs@, region->0) {
                Some(i) => r matches Ok(p) && p.0 == outputs@[i] && p.1 == region,
                None => r matches Err(e) && e == CaptureError::InvalidRegion,
            })
        }),
{
    let chosen = match get_output(output_name, outputs) {
        Ok(o) => o,
        Err(e) => {
            return Err(e);
        },
    };
    match region {
        None => Ok((chosen.clone(), None)),
        Some(reg) => {
            match find_output_from_region(reg, outputs) {
                Ok(o) => Ok((o.clone(), Some(reg))),
                Err(e) => Err(e),
            }
        },
    }
}

} // verus!
