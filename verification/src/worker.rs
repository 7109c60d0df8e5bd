//! Decisions of the background capture worker: a dedicated thread owns the
//! compositor session and processes one command at a time to completion,
//! exchanging commands and results over a strictly ordered channel pair.
//! The loop, the thread and the channels live outside; this module decides
//! what each command asks for.

use vstd::prelude::*;

use crate::capture::CapturedFrame;
use crate::errors::CaptureError;
use crate::geometry::find_containing;
use crate::geometry::find_output_from_region;
use crate::geometry::Output;
use crate::geometry::Region;

verus! {

/// A command sent to the capture worker.
pub enum Command {
    /// Report the names of the discovered outputs.
    ListOutputs,
    /// Capture the screen (the worker captures the first discovered output).
    CaptureScreen(String),
    /// Capture the currently focused window.
    CaptureWindow,
    /// Serialize the frame to disk, under the given filename if one is given.
    SaveToDisk(Option<String>, CapturedFrame),
    /// Shut the worker down.
    Quit,
}

/// A result sent back by the capture worker.
pub enum CommandResult {
    /// The names of the discovered outputs.
    Outputs(Vec<String>),
    /// A capture completed.
    FrameCaptured(CapturedFrame),
    /// A frame was serialized and written.
    SaveToDiskSuccess,
}

/// What one command asks the worker to do next.
pub enum WorkerAction {
    /// Reply with these output names.
    SendOutputs(Vec<String>),
    /// Run one whole-output capture on this output.
    CaptureOutput(Output),
    /// Ask the window manager for the focused window's area, then plan the
    /// capture of that area.
    QueryWindow,
    /// Serialize this frame and write it, under the given filename if any.
    Save(Option<String>, CapturedFrame),
    /// Stop processing commands.
    Stop,
}

/// The names of the discovered outputs, in discovery order.
pub fn output_names(outputs: &Vec<Output>) -> (r: Vec<String>)
    ensures
        r@.len() == outputs@.len(),
        forall|i: int| 0 <= i < r@.len() ==> r@[i]@ == outputs@[i].name@,
{
    let n = outputs.len();
    let mut names: Vec<String> = Vec::new();
    let mut i: usize = 0;
    while i < n
        invariant
            n == outputs@.len(),
            i <= n,
            names@.len() == i,
            forall|k: int| 0 <= k < i ==> names@[k]@ == outputs@[k].name@,
        decreases n - i,
    {
        names.push(outputs[i].name.clone());
        i = i + 1;
    }
    names
}

/// Decide what one command asks for: listing replies with the output
/// names; a screen capture runs against the first discovered output and
/// fails not-found when none exists; a window capture first needs the
/// window manager's answer; saving and quitting pass through.
pub fn plan_command(cmd: Command, outputs: &Vec<Output>) -> (r: Result<WorkerAction, CaptureError>)
    ensures
        cmd is ListOutputs ==> (r matches Ok(a) && a matches WorkerAction::SendOutputs(names)
            && names@.len() == outputs@.len() && (forall|i: int|
            0 <= i < names@.len() ==> names@[i]@ == outputs@[i].name@)),
        cmd is CaptureScreen ==> (if outputs@.len() > 0 {
            r matches Ok(a) && a matches WorkerAction::CaptureOutput(o) && o == outputs@[0]
        } else {
            r matches Err(e) && e == CaptureError::NotFound
        }),
        cmd is CaptureWindow ==> (r matches Ok(a) && a is QueryWindow),
        cmd matches Command::SaveToDisk(name, frame) ==> (r matches Ok(a) && a
            matches WorkerAction::Save(n2, f2) && n2 == name && f2 == frame),
        cmd is Quit ==> (r matches Ok(a) && a is Stop),
{
    match cmd {
        Command::ListOutputs => Ok(WorkerAction::SendOutputs(output_names(outputs))),
        Command::CaptureScreen(_) => {
            if outputs.len() > 0 {
                Ok(WorkerAction::CaptureOutput(outputs[0].clone()))
            } else {
                Err(CaptureError::NotFound)
            }
        },
        Command::CaptureWindow => Ok(WorkerAction::QueryWindow),
        Command::SaveToDisk(name, frame) => Ok(WorkerAction::Save(name, frame)),
        Command::Quit => Ok(WorkerAction::Stop),
    }
}

/// Plan the capture of the focused window's area: the capture runs against
/// the first output whose bounds contain the area; an area contained in no
/// single output is an invalid region.
pub fn plan_window_capture(region: Region, outputs: &Vec<Output>) -> (r: Result<
    (Output, Region),
    CaptureError,
>)
    ensures
        match find_containing(outputs@, region) {
            Some(i) => r matches Ok(p) && p.0 == outputs@[i] && p.1 == region,
            None => r matches Err(e) && e == CaptureError::InvalidRegion,
        },
{
    match find_output_from_region(region, outputs) {
        Ok(o) => Ok((o.clone(), region)),
        Err(e) => Err(e),
    }
}

} // verus!
