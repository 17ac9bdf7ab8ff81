//! The recording session manager: at most one recording runs at a time, made
//! by an external encoder process that is started for a rectangle of device
//! pixels and is asked to finish by one byte on its input.
//!
//! Starting the process, writing to it, the clock and the file system are the
//! caller's work. The library holds the slot of the running session and
//! decides, at each step, what the caller is to do next.

use vstd::prelude::*;
use crate::model::{Error, ErrorKind, LogicalParam, Monitor, PhysicalParam, Region};
use crate::screenshot::{has_no_target, is_target_of, locate, CaptureTarget};
use crate::text::{append_decimal, decimal, decimal_string};
use crate::transform::within;

verus! {

/// The byte that asks the encoder to finish its file and exit: `q`.
pub const STOP_COMMAND: u8 = 0x71;

/// The platforms for which the encoder's arguments are known.
#[derive(Clone, Copy, Debug, PartialEq, Eq, Structural)]
pub enum Platform {
    Windows,
    MacOs,
    /// A platform on which the encoder is started without arguments.
    Other,
}

/// The encoder's size argument: `<width>x<height>`.
pub open spec fn video_size(region: Region) -> Seq<char> {
    decimal(region.width as nat) + "x"@ + decimal(region.height as nat)
}

/// The encoder's crop filter: `crop=<width>:<height>:<left>:<top>`.
pub open spec fn crop_filter(region: Region) -> Seq<char> {
    "crop="@ + decimal(region.width as nat) + ":"@ + decimal(region.height as nat) + ":"@
        + decimal(region.left as nat) + ":"@ + decimal(region.top as nat)
}

/// The arguments with which the encoder records `region` into the file
/// `output`: 30 frames a second, the fastest preset, an existing file
/// overwritten.
pub open spec fn encoder_args(platform: Platform, region: Region, output: Seq<char>) -> Seq<
    Seq<char>,
> {
    match platform {
        Platform::Windows => seq![
            "-f"@,
            "gdigrab"@,
            "-framerate"@,
            "30"@,
            "-offset_x"@,
            decimal(region.left as nat),
            "-offset_y"@,
            decimal(region.top as nat),
            "-video_size"@,
            video_size(region),
            "-i"@,
            "desktop"@,
            "-c:v"@,
            "libx264"@,
            "-preset"@,
            "ultrafast"@,
            "-y"@,
            output,
        ],
        Platform::MacOs => seq![
            "-f"@,
            "avfoundation"@,
            "-framerate"@,
            "30"@,
            "-i"@,
            "1"@,
            "-vf"@,
            crop_filter(region),
            "-c:v"@,
            "libx264"@,
            "-preset"@,
            "ultrafast"@,
            "-y"@,
            output,
        ],
        Platform::Other => seq![],
    }
}

/// The name of the file that a recording started at `timestamp` seconds
/// after the epoch is written to.
pub open spec fn file_name(timestamp: nat) -> Seq<char> {
    "recording_"@ + decimal(timestamp) + ".mp4"@
}

fn push_text(args: &mut Vec<String>, text: &str)
    ensures
        final(args).deep_view() == old(args).deep_view().push(text@),
{
    args.push(text.to_owned());
    assert(args.deep_view() =~= old(args).deep_view().push(text@));
}

fn push_string(args: &mut Vec<String>, text: String)
    ensures
        final(args).deep_view() == old(args).deep_view().push(text@),
{
    args.push(text);
    assert(args.deep_view() =~= old(args).deep_view().push(text@));
}

fn video_size_text(region: &PhysicalParam) -> (s: String)
    ensures
        s@ == video_size(region@),
{
    let mut s = String::new();
    append_decimal(&mut s, region.width as u64);
    s.append("x");
    append_decimal(&mut s, region.height as u64);
    assert(s@ =~= video_size(region@));
    s
}

fn crop_filter_text(region: &PhysicalParam) -> (s: String)
    ensures
        s@ == crop_filter(region@),
{
    let mut s = "crop=".to_owned();
    append_decimal(&mut s, region.width as u64);
    s.append(":");
    append_decimal(&mut s, region.height as u64);
    s.append(":");
    append_decimal(&mut s, region.left as u64);
    s.append(":");
    append_decimal(&mut s, region.top as u64);
    assert(s@ =~= crop_filter(region@));
    s
}

/// Builds the argument list of the encoder for one platform.
pub fn build_encoder_args(platform: Platform, region: &PhysicalParam, output_path: &str) -> (args:
    Vec<String>)
    ensures
        args.deep_view() == encoder_args(platform, region@, output_path@),
{
    let mut args: Vec<String> = Vec::new();
    assert(args.deep_view() =~= Seq::<Seq<char>>::empty());
    match platform {
        Platform::Windows => {
            push_text(&mut args, "-f");
            push_text(&mut args, "gdigrab");
            push_text(&mut args, "-framerate");
            push_text(&mut args, "30");
            push_text(&mut args, "-offset_x");
            push_string(&mut args, decimal_string(region.left as u64));
            push_text(&mut args, "-offset_y");
            push_string(&mut args, decimal_string(region.top as u64));
            push_text(&mut args, "-video_size");
            push_string(&mut args, video_size_text(region));
            push_text(&mut args, "-i");
            push_text(&mut args, "desktop");
            push_text(&mut args, "-c:v");
            push_text(&mut args, "libx264");
            push_text(&mut args, "-preset");
            push_text(&mut args, "ultrafast");
            push_text(&mut args, "-y");
            push_text(&mut args, output_path);
        },
        Platform::MacOs => {
            push_text(&mut args, "-f");
            push_text(&mut args, "avfoundation");
            push_text(&mut args, "-framerate");
            push_text(&mut args, "30");
            push_text(&mut args, "-i");
            push_text(&mut args, "1");
            push_text(&mut args, "-vf");
            push_string(&mut args, crop_filter_text(region));
            push_text(&mut args, "-c:v");
            push_text(&mut args, "libx264");
            push_text(&mut args, "-preset");
            push_text(&mut args, "ultrafast");
            push_text(&mut args, "-y");
            push_text(&mut args, output_path);
        },
        Platform::Other => {},
    }
    assert(args.deep_view() =~= encoder_args(platform, region@, output_path@));
    args
}

/// The name of the file for a recording that starts `timestamp` seconds
/// after the epoch.
pub fn recording_file_name(timestamp: u64) -> (name: String)
    ensures
        name@ == file_name(timestamp as nat),
{
    let mut name = "recording_".to_owned();
    append_decimal(&mut name, timestamp);
    name.append(".mp4");
    assert(name@ =~= file_name(timestamp as nat));
    name
}

/// The directory that the caller asked for, if it named one: an absent or
/// empty path means the platform's default directory.
pub fn requested_directory(save_path: Option<String>) -> (r: Option<String>)
    ensures
        match save_path {
            Some(path) => if path@.len() > 0 {
                r == Some(path)
            } else {
                r is None
            },
            None => r is None,
        },
{
    match save_path {
        Some(path) => {
            if path.as_str().is_empty() {
                None
            } else {
                Some(path)
            }
        },
        None => None,
    }
}

/// The slot of the running recording session. It holds the handle of the
/// encoder process while a recording runs and is empty otherwise, so there
/// is never more than one session. A handle leaves the slot only by being
/// handed out, and the same step empties the slot: no handle can be handed
/// out twice.
pub struct Recorder<H> {
    current: Option<H>,
}

impl<H> View for Recorder<H> {
    type V = Option<H>;

    closed spec fn view(&self) -> Option<H> {
        self.current
    }
}

/// What one step of the session manager does to the slot.
pub struct SlotStep<H> {
    /// The slot after the step.
    pub slot: Option<H>,
    /// The session that the step took out of the slot, for the caller to
    /// ask it to stop.
    pub handed_out: Option<H>,
}

/// A stop request empties the slot and hands out what was in it.
pub open spec fn stop_step<H>(slot: Option<H>) -> SlotStep<H> {
    SlotStep { slot: None, handed_out: slot }
}

/// The beginning of a start request: for a valid region, a running session
/// is handed out to be stopped first; for an invalid one nothing happens.
pub open spec fn start_step<H>(slot: Option<H>, valid: bool) -> SlotStep<H> {
    if valid {
        SlotStep { slot: None, handed_out: slot }
    } else {
        SlotStep { slot, handed_out: None }
    }
}

/// The end of a start request: an encoder process that started takes the
/// slot, and what the slot held is handed out; without a process the slot
/// stays as it is.
pub open spec fn started_step<H>(slot: Option<H>, spawned: Option<H>) -> SlotStep<H> {
    match spawned {
        Some(session) => SlotStep { slot: Some(session), handed_out: slot },
        None => SlotStep { slot, handed_out: None },
    }
}

/// The first decision of a start request.
pub struct StartDecision<H> {
    /// The session that ran when the request came. The caller asks it to
    /// stop; if that fails, the start goes on all the same.
    pub previous: Option<H>,
    /// What the new session is to record, or why none is started.
    pub target: Result<CaptureTarget, Error>,
}

/// The end of a start request.
pub struct StartOutcome<H> {
    /// A session that another request put into the slot in the meantime.
    /// The caller asks it to stop, so that one session only keeps running.
    pub replaced: Option<H>,
    /// The path of the file that is being recorded, or why nothing is.
    pub result: Result<String, Error>,
}

impl<H> Recorder<H> {
    /// An empty slot: nothing is being recorded.
    pub fn new() -> (r: Self)
        ensures
            r@ is None,
    {
        Recorder { current: None }
    }

    /// Whether a recording runs.
    pub fn is_recording(&self) -> (r: bool)
        ensures
            r == (self@ is Some),
    {
        self.current.is_some()
    }
}

/// Empties the slot and hands out the session that was in it, if any.
pub fn stop_recording_internal<H>(state: &mut Recorder<H>) -> (r: Option<H>)
    ensures
        stop_step(old(state)@) == (SlotStep { slot: final(state)@, handed_out: r }),
{
    state.current.take()
}

/// Ends the running recording: the slot is emptied and its session handed
/// out, for the caller to send it [`STOP_COMMAND`]. Without a running
/// recording the request fails.
pub fn record_stop<H>(state: &mut Recorder<H>) -> (r: Result<H, Error>)
    ensures
        final(state)@ == stop_step(old(state)@).slot,
        match stop_step(old(state)@).handed_out {
            Some(session) => r == Ok::<H, Error>(session),
            None => r matches Err(e) && e.says(
                ErrorKind::StateNotFound,
                "no recording in progress"@,
            ),
        },
{
    match stop_recording_internal(state) {
        Some(session) => Ok(session),
        None => Err(Error::new(ErrorKind::StateNotFound, "no recording in progress")),
    }
}

/// Begins a start request. An invalid region is rejected and nothing
/// changes. Otherwise a running session is taken out of the slot, to be
/// stopped before the new one starts, and the region is resolved to a
/// display.
pub fn record_start<H>(
    param: &LogicalParam,
    monitors: &Vec<Monitor>,
    state: &mut Recorder<H>,
) -> (r: StartDecision<H>)
    ensures
        start_step(old(state)@, param@.valid()) == (SlotStep {
            slot: final(state)@,
            handed_out: r.previous,
        }),
        match r.target {
            Ok(target) => {
                &&& param@.valid()
                &&& is_target_of(target, monitors@, param@)
                &&& within(
                    target.region@,
                    monitors@[target.monitor as int]@.width,
                    monitors@[target.monitor as int]@.height,
                )
            },
            Err(e) => if !param@.valid() {
                e.says(ErrorKind::Validation, "invalid param"@)
            } else {
                &&& has_no_target(monitors@, param@)
                &&& e.says(ErrorKind::MonitorNotFound, "Monitor not found"@)
            },
        },
{
    match param.validate() {
        Err(e) => {
            return StartDecision { previous: None, target: Err(e) };
        },
        Ok(()) => {},
    }
    let previous = stop_recording_internal(state);
    let target = match locate(param, monitors) {
        Some(target) => Ok(target),
        None => Err(Error::new(ErrorKind::MonitorNotFound, "Monitor not found")),
    };
    StartDecision { previous, target }
}

/// Ends a start request with what became of the encoder process. A process
/// that started is put into the slot and the path of its file is the
/// answer. A process that did not start leaves the slot as it is, and the
/// failure is the answer.
pub fn record_started<H>(
    state: &mut Recorder<H>,
    spawned: Result<H, String>,
    file_path: String,
) -> (r: StartOutcome<H>)
    ensures
        match spawned {
            Ok(session) => {
                &&& started_step(old(state)@, Some(session)) == (SlotStep {
                    slot: final(state)@,
                    handed_out: r.replaced,
                })
                &&& r.result == Ok::<String, Error>(file_path)
            },
            Err(reason) => {
                &&& started_step(old(state)@, None) == (SlotStep {
                    slot: final(state)@,
                    handed_out: r.replaced,
                })
                &&& r.result matches Err(e) && e.says(ErrorKind::ProcessSpawnFailure, reason@)
            },
        },
{
    match spawned {
        Ok(session) => {
            let replaced = state.current.take();
            state.current = Some(session);
            StartOutcome { replaced, result: Ok(file_path) }
        },
        Err(reason) => StartOutcome {
            replaced: None,
            result: Err(Error { kind: ErrorKind::ProcessSpawnFailure, message: reason }),
        },
    }
}

/// What a stop request reports once the stop command was written to the
/// session it handed out: success, or the failure of the write. The session
/// is gone in both cases.
pub fn stop_reported(written: Result<(), String>) -> (r: Result<(), Error>)
    ensures
        match written {
            Ok(()) => r is Ok,
            Err(reason) => r matches Err(e) && e.says(ErrorKind::ProcessSignalFailure, reason@),
        },
{
    match written {
        Ok(()) => Ok(()),
        Err(reason) => Err(Error { kind: ErrorKind::ProcessSignalFailure, message: reason }),
    }
}

/// A stop request without a running recording hands out nothing, which is
/// what makes it fail; and since every stop request leaves the slot empty,
/// so does the second of two stop requests in a row.
pub proof fn lemma_stop_needs_a_recording<H>(slot: Option<H>)
    ensures
        stop_step::<H>(None).handed_out is None,
        stop_step(slot).slot is None,
        stop_step(stop_step(slot).slot).handed_out is None,
{
}

/// A start request on top of the recording that an earlier start request
/// began hands out that recording to be stopped, and once its own encoder
/// runs the slot holds this encoder and nothing else is left to stop:
/// exactly one session is active, the second.
pub proof fn lemma_restart_leaves_one_session<H>(slot: Option<H>, first: H, second: H)
    ensures
        ({
            let running = started_step(start_step(slot, true).slot, Some(first)).slot;
            let begun = start_step(running, true);
            let ended = started_step(begun.slot, Some(second));
            &&& running == Some(first)
            &&& begun.handed_out == Some(first)
            &&& begun.slot is None
            &&& ended.slot == Some(second)
            &&& ended.handed_out is None
        }),
{
}

/// An encoder that does not start leaves no session behind: after a start
/// request that fails at the process, nothing is being recorded.
pub proof fn lemma_failed_start_leaves_idle<H>(slot: Option<H>)
    ensures
        started_step(start_step(slot, true).slot, None::<H>).slot is None,
{
}

} // verus!
