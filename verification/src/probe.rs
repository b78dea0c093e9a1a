//! The backend prober: which optional input backends the encoding tool
//! supports on this host. Each backend is probed once; the first answer is
//! kept for the lifetime of the prober, a failed probe too.

use crate::command::no_arg_texts;
use crate::error::RecorderError;
use crate::text::{no_args, push_arg};
use crate::video::BackendProbeResult;
use vstd::prelude::*;

verus! {

/// The answers of the probes that were made so far.
#[derive(Debug, Clone, Copy, PartialEq, Eq, Structural)]
pub struct BackendProber {
    pub pipewire: Option<bool>,
    pub pulse: Option<bool>,
}

/// What a probe invocation says: a backend is supported where the tool was
/// launched and exited with success. `None` stands for a tool that could not
/// be launched.
pub open spec fn probe_succeeded(outcome: Option<bool>) -> bool {
    outcome == Some(true)
}

/// The answer that is kept: the earlier one where there is one.
pub open spec fn kept_answer(earlier: Option<bool>, outcome: Option<bool>) -> bool {
    match earlier {
        Some(answer) => answer,
        None => probe_succeeded(outcome),
    }
}

/// The arguments of the probe for the portal screen-grab backend.
pub open spec fn pipewire_probe_texts() -> Seq<Seq<char>> {
    no_arg_texts().push("-v"@).push("error"@).push("-f"@).push("pipewire"@).push(
        "-list_devices"@,
    ).push("true"@).push("-i"@).push("dummy"@)
}

/// The arguments of the probe for the audio-server backend.
pub open spec fn pulse_probe_texts() -> Seq<Seq<char>> {
    no_arg_texts().push("-v"@).push("error"@).push("-f"@).push("pulse"@).push("-sources"@).push(
        "true"@,
    ).push("-i"@).push("dummy"@)
}

/// The arguments of the probe that lists the formats of a camera device node.
pub open spec fn v4l2_probe_texts(device_path: Seq<char>) -> Seq<Seq<char>> {
    no_arg_texts().push("-v"@).push("error"@).push("-f"@).push("v4l2"@).push("-list_formats"@).push(
        "all"@,
    ).push("-i"@).push(device_path)
}

impl BackendProber {
    /// A prober that has made no probe yet.
    pub fn new() -> (prober: BackendProber)
        ensures
            prober.pipewire is None,
            prober.pulse is None,
    {
        BackendProber { pipewire: None, pulse: None }
    }

    /// The answers so far; a backend that was not probed counts as
    /// unsupported.
    pub fn result(&self) -> (r: BackendProbeResult)
        ensures
            r.pipewire_supported == (self.pipewire == Some(true)),
            r.pulse_supported == (self.pulse == Some(true)),
    {
        BackendProbeResult {
            pipewire_supported: match self.pipewire {
                Some(answer) => answer,
                None => false,
            },
            pulse_supported: match self.pulse {
                Some(answer) => answer,
                None => false,
            },
        }
    }
}

/// Whether the portal screen-grab backend is supported. The first call keeps
/// the outcome of the probe invocation; every later call returns what was
/// kept, whatever outcome it is given.
pub fn ffmpeg_supports_pipewire(prober: &mut BackendProber, outcome: Option<bool>) -> (supported:
    bool)
    ensures
        supported == kept_answer(old(prober).pipewire, outcome),
        final(prober).pipewire == Some(supported),
        final(prober).pulse == old(prober).pulse,
{
    match prober.pipewire {
        Some(answer) => answer,
        None => {
            let answer = probe_outcome_succeeded(outcome);
            prober.pipewire = Some(answer);
            answer
        },
    }
}

/// Whether the audio-server backend is supported. The first call keeps the
/// outcome of the probe invocation; every later call returns what was kept,
/// whatever outcome it is given.
pub fn ffmpeg_supports_pulse(prober: &mut BackendProber, outcome: Option<bool>) -> (supported: bool)
    ensures
        supported == kept_answer(old(prober).pulse, outcome),
        final(prober).pulse == Some(supported),
        final(prober).pipewire == old(prober).pipewire,
{
    match prober.pulse {
        Some(answer) => answer,
        None => {
            let answer = probe_outcome_succeeded(outcome);
            prober.pulse = Some(answer);
            answer
        },
    }
}

/// An answer, once kept, is never replaced: whatever a second probe says, the
/// answer after it is the answer of the first.
pub proof fn first_answer_is_kept(first: Option<bool>, second: Option<bool>)
    ensures
        kept_answer(Some(kept_answer(None, first)), second) == probe_succeeded(first),
{
}

/// Whether a probe invocation shows support.
pub fn probe_outcome_succeeded(outcome: Option<bool>) -> (r: bool)
    ensures
        r == probe_succeeded(outcome),
{
    match outcome {
        Some(success) => success,
        None => false,
    }
}

/// Whether a camera device node can be opened, from the outcome of its probe
/// invocation.
pub fn ffmpeg_v4l2_accessible(outcome: Option<bool>) -> (r: bool)
    ensures
        r == probe_succeeded(outcome),
{
    probe_outcome_succeeded(outcome)
}

/// Whether the encoding tool can be used, from the outcome of its version
/// probe: it must have been launched and have exited with success.
pub fn ensure_ffmpeg_available(outcome: Option<bool>) -> (r: Result<(), RecorderError>)
    ensures
        probe_succeeded(outcome) ==> r is Ok,
        !probe_succeeded(outcome) ==> r == Err::<(), RecorderError>(
            RecorderError::BackendUnavailable,
        ),
{
    if probe_outcome_succeeded(outcome) {
        Ok(())
    } else {
        Err(RecorderError::BackendUnavailable)
    }
}

/// The arguments of the version probe.
pub fn version_probe_args() -> (args: Vec<String>)
    ensures
        args.deep_view() == no_arg_texts().push("-version"@),
{
    let mut args = no_args();
    push_arg(&mut args, "-version");
    args
}

/// The arguments of the probe for the portal screen-grab backend.
pub fn pipewire_probe_args() -> (args: Vec<String>)
    ensures
        args.deep_view() == pipewire_probe_texts(),
{
    let mut args = no_args();
    push_arg(&mut args, "-v");
    push_arg(&mut args, "error");
    push_arg(&mut args, "-f");
    push_arg(&mut args, "pipewire");
    push_arg(&mut args, "-list_devices");
    push_arg(&mut args, "true");
    push_arg(&mut args, "-i");
    push_arg(&mut args, "dummy");
    args
}

/// The arguments of the probe for the audio-server backend.
pub fn pulse_probe_args() -> (args: Vec<String>)
    ensures
        args.deep_view() == pulse_probe_texts(),
{
    let mut args = no_args();
    push_arg(&mut args, "-v");
    push_arg(&mut args, "error");
    push_arg(&mut args, "-f");
    push_arg(&mut args, "pulse");
    push_arg(&mut args, "-sources");
    push_arg(&mut args, "true");
    push_arg(&mut args, "-i");
    push_arg(&mut args, "dummy");
    args
}

/// The arguments of the probe that lists the formats of a camera device node.
pub fn v4l2_probe_args(device_path: &str) -> (args: Vec<String>)
    ensures
        args.deep_view() == v4l2_probe_texts(device_path@),
{
    let mut args = no_args();
    push_arg(&mut args, "-v");
    push_arg(&mut args, "error");
    push_arg(&mut args, "-f");
    push_arg(&mut args, "v4l2");
    push_arg(&mut args, "-list_formats");
    push_arg(&mut args, "all");
    push_arg(&mut args, "-i");
    push_arg(&mut args, device_path);
    args
}

} // verus!
