//! The supervisor of the encoding process: the states of a session and what
//! is to be done at every request and every observation of the process. The
//! caller performs the actions; the decisions are made here.

use crate::command::{any_source, build_ffmpeg, command_plan, local_timestamp, plan_error};
use crate::error::RecorderError;
use crate::text::copy_text;
use crate::video::{
    BackendProbeResult, CaptureEnvironment, CommandPlan, HostDevices, RecorderOptions,
    RecordingOutputs,
};
use vstd::prelude::*;

verus! {

/// The states of a session.
#[derive(Debug, Clone, Copy, PartialEq, Eq, Structural)]
pub enum SupervisorState {
    Idle,
    Starting,
    Running,
    Stopping,
    Stopped,
}

/// A request written to the input stream of the encoding process. None is
/// acknowledged.
#[derive(Debug, Clone, Copy, PartialEq, Eq, Structural)]
pub enum ControlSignal {
    /// Ask the process to finish its files and exit.
    Quit,
    /// Ask the process to pause, or to go on.
    TogglePause,
}

/// The bytes of a control signal: the letter `q` or `p`, and a line feed.
pub open spec fn control_bytes(signal: ControlSignal) -> Seq<u8> {
    match signal {
        ControlSignal::Quit => seq![113u8, 10u8],
        ControlSignal::TogglePause => seq![112u8, 10u8],
    }
}

impl ControlSignal {
    /// The bytes to write for this signal.
    pub fn bytes(&self) -> (bytes: Vec<u8>)
        ensures
            bytes@ == control_bytes(*self),
    {
        let mut bytes: Vec<u8> = Vec::new();
        match self {
            ControlSignal::Quit => bytes.push(113),
            ControlSignal::TogglePause => bytes.push(112),
        }
        bytes.push(10);
        assert(bytes@ =~= control_bytes(*self));
        bytes
    }
}

/// What to do next while a session stops.
#[derive(Debug, Clone, Copy, PartialEq, Eq, Structural)]
pub enum StopStep {
    /// The session is not stopping: there is nothing to do.
    NotStopping,
    /// The process has exited cleanly.
    Finished,
    /// The process has exited with a failure.
    Failed,
    /// The process still runs: sleep for one polling interval and look again.
    Wait,
    /// The process outlived the grace period: kill it and wait for its end.
    Kill,
}

/// The interval between two looks at a stopping process, in milliseconds.
pub const EXIT_POLL_MS: u64 = 100;

/// How long a stopping process is waited for before it is killed, in
/// milliseconds.
pub const EXIT_GRACE_MS: u64 = 5000;

/// The supervisor of one recording session.
#[derive(Debug)]
pub struct VideoEncoder {
    pub options: RecorderOptions,
    pub state: SupervisorState,
    /// Whether a pause was requested and not yet taken back.
    pub paused: bool,
    /// How long the session has waited for the process to exit.
    pub waited_ms: u64,
    /// The files of the session, from its start on.
    pub outputs: Option<RecordingOutputs>,
}

impl VideoEncoder {
    /// What holds of every supervisor: a source is selected; only a running
    /// session is paused; time is waited only while stopping, in whole
    /// polling intervals within the grace period.
    pub open spec fn well_formed(&self) -> bool {
        &&& any_source(self.options@)
        &&& self.paused ==> self.state == SupervisorState::Running
        &&& self.state != SupervisorState::Stopping ==> self.waited_ms == 0
        &&& self.waited_ms <= EXIT_GRACE_MS
        &&& self.waited_ms % EXIT_POLL_MS == 0
    }

    /// A supervisor for the given options. It is refused where no source is
    /// selected; nothing is touched either way.
    pub fn new(options: RecorderOptions) -> (r: Result<VideoEncoder, RecorderError>)
        ensures
            match r {
                Ok(encoder) => {
                    &&& any_source(options@)
                    &&& encoder.options == options
                    &&& encoder.state == SupervisorState::Idle
                    &&& !encoder.paused
                    &&& encoder.waited_ms == 0
                    &&& encoder.outputs is None
                    &&& encoder.well_formed()
                },
                Err(e) => !any_source(options@) && e == RecorderError::Configuration,
            },
    {
        if !options.include_audio && !options.include_video && !options.include_webcam {
            return Err(RecorderError::Configuration);
        }
        Ok(
            VideoEncoder {
                options,
                state: SupervisorState::Idle,
                paused: false,
                waited_ms: 0,
                outputs: None,
            },
        )
    }

    /// Whether this supervisor is well formed.
    pub fn check(&self) -> (r: bool)
        ensures
            r == self.well_formed(),
    {
        (self.options.include_audio || self.options.include_video || self.options.include_webcam)
            && (!self.paused || self.state == SupervisorState::Running) && (self.state
            == SupervisorState::Stopping || self.waited_ms == 0) && self.waited_ms <= EXIT_GRACE_MS
            && self.waited_ms % EXIT_POLL_MS == 0
    }

    /// Whether the encoding process runs and no stop was requested.
    pub fn is_running(&self) -> (r: bool)
        ensures
            r == (self.state == SupervisorState::Running),
    {
        self.state == SupervisorState::Running
    }

    /// Whether a pause was requested and not yet taken back.
    pub fn is_paused(&self) -> (r: bool)
        ensures
            r == self.paused,
    {
        self.paused
    }

    /// Begins a session. A session that has begun is left as it is and gets
    /// no plan. Otherwise the encoding tool must have answered its version
    /// probe, and the plan must exist; then the session is starting and the
    /// plan is to be spawned. A refusal leaves the session as it was.
    pub fn start(
        &mut self,
        tool_launchable: bool,
        env: &CaptureEnvironment,
        probe: BackendProbeResult,
        host: &HostDevices,
        stamp: &str,
    ) -> (r: Result<Option<CommandPlan>, RecorderError>)
        requires
            old(self).well_formed(),
        ensures
            final(self).well_formed(),
            final(self).options == old(self).options,
            match r {
                Ok(None) => {
                    &&& old(self).state != SupervisorState::Idle
                    &&& old(self).state != SupervisorState::Stopped
                    &&& *final(self) == *old(self)
                },
                Ok(Some(plan)) => {
                    &&& old(self).state == SupervisorState::Idle || old(self).state
                        == SupervisorState::Stopped
                    &&& tool_launchable
                    &&& plan_error(old(self).options@, env@, host@) is None
                    &&& plan@ == command_plan(old(self).options@, env@, probe, host@, stamp@)
                    &&& final(self).state == SupervisorState::Starting
                    &&& !final(self).paused
                    &&& final(self).outputs is Some
                    &&& final(self).outputs->Some_0@ == plan@.outputs
                },
                Err(e) => {
                    &&& old(self).state == SupervisorState::Idle || old(self).state
                        == SupervisorState::Stopped
                    &&& *final(self) == *old(self)
                    &&& if !tool_launchable {
                        e == RecorderError::BackendUnavailable
                    } else {
                        plan_error(old(self).options@, env@, host@) == Some(e)
                    }
                },
            },
    {
        match self.state {
            SupervisorState::Idle | SupervisorState::Stopped => {},
            _ => {
                return Ok(None);
            },
        }
        if !tool_launchable {
            return Err(RecorderError::BackendUnavailable);
        }
        let plan = match build_ffmpeg(&self.options, env, probe, host, stamp) {
            Ok(plan) => plan,
            Err(e) => {
                return Err(e);
            },
        };
        self.outputs = Some(copy_outputs(&plan.outputs));
        self.state = SupervisorState::Starting;
        Ok(Some(plan))
    }

    /// Begins a session now: its files are named after the local time, and
    /// everything else is as in [`VideoEncoder::start`].
    pub fn start_now(
        &mut self,
        tool_launchable: bool,
        env: &CaptureEnvironment,
        probe: BackendProbeResult,
        host: &HostDevices,
    ) -> (r: Result<Option<CommandPlan>, RecorderError>)
        requires
            old(self).well_formed(),
        ensures
            final(self).well_formed(),
            final(self).options == old(self).options,
            match r {
                Ok(None) => {
                    &&& old(self).state != SupervisorState::Idle
                    &&& old(self).state != SupervisorState::Stopped
                    &&& *final(self) == *old(self)
                },
                Ok(Some(plan)) => {
                    &&& old(self).state == SupervisorState::Idle || old(self).state
                        == SupervisorState::Stopped
                    &&& tool_launchable
                    &&& plan_error(old(self).options@, env@, host@) is None
                    &&& exists|stamp: Seq<char>|
                        plan@ == command_plan(old(self).options@, env@, probe, host@, stamp)
                    &&& final(self).state == SupervisorState::Starting
                    &&& !final(self).paused
                    &&& final(self).outputs is Some
                    &&& final(self).outputs->Some_0@ == plan@.outputs
                },
                Err(e) => {
                    &&& old(self).state == SupervisorState::Idle || old(self).state
                        == SupervisorState::Stopped
                    &&& *final(self) == *old(self)
                    &&& if !tool_launchable {
                        e == RecorderError::BackendUnavailable
                    } else {
                        plan_error(old(self).options@, env@, host@) == Some(e)
                    }
                },
            },
    {
        let stamp = local_timestamp("%Y%m%d_%H%M%S");
        self.start(tool_launchable, env, probe, host, stamp.as_str())
    }

    /// Takes note of the spawn. A starting session runs once its process is
    /// spawned; where the spawn failed it is idle again, without outputs, and
    /// the failure is returned. Any other session is left as it is.
    pub fn spawned(&mut self, success: bool) -> (r: Result<(), RecorderError>)
        requires
            old(self).well_formed(),
        ensures
            final(self).well_formed(),
            final(self).options == old(self).options,
            old(self).state != SupervisorState::Starting ==> r is Ok && *final(self) == *old(self),
            old(self).state == SupervisorState::Starting && success ==> r is Ok && *final(self) == (
            VideoEncoder { state: SupervisorState::Running, ..*old(self) }),
            old(self).state == SupervisorState::Starting && !success ==> r == Err::<
                (),
                RecorderError,
            >(RecorderError::SpawnFailure) && *final(self) == (VideoEncoder {
                state: SupervisorState::Idle,
                outputs: None,
                ..*old(self)
            }),
    {
        match self.state {
            SupervisorState::Starting => {
                if success {
                    self.state = SupervisorState::Running;
                    Ok(())
                } else {
                    self.state = SupervisorState::Idle;
                    self.outputs = None;
                    Err(RecorderError::SpawnFailure)
                }
            },
            _ => Ok(()),
        }
    }

    /// Requests a pause or its end. A running session flips its pause flag
    /// and has the signal written; whether the process takes it is not
    /// known. Without a running process nothing changes and nothing is
    /// written.
    pub fn toggle_pause(&mut self) -> (signal: Option<ControlSignal>)
        requires
            old(self).well_formed(),
        ensures
            final(self).well_formed(),
            old(self).state == SupervisorState::Running ==> signal == Some(
                ControlSignal::TogglePause,
            ) && *final(self) == (VideoEncoder { paused: !old(self).paused, ..*old(self) }),
            old(self).state != SupervisorState::Running ==> signal is None && *final(self) == *old(
                self,
            ),
    {
        match self.state {
            SupervisorState::Running => {
                self.paused = !self.paused;
                Some(ControlSignal::TogglePause)
            },
            _ => None,
        }
    }

    /// Requests the end of the session. A running session is stopping from
    /// now on, no longer paused, and has the quit signal written. A starting
    /// session, whose process was never spawned, is stopped at once. Any
    /// other session is left as it is and nothing is written.
    pub fn stop(&mut self) -> (signal: Option<ControlSignal>)
        requires
            old(self).well_formed(),
        ensures
            final(self).well_formed(),
            old(self).state == SupervisorState::Running ==> signal == Some(ControlSignal::Quit)
                && *final(self) == (VideoEncoder {
                state: SupervisorState::Stopping,
                paused: false,
                ..*old(self)
            }),
            old(self).state == SupervisorState::Starting ==> signal is None && *final(self) == (
            VideoEncoder { state: SupervisorState::Stopped, ..*old(self) }),
            old(self).state != SupervisorState::Running && old(self).state
                != SupervisorState::Starting ==> signal is None && *final(self) == *old(self),
    {
        match self.state {
            SupervisorState::Running => {
                self.state = SupervisorState::Stopping;
                self.paused = false;
                Some(ControlSignal::Quit)
            },
            SupervisorState::Starting => {
                self.state = SupervisorState::Stopped;
                None
            },
            _ => None,
        }
    }

    /// Decides the next step of a stopping session from a look at its
    /// process: `exit` is `None` while it runs, else whether it exited with
    /// success. An exit ends the session. A process that still runs is waited
    /// for, one polling interval at a time, until the grace period is used
    /// up; then it is to be killed, which ends the session too.
    pub fn next_stop_step(&mut self, exit: Option<bool>) -> (step: StopStep)
        requires
            old(self).well_formed(),
        ensures
            final(self).well_formed(),
            step == stop_step(old(self).state, old(self).waited_ms, exit),
            *final(self) == (VideoEncoder {
                state: state_after_stop_step(old(self).state, step),
                waited_ms: if step == StopStep::Wait {
                    (old(self).waited_ms + EXIT_POLL_MS) as u64
                } else if step == StopStep::NotStopping {
                    old(self).waited_ms
                } else {
                    0
                },
                ..*old(self)
            }),
    {
        match self.state {
            SupervisorState::Stopping => {},
            _ => {
                return StopStep::NotStopping;
            },
        }
        match exit {
            Some(success) => {
                self.state = SupervisorState::Stopped;
                self.waited_ms = 0;
                if success {
                    StopStep::Finished
                } else {
                    StopStep::Failed
                }
            },
            None => {
                if self.waited_ms >= EXIT_GRACE_MS {
                    self.state = SupervisorState::Stopped;
                    self.waited_ms = 0;
                    StopStep::Kill
                } else {
                    self.waited_ms = self.waited_ms + EXIT_POLL_MS;
                    StopStep::Wait
                }
            },
        }
    }

    /// Takes note that the process was seen to have exited outside the stop
    /// sequence. For a running session this is an unexpected end: the
    /// session is stopped and the condition is returned. Any other session is
    /// left as it is.
    pub fn process_exited(&mut self) -> (r: Result<(), RecorderError>)
        requires
            old(self).well_formed(),
        ensures
            final(self).well_formed(),
            old(self).state == SupervisorState::Running ==> r == Err::<(), RecorderError>(
                RecorderError::StreamTerminatedUnexpectedly,
            ) && *final(self) == (VideoEncoder {
                state: SupervisorState::Stopped,
                paused: false,
                ..*old(self)
            }),
            old(self).state != SupervisorState::Running ==> r is Ok && *final(self) == *old(self),
    {
        match self.state {
            SupervisorState::Running => {
                self.state = SupervisorState::Stopped;
                self.paused = false;
                Err(RecorderError::StreamTerminatedUnexpectedly)
            },
            _ => Ok(()),
        }
    }
}

/// The step that a look at the process calls for.
pub open spec fn stop_step(state: SupervisorState, waited_ms: u64, exit: Option<bool>) -> StopStep {
    if state != SupervisorState::Stopping {
        StopStep::NotStopping
    } else {
        match exit {
            Some(success) => if success {
                StopStep::Finished
            } else {
                StopStep::Failed
            },
            None => if waited_ms >= EXIT_GRACE_MS {
                StopStep::Kill
            } else {
                StopStep::Wait
            },
        }
    }
}

/// The state that a stop step leaves: waiting changes nothing, every other
/// step of a stopping session ends it.
pub open spec fn state_after_stop_step(state: SupervisorState, step: StopStep) -> SupervisorState {
    match step {
        StopStep::NotStopping | StopStep::Wait => state,
        _ => SupervisorState::Stopped,
    }
}

/// How long a stopping session has waited after a number of looks that all
/// found the process running.
pub open spec fn waited_after(looks: nat) -> nat {
    looks * EXIT_POLL_MS as nat
}

/// A process that never exits is waited for at fifty looks and killed at the
/// next one: after five seconds, and never later.
pub proof fn kill_follows_the_grace_period(looks: nat)
    requires
        looks <= EXIT_GRACE_MS / EXIT_POLL_MS,
    ensures
        looks < 50 ==> stop_step(SupervisorState::Stopping, waited_after(looks) as u64, None)
            == StopStep::Wait,
        looks == 50 ==> stop_step(SupervisorState::Stopping, waited_after(looks) as u64, None)
            == StopStep::Kill,
        waited_after(looks) <= EXIT_GRACE_MS,
{
    assert(waited_after(looks) == looks * 100);
}

/// A copy of a set of outputs.
pub fn copy_outputs(outputs: &RecordingOutputs) -> (copy: RecordingOutputs)
    ensures
        copy@ == outputs@,
{
    RecordingOutputs {
        combined: copy_text(&outputs.combined),
        video_only: copy_text(&outputs.video_only),
        audio_only: copy_text(&outputs.audio_only),
    }
}

} // verus!
