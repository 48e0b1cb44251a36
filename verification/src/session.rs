//! The conversion session: a state machine that decides, step by step, what
//! the surrounding application must do next. The application performs the
//! outside work (spawning the tools, probing the temporary directory) and
//! reports each outcome back as an [`Event`]; every decision — which tool to
//! run with which arguments, when to stop enumerating frames, when to abort —
//! is taken here and verified.

use vstd::prelude::*;

use crate::args::encode_args_spec;
use crate::args::encoding_args;
use crate::args::frame_file_path;
use crate::args::frame_path_spec;

verus! {

/// The external tool a failure belongs to.
#[derive(Clone, Copy, Debug, PartialEq, Eq, Structural)]
pub enum Tool {
    Extraction,
    Encoding,
}

/// Why a conversion run aborted.
#[derive(Clone, Copy, Debug, PartialEq, Eq, Structural)]
pub enum ConvertError {
    /// The tool's executable could not be launched.
    ExternalToolNotFound { tool: Tool },
    /// The tool ran but exited with a non-success status.
    ExternalToolFailure { tool: Tool },
    /// Extraction reported success but no frame file was found.
    NoFramesProduced,
    /// Creating the temporary directory or probing it failed.
    IoFailure,
}

/// Where a session stands.
#[derive(Clone, Copy, Debug, PartialEq, Eq, Structural)]
pub enum Phase {
    /// The extraction tool is running.
    Extracting,
    /// Frames are being enumerated by probing for successive indices.
    Probing,
    /// The encoding tool is running.
    Encoding,
    /// The run finished and was reported.
    Done,
    /// The run aborted; no further event is accepted.
    Failed,
}

/// What the application reports back after performing an action.
#[derive(Clone, Copy, Debug, PartialEq, Eq, Structural)]
pub enum Event {
    /// The current tool's executable could not be launched.
    SpawnFailed,
    /// The current tool exited; `success` tells whether with status zero.
    ToolExited { success: bool },
    /// The probed frame file exists or not.
    ProbeResult { exists: bool },
    /// Probing the file system itself failed.
    ProbeFailed,
}

/// What the application must do next.
pub enum Action {
    /// Check whether the file at `path` exists and report a
    /// [`Event::ProbeResult`].
    ProbeFrame { path: String },
    /// Run the encoding tool with `args` and report how it exited.
    RunEncoding { args: Vec<String> },
    /// Report success: the animation was written from `frame_count` frames.
    Report { frame_count: usize },
    /// Abort the run with `error`; no further step will be accepted.
    Fail { error: ConvertError },
}

/// One conversion run. It starts with the extraction tool already to be
/// launched (its arguments come from [`crate::extraction_args`]); every
/// outcome is fed to [`Session::step`], whose returned [`Action`] tells the
/// application what to do next.
pub struct Session {
    /// The destination path of the animation.
    pub output: String,
    /// The temporary directory the extractor writes frames into.
    pub temp_dir: String,
    /// The requested frame rate; positive.
    pub fps: u32,
    /// Where the session stands.
    pub phase: Phase,
    /// The frame paths found so far, for indices `1..next_index`, ascending.
    pub frames: Vec<String>,
    /// The next frame index to probe for.
    pub next_index: u32,
}

impl Session {
    /// The session's internal invariant: the frame list holds exactly the
    /// paths for indices `1..next_index`, in ascending order with no gaps.
    pub open spec fn wf(self) -> bool {
        &&& self.fps >= 1
        &&& 1 <= self.next_index
        &&& self.frames@.len() == self.next_index - 1
        &&& forall|i: int|
            0 <= i < self.frames@.len() ==> self.frames@[i]@ == frame_path_spec(
                self.temp_dir@,
                (i + 1) as nat,
            )
    }

    /// Which events a session in its current phase can be given. `Done` and
    /// `Failed` are terminal: they accept none.
    pub open spec fn expects(self, event: Event) -> bool {
        match self.phase {
            Phase::Extracting => event is SpawnFailed || event is ToolExited,
            Phase::Probing => event is ProbeResult || event is ProbeFailed,
            Phase::Encoding => event is SpawnFailed || event is ToolExited,
            Phase::Done => false,
            Phase::Failed => false,
        }
    }

    /// Starts a run: the application is expected to have launched the
    /// extraction tool (arguments from [`crate::extraction_args`]) and to
    /// report how that went.
    pub fn new(output: String, temp_dir: String, fps: u32) -> (s: Session)
        requires
            fps >= 1,
        ensures
            s.wf(),
            s.phase is Extracting,
            s.output@ == output@,
            s.temp_dir@ == temp_dir@,
            s.fps == fps,
            s.frames@.len() == 0,
            s.next_index == 1,
    {
        Session { output, temp_dir, fps, phase: Phase::Extracting, frames: Vec::new(), next_index: 1 }
    }

    /// Takes the outcome of the last action and decides what happens next.
    ///
    /// The contract pins every transition down. In particular: a failure of
    /// either tool, a failed launch, a probe error, or an empty frame set
    /// moves the session to the terminal `Failed` phase, from which no
    /// further event is accepted — so after a failed extraction the encoding
    /// tool can never be asked for, and after a failed encoding no success
    /// is ever reported. Encoding is asked for exactly when probing ends
    /// with at least one frame found, and success is reported exactly when
    /// the encoding tool exits successfully.
    pub fn step(&mut self, event: Event) -> (a: Action)
        requires
            old(self).wf(),
            old(self).expects(event),
            event matches Event::ProbeResult { exists: true } ==> old(self).next_index
                < u32::MAX,
        ensures
            final(self).wf(),
            final(self).output@ == old(self).output@,
            final(self).temp_dir@ == old(self).temp_dir@,
            final(self).fps == old(self).fps,
            // Launch failures name the tool that could not be started.
            old(self).phase is Extracting && event is SpawnFailed ==> final(self).phase is Failed
                && (a matches Action::Fail { error } && error == (
            ConvertError::ExternalToolNotFound { tool: Tool::Extraction })),
            old(self).phase is Encoding && event is SpawnFailed ==> final(self).phase is Failed
                && (a matches Action::Fail { error } && error == (
            ConvertError::ExternalToolNotFound { tool: Tool::Encoding })),
            // A tool that exits non-zero aborts the run.
            old(self).phase is Extracting && event == (Event::ToolExited { success: false })
                ==> final(self).phase is Failed && (a matches Action::Fail { error } && error == (
            ConvertError::ExternalToolFailure { tool: Tool::Extraction })),
            old(self).phase is Encoding && event == (Event::ToolExited { success: false })
                ==> final(self).phase is Failed && (a matches Action::Fail { error } && error == (
            ConvertError::ExternalToolFailure { tool: Tool::Encoding })),
            // Successful extraction starts enumeration at index 1.
            old(self).phase is Extracting && event == (Event::ToolExited { success: true })
                ==> final(self).phase is Probing && final(self).next_index == 1 && final(self).frames@.len() == 0 && (a matches Action::ProbeFrame { path } && path@
                == frame_path_spec(old(self).temp_dir@, 1)),
            // A frame that exists is collected and the next index is probed.
            old(self).phase is Probing && event == (Event::ProbeResult { exists: true }) ==> final(self).phase is Probing && final(self).next_index == old(self).next_index + 1 && final(self).frames@.len() == old(self).frames@.len() + 1 && final(self).frames@.drop_last()
                == old(self).frames@ && (a matches Action::ProbeFrame { path } && path@
                == frame_path_spec(old(self).temp_dir@, (old(self).next_index + 1) as nat)),
            // The first missing index ends enumeration: with no frame found
            // at all the run aborts, otherwise encoding starts with exactly
            // the collected frames, in order.
            old(self).phase is Probing && event == (Event::ProbeResult { exists: false }) && old(
                self,
            ).frames@.len() == 0 ==> final(self).phase is Failed && (a matches Action::Fail {
                error,
            } && error == ConvertError::NoFramesProduced),
            old(self).phase is Probing && event == (Event::ProbeResult { exists: false }) && old(
                self,
            ).frames@.len() > 0 ==> final(self).phase is Encoding && final(self).frames@ == old(
                self,
            ).frames@ && (a matches Action::RunEncoding { args } && args.deep_view()
                == encode_args_spec(
                old(self).fps,
                old(self).output@,
                old(self).frames.deep_view(),
            )),
            old(self).phase is Probing && event is ProbeFailed ==> final(self).phase is Failed && (
            a matches Action::Fail { error } && error == ConvertError::IoFailure),
            // Success is reported exactly when encoding exits with status
            // zero, and carries the number of frames encoded.
            old(self).phase is Encoding && event == (Event::ToolExited { success: true })
                ==> final(self).phase is Done && (a matches Action::Report { frame_count }
                && frame_count == old(self).frames@.len()),
            // Encoding is asked for in exactly one case, and success in one.
            (a is RunEncoding) <==> (old(self).phase is Probing && event == (Event::ProbeResult {
                exists: false,
            }) && old(self).frames@.len() > 0),
            (a is Report) <==> (old(self).phase is Encoding && event == (Event::ToolExited {
                success: true,
            })),
            (a is Fail) <==> (final(self).phase is Failed),
            final(self).phase is Failed || final(self).phase is Done ==> forall|e: Event|
                !final(self).expects(e),
    {
        match self.phase {
            Phase::Extracting => {
                match event {
                    Event::SpawnFailed => {
                        self.phase = Phase::Failed;
                        Action::Fail {
                            error: ConvertError::ExternalToolNotFound { tool: Tool::Extraction },
                        }
                    },
                    Event::ToolExited { success } => {
                        if success {
                            self.phase = Phase::Probing;
                            self.frames = Vec::new();
                            self.next_index = 1;
                            Action::ProbeFrame { path: frame_file_path(self.temp_dir.as_str(), 1) }
                        } else {
                            self.phase = Phase::Failed;
                            Action::Fail {
                                error: ConvertError::ExternalToolFailure { tool: Tool::Extraction },
                            }
                        }
                    },
                    _ => unreached(),
                }
            },
            Phase::Probing => {
                match event {
                    Event::ProbeResult { exists: true } => {
                        let found = frame_file_path(self.temp_dir.as_str(), self.next_index);
                        self.frames.push(found);
                        self.next_index = self.next_index + 1;
                        let next = frame_file_path(self.temp_dir.as_str(), self.next_index);
                        Action::ProbeFrame { path: next }
                    },
                    Event::ProbeResult { exists: false } => {
                        if self.frames.len() == 0 {
                            self.phase = Phase::Failed;
                            Action::Fail { error: ConvertError::NoFramesProduced }
                        } else {
                            self.phase = Phase::Encoding;
                            let args = encoding_args(
                                self.fps,
                                self.output.as_str(),
                                &self.frames,
                            );
                            Action::RunEncoding { args }
                        }
                    },
                    Event::ProbeFailed => {
                        self.phase = Phase::Failed;
                        Action::Fail { error: ConvertError::IoFailure }
                    },
                    _ => unreached(),
                }
            },
            Phase::Encoding => {
                match event {
                    Event::SpawnFailed => {
                        self.phase = Phase::Failed;
                        Action::Fail {
                            error: ConvertError::ExternalToolNotFound { tool: Tool::Encoding },
                        }
                    },
                    Event::ToolExited { success } => {
                        if success {
                            self.phase = Phase::Done;
                            Action::Report { frame_count: self.frames.len() }
                        } else {
                            self.phase = Phase::Failed;
                            Action::Fail {
                                error: ConvertError::ExternalToolFailure { tool: Tool::Encoding },
                            }
                        }
                    },
                    _ => unreached(),
                }
            },
            Phase::Done => unreached(),
            Phase::Failed => unreached(),
        }
    }
}

/// Once a run has failed or finished, no event is accepted any more: in
/// particular, after a failed extraction the encoding tool can never be
/// asked for, and after a failed encoding no success is ever reported.
pub proof fn lemma_terminal_phases(s: Session, e: Event)
    requires
        s.phase is Failed || s.phase is Done,
    ensures
        !s.expects(e),
{
}

/// For every well-formed session, the collected frame paths are exactly the
/// paths for the indices `1 ..= frames.len()`: strictly ascending numeric
/// indices starting at 1, with no gaps.
pub proof fn lemma_frames_contiguous(s: Session)
    requires
        s.wf(),
    ensures
        forall|i: int|
            0 <= i < s.frames@.len() ==> s.frames@[i]@ == frame_path_spec(
                s.temp_dir@,
                (i + 1) as nat,
            ),
{
}

} // verus!
