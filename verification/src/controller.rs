use vstd::prelude::*;

use crate::frame::Frame;
use crate::recorder::RecorderRequest;

verus! {

/// A frame whose activity reaches this many foreground regions counts as
/// motion.
pub const DEFAULT_ACTIVITY_THRESHOLD: u32 = 50;

/// Once motion has been seen, recording keeps going until this much time
/// has passed without any further motion.
pub const DEFAULT_MIN_RECORD_MILLIS: u64 = 3000;

/// What the controller decided for one frame: whether to open a recording,
/// whether to close it, and whether the frame itself is to be recorded.
/// `start` and `stop` are never both set in the same frame.
pub struct FrameDecision {
    pub start: bool,
    pub stop: bool,
    pub record_frame: bool,
}

impl FrameDecision {
    /// The requests this decision sends to the recording actor, in the
    /// order the control loop issues them: a `Start` before anything else,
    /// then a `Stop`, and last the frame itself whenever it is to be
    /// recorded.
    pub open spec fn spec_requests(self, frame: Frame) -> Seq<RecorderRequest> {
        (if self.start {
            seq![RecorderRequest::Start]
        } else {
            Seq::empty()
        }) + (if self.stop {
            seq![RecorderRequest::Stop]
        } else {
            Seq::empty()
        }) + (if self.record_frame {
            seq![RecorderRequest::Frame(frame)]
        } else {
            Seq::empty()
        })
    }

    pub fn into_requests(&self, frame: Frame) -> (reqs: Vec<RecorderRequest>)
        ensures
            reqs@ == self.spec_requests(frame),
    {
        let ghost frame_view = frame;
        let mut reqs: Vec<RecorderRequest> = Vec::new();
        if self.start {
            reqs.push(RecorderRequest::Start);
        }
        if self.stop {
            reqs.push(RecorderRequest::Stop);
        }
        if self.record_frame {
            reqs.push(RecorderRequest::Frame(frame));
        }
        proof {
            assert(reqs@ =~= self.spec_requests(frame_view));
        }
        reqs
    }
}

/// The hysteresis state machine that turns the per-frame activity signal
/// into start/stop decisions: recording starts the moment activity crosses
/// the threshold and stops only once at least `min_record_millis` have
/// passed since the last frame with motion.
pub struct MotionRecordingController {
    pub activity_threshold: u32,
    pub min_record_millis: u64,
    pub is_recording: bool,
    pub last_motion_millis: Option<u64>,
}

impl MotionRecordingController {
    /// The last-motion timestamp is present whenever a recording is going
    /// on (it is set in the same frame that starts one).
    pub open spec fn wf(&self) -> bool {
        self.is_recording ==> self.last_motion_millis is Some
    }

    pub open spec fn sees_motion(&self, activity: u32) -> bool {
        activity >= self.activity_threshold
    }

    /// A quiet frame stops the recording exactly when the minimum recording
    /// duration has elapsed since the last motion.
    pub open spec fn should_stop(&self, activity: u32, now_millis: u64) -> bool {
        &&& !self.sees_motion(activity)
        &&& self.is_recording
        &&& match self.last_motion_millis {
            Some(t) => t + self.min_record_millis <= now_millis,
            None => false,
        }
    }

    /// The controller after one frame, paired with the decision for that
    /// frame: motion refreshes the last-motion timestamp and starts a
    /// recording if none is going on; a sufficiently late quiet frame stops
    /// it; the frame is recorded exactly when a recording is on afterwards.
    pub open spec fn spec_step(self, activity: u32, now_millis: u64) -> (
        MotionRecordingController,
        FrameDecision,
    ) {
        if self.sees_motion(activity) {
            (
                MotionRecordingController {
                    is_recording: true,
                    last_motion_millis: Some(now_millis),
                    ..self
                },
                FrameDecision { start: !self.is_recording, stop: false, record_frame: true },
            )
        } else if self.should_stop(activity, now_millis) {
            (
                MotionRecordingController { is_recording: false, ..self },
                FrameDecision { start: false, stop: true, record_frame: false },
            )
        } else {
            (
                self,
                FrameDecision {
                    start: false,
                    stop: false,
                    record_frame: self.is_recording,
                },
            )
        }
    }

    pub fn new(activity_threshold: u32, min_record_millis: u64) -> (c: MotionRecordingController)
        ensures
            c.activity_threshold == activity_threshold,
            c.min_record_millis == min_record_millis,
            !c.is_recording,
            c.last_motion_millis is None,
            c.wf(),
    {
        MotionRecordingController {
            activity_threshold,
            min_record_millis,
            is_recording: false,
            last_motion_millis: None,
        }
    }

    /// Advances the state machine by one frame with the given activity
    /// measurement and timestamp, and returns the decision for that frame.
    pub fn step(&mut self, activity: u32, now_millis: u64) -> (d: FrameDecision)
        ensures
            (*final(self), d) == old(self).spec_step(activity, now_millis),
            old(self).wf() ==> final(self).wf(),
    {
        let mut start = false;
        let mut stop = false;
        if activity >= self.activity_threshold {
            if !self.is_recording {
                start = true;
                self.is_recording = true;
            }
            self.last_motion_millis = Some(now_millis);
        } else if self.is_recording {
            if let Some(t) = self.last_motion_millis {
                if now_millis >= t && now_millis - t >= self.min_record_millis {
                    stop = true;
                    self.is_recording = false;
                }
            }
        }
        FrameDecision { start, stop, record_frame: self.is_recording }
    }
}

/// A decision never asks to start and stop in the same frame.
pub proof fn lemma_start_stop_exclusive(
    c: MotionRecordingController,
    activity: u32,
    now_millis: u64,
)
    ensures
        !(c.spec_step(activity, now_millis).1.start && c.spec_step(activity, now_millis).1.stop),
{
}

/// No flapping: as long as every quiet frame arrives within the minimum
/// recording duration of the last motion, a running recording is never
/// stopped, and it keeps recording frames.
pub proof fn lemma_no_flap(c: MotionRecordingController, activity: u32, now_millis: u64)
    requires
        c.is_recording,
        c.last_motion_millis matches Some(t) && now_millis < t + c.min_record_millis,
    ensures
        !c.spec_step(activity, now_millis).1.stop,
        c.spec_step(activity, now_millis).0.is_recording,
        c.spec_step(activity, now_millis).1.record_frame,
{
}

} // verus!
