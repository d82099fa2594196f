//! Frame stage profiling: splits each frame into stages and measures how long each took.

use crate::engine::clock::{duration_since, now};
use std::time::{Duration, Instant};
use vstd::prelude::*;

verus! {

/// The stages a frame goes through.
#[derive(Debug, Clone, Copy, PartialEq, Eq, Structural)]
pub enum FrameStage {
    Transition,
    EventProcessing,
    SceneProcessing,
    RenderProcessing,
}

/// The profile of one finished frame.
#[derive(Debug)]
pub struct ProfilingInfo {
    pub total_time: Duration,
    pub segments: Vec<(FrameStage, Duration)>,
}

/// The state of a [`FrameProfiler`]: the stages finished so far this frame, in order, and the
/// stage now running.
pub struct FrameProfilerModel {
    pub finished_stages: Seq<FrameStage>,
    pub current_stage: FrameStage,
}

/// Measures the stages of a frame.
pub struct FrameProfiler {
    frame_start: Instant,
    segments: Vec<(FrameStage, Duration)>,
    current_stage_start: Instant,
    current_stage: FrameStage,
}

impl View for FrameProfiler {
    type V = FrameProfilerModel;

    closed spec fn view(&self) -> FrameProfilerModel {
        FrameProfilerModel {
            finished_stages: self.segments@.map_values(|s: (FrameStage, Duration)| s.0),
            current_stage: self.current_stage,
        }
    }
}

impl FrameProfiler {
    /// A profiler in the transition stage, with no stage finished.
    pub fn new() -> (r: Self)
        ensures
            r@.finished_stages == Seq::<FrameStage>::empty(),
            r@.current_stage == FrameStage::Transition,
    {
        let r = FrameProfiler {
            frame_start: now(),
            segments: Vec::new(),
            current_stage_start: now(),
            current_stage: FrameStage::Transition,
        };
        assert(r@.finished_stages =~= Seq::<FrameStage>::empty());
        r
    }

    /// Starts a new frame in the event processing stage, forgetting the previous frame's stages.
    pub fn begin_frame(&mut self)
        ensures
            final(self)@.finished_stages == Seq::<FrameStage>::empty(),
            final(self)@.current_stage == FrameStage::EventProcessing,
    {
        self.frame_start = now();
        self.segments.clear();
        self.current_stage_start = self.frame_start;
        self.current_stage = FrameStage::EventProcessing;
        assert(self@.finished_stages =~= Seq::<FrameStage>::empty());
    }

    /// Finishes the running stage, recording how long it took, and starts `stage`.
    pub fn next_stage(&mut self, stage: FrameStage)
        ensures
            final(self)@.finished_stages == old(self)@.finished_stages.push(old(self)@.current_stage),
            final(self)@.current_stage == stage,
    {
        let elapsed = duration_since(now(), self.current_stage_start);
        self.segments.push((self.current_stage, elapsed));
        self.current_stage_start = now();
        self.current_stage = stage;
        assert(self@.finished_stages =~= old(self)@.finished_stages.push(old(self)@.current_stage));
    }

    /// Finishes the running stage and goes into the transition stage.
    pub fn finish_stage(&mut self)
        ensures
            final(self)@.finished_stages == old(self)@.finished_stages.push(old(self)@.current_stage),
            final(self)@.current_stage == FrameStage::Transition,
    {
        self.next_stage(FrameStage::Transition);
    }

    /// Finishes the running stage and the frame, and hands out the frame's stages; the profiler
    /// starts over with no stage finished. The total time is measured from the start of the
    /// transition stage that the finish enters.
    pub fn finish_frame(&mut self) -> (r: ProfilingInfo)
        ensures
            r.segments@.map_values(|s: (FrameStage, Duration)| s.0)
                == old(self)@.finished_stages.push(old(self)@.current_stage),
            final(self)@.finished_stages == Seq::<FrameStage>::empty(),
            final(self)@.current_stage == FrameStage::Transition,
    {
        self.finish_stage();
        let total_time = duration_since(now(), self.current_stage_start);
        let mut segments: Vec<(FrameStage, Duration)> = Vec::with_capacity(8);
        std::mem::swap(&mut segments, &mut self.segments);
        assert(self@.finished_stages =~= Seq::<FrameStage>::empty());
        ProfilingInfo { total_time, segments }
    }
}

} // verus!
