use super::clock::now;
use std::collections::VecDeque;
use std::time::Instant;
use vstd::prelude::*;

verus! {

/// The recorded stage timings of one system in one frame.
#[derive(Clone, Copy, Debug)]
pub struct SystemTiming {
    pub label: &'static str,
    pub frame_init_start: Instant,
    pub frame_init_end: Instant,

    pub main_process_start: Instant,
    pub main_process_end: Instant,

    pub post_process_start: Instant,
    pub post_process_end: Instant,
}

/// The state of a [`SystemProfiler`]: its label and the start and end of each stage, if
/// recorded this frame.
pub struct SystemProfilerModel {
    pub label: &'static str,
    pub frame_init: (Option<Instant>, Option<Instant>),
    pub main_process: (Option<Instant>, Option<Instant>),
    pub post_process: (Option<Instant>, Option<Instant>),
}

impl SystemProfilerModel {
    /// The recorded start and end of `stage`.
    pub open spec fn stage(self, stage: ProfilerStage) -> (Option<Instant>, Option<Instant>) {
        match stage {
            ProfilerStage::FrameInit => self.frame_init,
            ProfilerStage::MainProcess => self.main_process,
            ProfilerStage::PostProcess => self.post_process,
        }
    }

    /// Every stage of this frame has been recorded.
    pub open spec fn is_complete(self) -> bool {
        &&& self.frame_init.0 is Some && self.frame_init.1 is Some
        &&& self.main_process.0 is Some && self.main_process.1 is Some
        &&& self.post_process.0 is Some && self.post_process.1 is Some
    }

    /// No stage has been recorded since the last reset.
    pub open spec fn is_clear(self) -> bool {
        &&& self.frame_init == (None::<Instant>, None::<Instant>)
        &&& self.main_process == (None::<Instant>, None::<Instant>)
        &&& self.post_process == (None::<Instant>, None::<Instant>)
    }

    /// `timing` holds this profiler's label and recorded stages.
    pub open spec fn recorded_as(self, timing: SystemTiming) -> bool {
        &&& timing.label == self.label
        &&& Some(timing.frame_init_start) == self.frame_init.0
        &&& Some(timing.frame_init_end) == self.frame_init.1
        &&& Some(timing.main_process_start) == self.main_process.0
        &&& Some(timing.main_process_end) == self.main_process.1
        &&& Some(timing.post_process_start) == self.post_process.0
        &&& Some(timing.post_process_end) == self.post_process.1
    }
}

/// The stages of a frame that a [`SystemProfiler`] times.
#[derive(Debug, Clone, Copy, PartialEq, Eq, Structural)]
pub enum ProfilerStage {
    FrameInit,
    MainProcess,
    PostProcess,
}

/// Records when each frame stage of one system starts and ends.
pub struct SystemProfiler {
    label: &'static str,
    frame_init_start: Option<Instant>,
    frame_init_end: Option<Instant>,
    main_process_start: Option<Instant>,
    main_process_end: Option<Instant>,
    post_process_start: Option<Instant>,
    post_process_end: Option<Instant>,
}

impl View for SystemProfiler {
    type V = SystemProfilerModel;

    closed spec fn view(&self) -> SystemProfilerModel {
        SystemProfilerModel {
            label: self.label,
            frame_init: (self.frame_init_start, self.frame_init_end),
            main_process: (self.main_process_start, self.main_process_end),
            post_process: (self.post_process_start, self.post_process_end),
        }
    }
}

impl SystemProfiler {
    /// A profiler for the system labelled `label`, with no stage recorded.
    pub fn new(label: &'static str) -> (r: Self)
        ensures
            r@.label == label,
            r@.frame_init == (None::<Instant>, None::<Instant>),
            r@.main_process == (None::<Instant>, None::<Instant>),
            r@.post_process == (None::<Instant>, None::<Instant>),
    {
        SystemProfiler {
            label,
            frame_init_start: None,
            frame_init_end: None,
            main_process_start: None,
            main_process_end: None,
            post_process_start: None,
            post_process_end: None,
        }
    }

    /// Whether neither end of `stage` has been recorded since the last reset.
    pub fn is_stage_clear(&self, stage: ProfilerStage) -> (r: bool)
        ensures
            r == (self@.stage(stage) == (None::<Instant>, None::<Instant>)),
    {
        match stage {
            ProfilerStage::FrameInit => self.frame_init_start.is_none() && self.frame_init_end.is_none(),
            ProfilerStage::MainProcess => self.main_process_start.is_none() && self.main_process_end.is_none(),
            ProfilerStage::PostProcess => self.post_process_start.is_none() && self.post_process_end.is_none(),
        }
    }

    /// Whether every stage of this frame has been recorded, as [`SystemProfiler::reset`] needs.
    pub fn is_complete(&self) -> (r: bool)
        ensures
            r == (self@.frame_init.0 is Some && self@.frame_init.1 is Some && self@.main_process.0 is Some
                && self@.main_process.1 is Some && self@.post_process.0 is Some && self@.post_process.1 is Some),
    {
        self.frame_init_start.is_some() && self.frame_init_end.is_some() && self.main_process_start.is_some()
            && self.main_process_end.is_some() && self.post_process_start.is_some()
            && self.post_process_end.is_some()
    }

    /// Runs the frame initialization stage `f`, recording when it starts and ends.
    ///
    /// ## Panics
    /// With debug assertions, panics if the stage was already recorded this frame;
    /// `requires` leaves that out.
    pub fn frame_init(&mut self, f: impl FnOnce())
        requires
            old(self)@.frame_init == (None::<Instant>, None::<Instant>),
            f.requires(()),
        ensures
            f.ensures((), ()),
            final(self)@.frame_init.0 is Some,
            final(self)@.frame_init.1 is Some,
            final(self)@.label == old(self)@.label,
            final(self)@.main_process == old(self)@.main_process,
            final(self)@.post_process == old(self)@.post_process,
    {
        self.frame_init_start = Some(now());
        f();
        self.frame_init_end = Some(now());
    }

    /// Runs the main processing stage `f`, recording when it starts and ends.
    ///
    /// ## Panics
    /// With debug assertions, panics if the stage was already recorded this frame;
    /// `requires` leaves that out.
    pub fn main_process(&mut self, f: impl FnOnce())
        requires
            old(self)@.main_process == (None::<Instant>, None::<Instant>),
            f.requires(()),
        ensures
            f.ensures((), ()),
            final(self)@.main_process.0 is Some,
            final(self)@.main_process.1 is Some,
            final(self)@.label == old(self)@.label,
            final(self)@.frame_init == old(self)@.frame_init,
            final(self)@.post_process == old(self)@.post_process,
    {
        self.main_process_start = Some(now());
        f();
        self.main_process_end = Some(now());
    }

    /// Runs the post processing stage `f`, recording when it starts and ends.
    ///
    /// ## Panics
    /// With debug assertions, panics if the stage was already recorded this frame;
    /// `requires` leaves that out.
    pub fn post_process(&mut self, f: impl FnOnce())
        requires
            old(self)@.post_process == (None::<Instant>, None::<Instant>),
            f.requires(()),
        ensures
            f.ensures((), ()),
            final(self)@.post_process.0 is Some,
            final(self)@.post_process.1 is Some,
            final(self)@.label == old(self)@.label,
            final(self)@.frame_init == old(self)@.frame_init,
            final(self)@.main_process == old(self)@.main_process,
    {
        self.post_process_start = Some(now());
        f();
        self.post_process_end = Some(now());
    }

    /// Hands out this frame's recorded timings and clears them for the next frame.
    ///
    /// ## Panics
    /// Panics if a stage was not recorded; `requires` leaves that out.
    pub fn reset(&mut self) -> (r: SystemTiming)
        requires
            old(self)@.frame_init.0 is Some && old(self)@.frame_init.1 is Some,
            old(self)@.main_process.0 is Some && old(self)@.main_process.1 is Some,
            old(self)@.post_process.0 is Some && old(self)@.post_process.1 is Some,
        ensures
            r.label == old(self)@.label,
            Some(r.frame_init_start) == old(self)@.frame_init.0,
            Some(r.frame_init_end) == old(self)@.frame_init.1,
            Some(r.main_process_start) == old(self)@.main_process.0,
            Some(r.main_process_end) == old(self)@.main_process.1,
            Some(r.post_process_start) == old(self)@.post_process.0,
            Some(r.post_process_end) == old(self)@.post_process.1,
            final(self)@.label == old(self)@.label,
            final(self)@.frame_init == (None::<Instant>, None::<Instant>),
            final(self)@.main_process == (None::<Instant>, None::<Instant>),
            final(self)@.post_process == (None::<Instant>, None::<Instant>),
    {
        SystemTiming {
            label: self.label,
            frame_init_start: take_instant(&mut self.frame_init_start),
            frame_init_end: take_instant(&mut self.frame_init_end),
            main_process_start: take_instant(&mut self.main_process_start),
            main_process_end: take_instant(&mut self.main_process_end),
            post_process_start: take_instant(&mut self.post_process_start),
            post_process_end: take_instant(&mut self.post_process_end),
        }
    }
}

/// Takes a recorded instant out of its slot, leaving the slot empty.
fn take_instant(slot: &mut Option<Instant>) -> (r: Instant)
    requires
        *old(slot) is Some,
    ensures
        Some(r) == *old(slot),
        *final(slot) == None::<Instant>,
{
    match slot.take() {
        Some(instant) => instant,
        None => vstd::pervasive::unreached(),
    }
}

/// Hands out each system's timings for the finished frame, in the systems' order, and clears
/// every profiler for the next frame.
///
/// ## Panics
/// Panics if a profiler has a stage not recorded this frame; `requires` leaves that out.
pub fn finish_system_timings(profilers: &mut Vec<&mut SystemProfiler>) -> (r: Vec<SystemTiming>)
    requires
        forall|k: int| #![trigger old(profilers)@[k]] 0 <= k < old(profilers)@.len() ==> old(profilers)@[k]@.is_complete(),
    ensures
        r@.len() == old(profilers)@.len(),
        final(profilers)@.len() == old(profilers)@.len(),
        forall|k: int| #![trigger r@[k]] 0 <= k < r@.len() ==> {
            &&& old(profilers)@[k]@.recorded_as(r@[k])
            &&& final(profilers)@[k]@.label == old(profilers)@[k]@.label
            &&& final(profilers)@[k]@.is_clear()
        },
{
    let mut timings: Vec<SystemTiming> = Vec::new();
    let mut k: usize = 0;
    while k < profilers.len()
        invariant
            k <= profilers@.len(),
            profilers@.len() == old(profilers)@.len(),
            timings@.len() == k,
            forall|m: int| k <= m < profilers@.len() ==> #[trigger] profilers@[m] == old(profilers)@[m],
            forall|m: int| #![trigger old(profilers)@[m]] 0 <= m < old(profilers)@.len() ==> old(profilers)@[m]@.is_complete(),
            forall|m: int| #![trigger timings@[m]] 0 <= m < k ==> {
                &&& old(profilers)@[m]@.recorded_as(timings@[m])
                &&& profilers@[m]@.label == old(profilers)@[m]@.label
                &&& profilers@[m]@.is_clear()
            },
        decreases profilers@.len() - k,
    {
        let profiler: &mut &mut SystemProfiler = &mut profilers[k];
        let timing = profiler.reset();
        timings.push(timing);
        k = k + 1;
    }
    timings
}

/// The history after recording `frame`: if it already held `max_history_size` frames or more,
/// its oldest frame is dropped first.
pub open spec fn pushed_history<T>(history: Seq<T>, max_history_size: int, frame: T) -> Seq<T> {
    let kept = if history.len() >= max_history_size && history.len() > 0 {
        history.drop_first()
    } else {
        history
    };
    kept.push(frame)
}

/// Appends a finished frame to the history, dropping the oldest frame once the history holds
/// `max_history_size` frames.
pub fn push_frame_history<T>(history: &mut VecDeque<T>, max_history_size: usize, frame: T)
    ensures
        final(history)@ == pushed_history(old(history)@, max_history_size as int, frame),
{
    if history.len() >= max_history_size {
        history.pop_front();
    }
    history.push_back(frame);
}

/// The history never grows past its limit: a history within a limit of at least one frame stays
/// within it, and the newest frame is always the one just recorded.
/// A limit of zero is left out: the history then still keeps the newest frame.
pub proof fn lemma_history_bounded<T>(history: Seq<T>, max_history_size: int, frame: T)
    requires
        1 <= max_history_size,
        history.len() <= max_history_size,
    ensures
        pushed_history(history, max_history_size, frame).len() <= max_history_size,
        pushed_history(history, max_history_size, frame).last() == frame,
{
}

} // verus!
