//! Engine scheduling support: per-system stage timing, the bounded frame history and the
//! message bus queues.

pub mod bus;
pub mod clock;
pub mod frame_profiler;

pub use bus::{advance_frame, queue_messages};
pub use clock::calculate_time;
pub use frame_profiler::{
    finish_system_timings, lemma_history_bounded, push_frame_history, pushed_history, ProfilerStage, SystemProfiler, SystemProfilerModel,
    SystemTiming,
};
