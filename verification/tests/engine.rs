use std::collections::VecDeque;
use zenit::engine::{
    advance_frame, calculate_time, finish_system_timings, push_frame_history, queue_messages, ProfilerStage,
    SystemProfiler,
};
use zenit::profiler::{FrameProfiler, FrameStage};

#[test]
fn system_profiler_records_each_stage_then_resets() {
    let mut profiler = SystemProfiler::new("Test System");
    let mut calls = Vec::new();
    profiler.frame_init(|| calls.push(1));
    profiler.main_process(|| calls.push(2));
    profiler.post_process(|| calls.push(3));
    assert_eq!(calls, vec![1, 2, 3]);
    let timing = profiler.reset();
    assert_eq!(timing.label, "Test System");
    assert!(timing.frame_init_start <= timing.frame_init_end);
    assert!(timing.frame_init_end <= timing.main_process_start);
    assert!(timing.main_process_end <= timing.post_process_start);
    // After a reset the next frame can be recorded again.
    profiler.frame_init(|| {});
    profiler.main_process(|| {});
    profiler.post_process(|| {});
    let next = profiler.reset();
    assert!(timing.post_process_end <= next.frame_init_start);
}

#[test]
fn time_needs_both_ends() {
    assert_eq!(calculate_time(Some(1_000), Some(4_500)), Some(3_500));
    assert_eq!(calculate_time(Some(7), Some(7)), Some(0));
    // A start later than the end saturates to zero.
    assert_eq!(calculate_time(Some(9), Some(2)), Some(0));
    assert_eq!(calculate_time(None, Some(4)), None);
    assert_eq!(calculate_time(Some(4), None), None);
    assert_eq!(calculate_time(None, None), None);
}

#[test]
fn frame_history_is_bounded() {
    let mut history: VecDeque<u32> = VecDeque::new();
    for frame in 0..10 {
        push_frame_history(&mut history, 3, frame);
        assert!(history.len() <= 3);
        assert_eq!(*history.back().unwrap(), frame);
    }
    assert_eq!(history, VecDeque::from(vec![7, 8, 9]));
}

#[test]
fn zero_history_limit_keeps_the_newest_frame() {
    let mut history: VecDeque<u32> = VecDeque::new();
    push_frame_history(&mut history, 0, 1);
    push_frame_history(&mut history, 0, 2);
    assert_eq!(history, VecDeque::from(vec![2]));
}

#[test]
fn frame_profiler_stages() {
    let mut profiler = FrameProfiler::new();
    profiler.begin_frame();
    profiler.next_stage(FrameStage::SceneProcessing);
    profiler.next_stage(FrameStage::RenderProcessing);
    let info = profiler.finish_frame();
    let stages: Vec<FrameStage> = info.segments.iter().map(|(stage, _)| *stage).collect();
    assert_eq!(
        stages,
        vec![FrameStage::EventProcessing, FrameStage::SceneProcessing, FrameStage::RenderProcessing]
    );
    profiler.begin_frame();
    profiler.finish_stage();
    let info = profiler.finish_frame();
    let stages: Vec<FrameStage> = info.segments.iter().map(|(stage, _)| *stage).collect();
    assert_eq!(stages, vec![FrameStage::EventProcessing, FrameStage::Transition]);
}

#[test]
fn queued_messages_arrive_next_frame_in_order() {
    let mut current = vec!["old"];
    let mut queued: Vec<&str> = Vec::new();
    queue_messages(&mut queued, vec!["a", "b"]);
    queue_messages(&mut queued, vec!["c"]);
    assert_eq!(current, vec!["old"]);
    advance_frame(&mut current, &mut queued);
    assert_eq!(current, vec!["a", "b", "c"]);
    assert!(queued.is_empty());
    advance_frame(&mut current, &mut queued);
    assert!(current.is_empty());
}

#[test]
fn profiler_stage_queries() {
    let mut profiler = SystemProfiler::new("Queries");
    assert!(profiler.is_stage_clear(ProfilerStage::FrameInit));
    assert!(!profiler.is_complete());
    profiler.frame_init(|| {});
    assert!(!profiler.is_stage_clear(ProfilerStage::FrameInit));
    assert!(profiler.is_stage_clear(ProfilerStage::MainProcess));
    profiler.main_process(|| {});
    profiler.post_process(|| {});
    assert!(profiler.is_complete());
    profiler.reset();
    assert!(profiler.is_stage_clear(ProfilerStage::PostProcess));
    assert!(!profiler.is_complete());
}

#[test]
fn finishing_a_frame_collects_every_system_in_order() {
    let mut physics = SystemProfiler::new("Physics");
    let mut render = SystemProfiler::new("Render");
    for profiler in [&mut physics, &mut render] {
        profiler.frame_init(|| {});
        profiler.main_process(|| {});
        profiler.post_process(|| {});
    }
    let timings = {
        let mut profilers: Vec<&mut SystemProfiler> = vec![&mut physics, &mut render];
        finish_system_timings(&mut profilers)
    };
    assert_eq!(timings.len(), 2);
    assert_eq!(timings[0].label, "Physics");
    assert_eq!(timings[1].label, "Render");
    assert!(timings[0].frame_init_start <= timings[0].post_process_end);
    assert!(physics.is_stage_clear(ProfilerStage::FrameInit));
    assert!(render.is_stage_clear(ProfilerStage::PostProcess));
    assert!(!render.is_complete());
}
