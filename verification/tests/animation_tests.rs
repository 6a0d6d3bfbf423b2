use platformer_core::animation::{Animate, AnimationConfig};
use platformer_core::physics::MotionState;

fn config() -> AnimationConfig {
    AnimationConfig { stopped: vec![0], running: vec![1, 2, 3], jumping: vec![0] }
}

#[test]
fn animation_wrap() {
    // A 3-frame Running sequence [1, 2, 3]: four consecutive ticks output
    // 2, 3, 1, 2.
    let mut a = Animate::new(config());
    let mut frames = Vec::new();
    for _ in 0..4 {
        frames.push(a.next(MotionState::Running));
    }
    assert_eq!(frames, vec![2, 3, 1, 2]);
}

#[test]
fn counter_is_shared_across_states() {
    // Switching motion state does not reset the counter.
    let mut a = Animate::new(AnimationConfig {
        stopped: vec![9, 8, 7],
        running: vec![1, 2, 3],
        jumping: vec![0],
    });
    assert_eq!(a.next(MotionState::Running), 2);
    assert_eq!(a.index, 1);
    // The shared counter carries over into the Stopped sequence.
    assert_eq!(a.next(MotionState::Stopped), 7);
    assert_eq!(a.index, 2);
}

#[test]
fn single_frame_sequence_stays_put() {
    let mut a = Animate::new(config());
    assert_eq!(a.next(MotionState::Stopped), 0);
    assert_eq!(a.next(MotionState::Stopped), 0);
    assert_eq!(a.index, 0);
}

#[test]
fn counter_out_of_range_wraps_into_new_sequence() {
    let mut a = Animate::new(config());
    a.index = 2; // last Running frame
    assert_eq!(a.next(MotionState::Running), 1);
    // Now at index 0; a jump sequence of length 1 keeps it in range.
    assert_eq!(a.next(MotionState::Jumping), 0);
}
