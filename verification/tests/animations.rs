use rust_gdx::graphics::animation::{Animation, PlayMode};
use rust_gdx::graphics::texture::{Texture, TextureRegion};

fn frames(n: u32) -> Vec<TextureRegion> {
    // One 16-pixel wide frame per column of a strip texture.
    let texture = Texture { id: 1, width: 16 * n, height: 16 };
    TextureRegion::split(texture, (16, 16))
}

fn frame_of(animation: &Animation, run_time: u64) -> u32 {
    animation.current_key_frame(run_time).offset().0 / 16
}

#[test]
fn zero_frame_duration_is_rejected() {
    assert!(Animation::new(0, frames(4)).is_none());
    assert!(Animation::new(1, frames(4)).is_some());
}

#[test]
fn animation_duration_is_duration_times_frame_count() {
    let animation = Animation::new(100, frames(4)).unwrap();
    assert_eq!(animation.animation_duration(), 400);
    assert_eq!(animation.key_frames().len(), 4);
}

#[test]
fn normal_mode_stays_on_last_frame() {
    let animation = Animation::new(100, frames(4)).unwrap();
    assert_eq!(frame_of(&animation, 0), 0);
    assert_eq!(frame_of(&animation, 150), 1);
    assert_eq!(frame_of(&animation, 300), 3);
    assert_eq!(frame_of(&animation, 1000), 3);
}

#[test]
fn loop_mode_wraps() {
    let mut animation = Animation::new(100, frames(4)).unwrap();
    animation.play_mode = PlayMode::Loop;
    assert_eq!(frame_of(&animation, 0), 0);
    assert_eq!(frame_of(&animation, 300), 3);
    assert_eq!(frame_of(&animation, 400), 0);
    assert_eq!(frame_of(&animation, 500), 1);
}

#[test]
fn reversed_mode_clamps_before_subtracting() {
    let mut animation = Animation::new(100, frames(4)).unwrap();
    animation.play_mode = PlayMode::Reversed;
    assert_eq!(frame_of(&animation, 0), 3);
    assert_eq!(frame_of(&animation, 100), 2);
    assert_eq!(frame_of(&animation, 300), 0);
    // Beyond the animation's length the reversed index must not wrap around.
    assert_eq!(frame_of(&animation, 400), 0);
    assert_eq!(frame_of(&animation, 100_000), 0);
}

#[test]
fn loop_reversed_mode_wraps_backwards() {
    let mut animation = Animation::new(100, frames(4)).unwrap();
    animation.play_mode = PlayMode::LoopReversed;
    assert_eq!(frame_of(&animation, 0), 3);
    assert_eq!(frame_of(&animation, 300), 0);
    assert_eq!(frame_of(&animation, 400), 3);
}

#[test]
fn ping_pong_cycles_forward_then_backward() {
    let mut animation = Animation::new(100, frames(4)).unwrap();
    animation.play_mode = PlayMode::LoopPingPong;
    let expected = [0, 1, 2, 3, 2, 1];
    for (step, want) in expected.iter().enumerate() {
        assert_eq!(frame_of(&animation, 100 * step as u64), *want);
    }
    // The cycle length is 6: the pattern repeats.
    assert_eq!(frame_of(&animation, 600), 0);
    assert_eq!(frame_of(&animation, 700), 1);
}

#[test]
fn single_frame_ignores_policy_and_time() {
    for mode in [
        PlayMode::Normal,
        PlayMode::Reversed,
        PlayMode::Loop,
        PlayMode::LoopReversed,
        PlayMode::LoopPingPong,
    ] {
        let mut animation = Animation::new(100, frames(1)).unwrap();
        animation.play_mode = mode;
        assert_eq!(frame_of(&animation, 0), 0);
        assert_eq!(frame_of(&animation, 12_345), 0);
    }
}
