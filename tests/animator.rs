use gdrust_billboard_3danim::angle::{
    calculate_angle, BACK_ANGLE_THRESHOLD, SIDE_ANGLE_THRESHOLD,
};
use gdrust_billboard_3danim::animators::{BillboardAnimator, Frame, SpriteCommand};
use gdrust_billboard_3danim::enums::Direction;
use gdrust_billboard_3danim::traits::{Animator, BillboardAnimation};

#[derive(Clone, Copy, Debug, PartialEq)]
enum CharacterAnimations {
    Idle,
    Walk,
    Crawl,
}

impl BillboardAnimation for CharacterAnimations {
    // The model of `rotate`: the library's contracts speak of it, but nothing calls
    // it at run time.
    fn clip(&self, _direction: Direction) -> vstd::seq::Seq<char> {
        unreachable!()
    }

    fn rotate(&self, direction: Direction) -> &'static str {
        match self {
            CharacterAnimations::Idle => match direction {
                Direction::Front => "idle_front",
                Direction::Back => "idle_back",
                Direction::Left | Direction::Right => "idle_side",
            },
            CharacterAnimations::Walk => match direction {
                Direction::Front => "walk_front",
                Direction::Back => "walk_back",
                Direction::Left | Direction::Right => "walk_side",
            },
            CharacterAnimations::Crawl => match direction {
                Direction::Front => "crawl_front",
                Direction::Back => "crawl_back",
                Direction::Left | Direction::Right => "crawl_side",
            },
        }
    }
}

type TestAnimator = BillboardAnimator<CharacterAnimations, u32, u32>;

fn frame(angle: Option<i32>, playing: bool, clip: &str) -> Frame {
    Frame { angle, sprite_playing: playing, sprite_clip: clip.to_string() }
}

fn ready_animator() -> TestAnimator {
    let mut animator = TestAnimator::new(CharacterAnimations::Idle);
    animator.set_camera(1);
    animator.set_sprite(2);
    animator
}

#[test]
fn test_animation_rotation() {
    let animation = CharacterAnimations::Idle;

    assert_eq!(animation.rotate(Direction::Front), "idle_front");
    assert_eq!(animation.rotate(Direction::Back), "idle_back");
    assert_eq!(animation.rotate(Direction::Left), "idle_side");
    assert_eq!(animation.rotate(Direction::Right), "idle_side");
}

#[test]
fn same_forward_shows_back() {
    assert_eq!(calculate_angle(Some(0)), Direction::Back);
}

#[test]
fn opposite_forward_shows_front() {
    assert_eq!(calculate_angle(Some(180_000)), Direction::Front);
}

#[test]
fn quarter_turn_shows_side() {
    assert_eq!(calculate_angle(Some(90_000)), Direction::Right);
    assert_eq!(calculate_angle(Some(-90_000)), Direction::Left);
}

#[test]
fn back_sector_below_threshold() {
    assert_eq!(calculate_angle(Some(64_999)), Direction::Back);
    assert_eq!(calculate_angle(Some(-64_999)), Direction::Back);
    assert_eq!(calculate_angle(Some(30_000)), Direction::Back);
}

#[test]
fn thresholds_are_exact() {
    assert_eq!(BACK_ANGLE_THRESHOLD, 65_000);
    assert_eq!(SIDE_ANGLE_THRESHOLD, 155_000);
    assert_eq!(calculate_angle(Some(65_000)), Direction::Right);
    assert_eq!(calculate_angle(Some(-65_000)), Direction::Left);
    assert_eq!(calculate_angle(Some(154_999)), Direction::Right);
    assert_eq!(calculate_angle(Some(-154_999)), Direction::Left);
    assert_eq!(calculate_angle(Some(155_000)), Direction::Front);
    assert_eq!(calculate_angle(Some(-155_000)), Direction::Front);
}

#[test]
fn degenerate_angle_shows_front() {
    assert_eq!(calculate_angle(None), Direction::Front);
}

#[test]
fn extreme_angles_do_not_overflow() {
    assert_eq!(calculate_angle(Some(i32::MIN)), Direction::Front);
    assert_eq!(calculate_angle(Some(i32::MAX)), Direction::Front);
}

#[test]
fn direction_defaults_to_front() {
    assert_eq!(Direction::default(), Direction::Front);
}

#[test]
fn new_animator_starts_idle() {
    let animator = TestAnimator::new(CharacterAnimations::Walk);
    assert!(!animator.is_setup());
    assert!(!animator.is_paused());
    assert!(!animator.is_looping());
    assert!(!animator.is_one_shot_active());
    assert_eq!(animator.get_direction(), Direction::Front);
    assert_eq!(animator.get_animation(), "walk_front");
    assert!(animator.camera().is_none());
    assert!(animator.sprite().is_none());
}

#[test]
fn setup_needs_camera_and_sprite() {
    let mut animator = TestAnimator::new(CharacterAnimations::Idle);
    animator.set_camera(7);
    assert!(!animator.is_setup());
    animator.set_sprite(9);
    assert!(animator.is_setup());
    assert_eq!(animator.camera(), Some(&7));
    assert_eq!(animator.sprite(), Some(&9));
    animator.set_camera(8);
    assert_eq!(animator.camera(), Some(&8));
}

#[test]
fn unconfigured_update_does_nothing() {
    let mut animator = TestAnimator::new(CharacterAnimations::Idle);
    animator.set_sprite(1);
    let out = animator.update(&frame(Some(90_000), false, ""));
    assert!(out.unconfigured);
    assert!(out.commands.is_empty());
    assert_eq!(out.finished, None);
    assert_eq!(animator.get_direction(), Direction::Front);
}

#[test]
fn looping_restarts_stopped_sprite_once() {
    let mut animator = ready_animator();
    animator.set_looping(true);
    assert!(animator.is_looping());
    let out = animator.update(&frame(Some(0), false, "idle_back"));
    assert!(!out.unconfigured);
    assert_eq!(out.commands, vec![SpriteCommand::Play]);
}

#[test]
fn not_looping_leaves_stopped_sprite() {
    let mut animator = ready_animator();
    let out = animator.update(&frame(Some(0), false, "idle_back"));
    assert!(out.commands.is_empty());
}

#[test]
fn update_swaps_clip_and_flips() {
    let mut animator = ready_animator();
    let out = animator.update(&frame(Some(-100_000), true, "idle_front"));
    assert_eq!(
        out.commands,
        vec![SpriteCommand::SetFlipH(true), SpriteCommand::SetAnimation("idle_side")]
    );
    assert_eq!(animator.get_direction(), Direction::Left);
    let out = animator.update(&frame(Some(100_000), true, "idle_side"));
    assert_eq!(out.commands, vec![SpriteCommand::SetFlipH(false)]);
    assert_eq!(animator.get_direction(), Direction::Right);
    let out = animator.update(&frame(Some(170_000), true, "idle_side"));
    assert_eq!(out.commands, vec![SpriteCommand::SetAnimation("idle_front")]);
    assert_eq!(animator.get_animation(), "idle_front");
}

#[test]
fn second_update_swaps_nothing() {
    let mut animator = ready_animator();
    let first = animator.update(&frame(Some(10_000), true, "idle_front"));
    assert_eq!(first.commands, vec![SpriteCommand::SetAnimation("idle_back")]);
    let second = animator.update(&frame(Some(10_000), true, "idle_back"));
    assert!(second.commands.is_empty());
}

#[test]
fn one_shot_restarts_sprite() {
    let mut animator = ready_animator();
    let commands = animator.play_one_shot(CharacterAnimations::Crawl, true);
    assert_eq!(commands, vec![SpriteCommand::Stop, SpriteCommand::Play]);
    assert!(animator.is_one_shot_active());
    let commands = animator.play_one_shot(CharacterAnimations::Walk, false);
    assert_eq!(commands, vec![SpriteCommand::Play]);
    assert_eq!(animator.get_animation(), "walk_front");
}

#[test]
fn one_shot_without_sprite_does_nothing() {
    let mut animator = TestAnimator::new(CharacterAnimations::Idle);
    let commands = animator.play_one_shot(CharacterAnimations::Crawl, true);
    assert!(commands.is_empty());
    assert!(!animator.is_one_shot_active());
    assert_eq!(animator.get_animation(), "idle_front");
}

#[test]
fn one_shot_reports_completion_once() {
    let mut animator = ready_animator();
    animator.update(&frame(Some(90_000), true, "idle_side"));
    animator.play_one_shot(CharacterAnimations::Crawl, true);

    let out = animator.update(&frame(Some(0), true, "idle_side"));
    assert_eq!(out.finished, None);
    assert_eq!(out.commands, vec![SpriteCommand::SetAnimation("crawl_side")]);
    assert_eq!(animator.get_direction(), Direction::Right);

    let out = animator.update(&frame(Some(-120_000), true, "crawl_side"));
    assert_eq!(out.finished, None);
    assert!(out.commands.is_empty());
    assert_eq!(animator.get_direction(), Direction::Right);

    let out = animator.update(&frame(Some(0), false, "crawl_side"));
    assert_eq!(out.finished, Some(CharacterAnimations::Crawl));
    assert!(out.commands.is_empty());
    assert!(!animator.is_one_shot_active());
    assert_eq!(animator.get_direction(), Direction::Right);

    let out = animator.update(&frame(Some(0), false, "crawl_side"));
    assert_eq!(out.finished, None);
    assert_eq!(animator.get_direction(), Direction::Back);
    assert_eq!(out.commands, vec![SpriteCommand::SetAnimation("crawl_back")]);
}

#[test]
fn pause_freezes_one_shot() {
    let mut animator = ready_animator();
    animator.play_one_shot(CharacterAnimations::Walk, false);
    animator.pause();
    let out = animator.update(&frame(Some(0), false, "walk_front"));
    assert_eq!(out.finished, None);
    assert!(out.commands.is_empty());
    assert!(animator.is_one_shot_active());
    animator.play(false);
    let out = animator.update(&frame(Some(0), false, "walk_front"));
    assert_eq!(out.finished, Some(CharacterAnimations::Walk));
}

#[test]
fn pause_twice_pauses_once() {
    let mut animator = ready_animator();
    assert_eq!(animator.pause(), vec![SpriteCommand::Pause]);
    assert!(animator.is_paused());
    assert!(animator.pause().is_empty());
    assert!(animator.is_paused());
}

#[test]
fn play_on_a_playing_machine_does_nothing() {
    let mut animator = ready_animator();
    assert!(animator.play(true).is_empty());
    animator.pause();
    assert_eq!(animator.play(true), vec![SpriteCommand::Play]);
    assert!(!animator.is_paused());
    assert!(animator.play(true).is_empty());
}

#[test]
fn pause_without_sprite_does_nothing() {
    let mut animator = TestAnimator::new(CharacterAnimations::Idle);
    assert!(animator.pause().is_empty());
    assert!(!animator.is_paused());
}

#[test]
fn paused_update_changes_nothing() {
    let mut animator = ready_animator();
    animator.set_looping(true);
    animator.pause();
    let out = animator.update(&frame(Some(-90_000), false, "other"));
    assert!(!out.unconfigured);
    assert!(out.commands.is_empty());
    assert_eq!(animator.get_direction(), Direction::Front);
}

#[test]
fn change_animation_plays_new_clip() {
    let mut animator = ready_animator();
    let commands = animator.change_animation(CharacterAnimations::Walk);
    assert_eq!(
        commands,
        vec![SpriteCommand::SetAnimation("walk_front"), SpriteCommand::Play]
    );
    assert_eq!(animator.get_animation(), "walk_front");
    animator.pause();
    let commands = animator.change_animation(CharacterAnimations::Crawl);
    assert!(commands.is_empty());
    assert_eq!(animator.get_animation(), "crawl_front");
}

#[test]
fn second_one_shot_replaces_first() {
    let mut animator = ready_animator();
    animator.play_one_shot(CharacterAnimations::Crawl, false);
    animator.play_one_shot(CharacterAnimations::Walk, true);
    let out = animator.update(&frame(Some(0), false, "walk_front"));
    assert_eq!(out.finished, Some(CharacterAnimations::Walk));
    let out = animator.update(&frame(Some(0), false, "walk_back"));
    assert_eq!(out.finished, None);
}

#[test]
fn missing_camera_is_unconfigured() {
    let mut animator = TestAnimator::new(CharacterAnimations::Idle);
    animator.set_camera(3);
    let out = animator.update(&frame(Some(0), true, "idle_front"));
    assert!(out.unconfigured);
    assert!(out.commands.is_empty());
}

#[test]
fn play_restarts_a_stopped_sprite() {
    let mut animator = ready_animator();
    assert_eq!(animator.play(false), vec![SpriteCommand::Play]);
    assert!(!animator.is_paused());
}

#[test]
fn play_without_sprite_does_nothing() {
    let mut animator = TestAnimator::new(CharacterAnimations::Idle);
    assert!(animator.play(false).is_empty());
}

#[test]
fn one_shot_completes_once_across_pause_and_play() {
    let mut animator = ready_animator();
    animator.play_one_shot(CharacterAnimations::Crawl, false);
    animator.pause();
    let out = animator.update(&frame(Some(0), false, "idle_front"));
    assert_eq!(out.finished, None);
    assert_eq!(animator.play(false), vec![SpriteCommand::Play]);
    let out = animator.update(&frame(Some(0), true, "idle_front"));
    assert_eq!(out.finished, None);
    let out = animator.update(&frame(Some(0), false, "crawl_front"));
    assert_eq!(out.finished, Some(CharacterAnimations::Crawl));
    animator.pause();
    animator.play(false);
    let out = animator.update(&frame(Some(0), false, "crawl_back"));
    assert_eq!(out.finished, None);
}
