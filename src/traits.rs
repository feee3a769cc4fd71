use vstd::prelude::*;

use crate::animators::{Frame, SpriteCommand, UpdateOutcome};
use crate::enums::Direction;

verus! {

/// A catalog of clips: each logical animation has one clip name for each view.
/// The mapping is total and fixed: `clip` is its model, and `rotate` returns it.
pub trait BillboardAnimation {
    /// The clip name this animation uses for the given view.
    spec fn clip(&self, direction: Direction) -> Seq<char>;

    fn rotate(&self, direction: Direction) -> (r: &'static str)
        ensures
            r@ == self.clip(direction),
    ;
}

/// The control surface of an animator. Operations that act on the sprite return the
/// commands the caller must apply to it, in order.
pub trait Animator<A: BillboardAnimation> {
    /// Advances one tick, given what the scene reports for it.
    fn update(&mut self, frame: &Frame) -> UpdateOutcome<A>;

    fn change_animation(&mut self, animation: A) -> Vec<SpriteCommand>;

    fn is_setup(&self) -> bool;

    fn is_paused(&self) -> bool;

    fn is_looping(&self) -> bool;

    fn get_direction(&self) -> Direction;

    fn get_animation(&self) -> &'static str;

    /// Plays `animation` once; `sprite_playing` is whether the sprite plays right now.
    fn play_one_shot(&mut self, animation: A, sprite_playing: bool) -> Vec<SpriteCommand>;

    /// Resumes playback; `sprite_playing` is whether the sprite plays right now.
    fn play(&mut self, sprite_playing: bool) -> Vec<SpriteCommand>;

    fn pause(&mut self) -> Vec<SpriteCommand>;
}

} // verus!
