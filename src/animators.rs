use vstd::prelude::*;

use crate::angle::calculate_angle;
use crate::enums::Direction;
use crate::traits::{Animator, BillboardAnimation};

verus! {

/// A call the caller must make on the sprite, in the order given.
#[derive(Clone, Copy, Debug, PartialEq, Eq)]
pub enum SpriteCommand {
    SetFlipH(bool),
    SetAnimation(&'static str),
    Play,
    Pause,
    Stop,
}

/// Model of a `SpriteCommand`, with the clip name as a sequence of characters.
pub enum SpriteAction {
    SetFlipH(bool),
    SetAnimation(Seq<char>),
    Play,
    Pause,
    Stop,
}

impl View for SpriteCommand {
    type V = SpriteAction;

    open spec fn view(&self) -> SpriteAction {
        match *self {
            SpriteCommand::SetFlipH(b) => SpriteAction::SetFlipH(b),
            SpriteCommand::SetAnimation(s) => SpriteAction::SetAnimation(s@),
            SpriteCommand::Play => SpriteAction::Play,
            SpriteCommand::Pause => SpriteAction::Pause,
            SpriteCommand::Stop => SpriteAction::Stop,
        }
    }
}

pub open spec fn actions_of(cmds: Seq<SpriteCommand>) -> Seq<SpriteAction> {
    cmds.map_values(|c: SpriteCommand| c@)
}

/// What the scene reports at the start of a tick.
pub struct Frame {
    /// Signed horizontal angle from camera to sprite in millidegrees; `None` where it
    /// is degenerate (see `calculate_angle`).
    pub angle: Option<i32>,
    /// Whether the sprite is playing.
    pub sprite_playing: bool,
    /// The clip the sprite has selected.
    pub sprite_clip: String,
}

pub struct FrameView {
    pub angle: Option<i32>,
    pub sprite_playing: bool,
    pub sprite_clip: Seq<char>,
}

impl View for Frame {
    type V = FrameView;

    open spec fn view(&self) -> FrameView {
        FrameView {
            angle: self.angle,
            sprite_playing: self.sprite_playing,
            sprite_clip: self.sprite_clip@,
        }
    }
}

/// What one tick asks of the caller.
pub struct UpdateOutcome<A> {
    /// The animator lacks its camera or its sprite; nothing else was attempted.
    pub unconfigured: bool,
    /// Calls to make on the sprite, in order.
    pub commands: Vec<SpriteCommand>,
    /// The one-shot animation that completed on this tick, for the completion hook.
    pub finished: Option<A>,
}

pub struct OutcomeView<A> {
    pub unconfigured: bool,
    pub actions: Seq<SpriteAction>,
    pub finished: Option<A>,
}

impl<A> View for UpdateOutcome<A> {
    type V = OutcomeView<A>;

    open spec fn view(&self) -> OutcomeView<A> {
        OutcomeView {
            unconfigured: self.unconfigured,
            actions: actions_of(self.commands@),
            finished: self.finished,
        }
    }
}

/// Model of an animator: its orthogonal flags, the view it last computed and the
/// logical animation it has selected.
pub struct AnimatorState<A> {
    pub facing: Direction,
    pub animation: A,
    pub looping: bool,
    pub paused: bool,
    pub one_shot: bool,
    pub has_camera: bool,
    pub has_sprite: bool,
}

pub open spec fn configured<A>(s: AnimatorState<A>) -> bool {
    s.has_camera && s.has_sprite
}

pub open spec fn with_facing<A>(s: AnimatorState<A>, facing: Direction) -> AnimatorState<A> {
    AnimatorState { facing, ..s }
}

/// Turning toward a side mirrors the sprite for the left view and restores it for
/// the right one; front and back leave the mirroring as it is.
pub open spec fn flip_actions(facing: Direction) -> Seq<SpriteAction> {
    match facing {
        Direction::Right => seq![SpriteAction::SetFlipH(false)],
        Direction::Left => seq![SpriteAction::SetFlipH(true)],
        _ => Seq::empty(),
    }
}

/// Selects the resolved clip where the sprite shows another one, then starts a
/// looping animation that has run out.
pub open spec fn clip_actions<A: BillboardAnimation>(
    s: AnimatorState<A>,
    f: FrameView,
) -> Seq<SpriteAction> {
    let clip = s.animation.clip(s.facing);
    let swap = if clip != f.sprite_clip {
        seq![SpriteAction::SetAnimation(clip)]
    } else {
        Seq::empty()
    };
    let restart = if s.looping && !f.sprite_playing {
        seq![SpriteAction::Play]
    } else {
        Seq::empty()
    };
    swap + restart
}

pub open spec fn outcome<A>(
    unconfigured: bool,
    actions: Seq<SpriteAction>,
    finished: Option<A>,
) -> OutcomeView<A> {
    OutcomeView { unconfigured, actions, finished }
}

/// One tick: the next state and what it asks of the caller.
pub open spec fn update_step<A: BillboardAnimation>(s: AnimatorState<A>, f: FrameView) -> (
    AnimatorState<A>,
    OutcomeView<A>,
) {
    if !configured(s) {
        (s, outcome(true, Seq::empty(), None))
    } else if s.paused {
        (s, outcome(false, Seq::empty(), None))
    } else if s.one_shot {
        if !f.sprite_playing {
            (AnimatorState { one_shot: false, ..s }, outcome(false, Seq::empty(), Some(s.animation)))
        } else {
            (s, outcome(false, clip_actions(s, f), None))
        }
    } else {
        let t = with_facing(s, crate::angle::facing_of(f.angle));
        (t, outcome(false, flip_actions(t.facing) + clip_actions(t, f), None))
    }
}

pub open spec fn pause_step<A>(s: AnimatorState<A>) -> (AnimatorState<A>, Seq<SpriteAction>) {
    if s.paused || !s.has_sprite {
        (s, Seq::empty())
    } else {
        (AnimatorState { paused: true, ..s }, seq![SpriteAction::Pause])
    }
}

/// Resumes a paused animator, or restarts a sprite that has stopped; an animator
/// that is running and whose sprite plays is left as it is.
pub open spec fn play_step<A>(s: AnimatorState<A>, sprite_playing: bool) -> (
    AnimatorState<A>,
    Seq<SpriteAction>,
) {
    if s.has_sprite && (s.paused || !sprite_playing) {
        (AnimatorState { paused: false, ..s }, seq![SpriteAction::Play])
    } else {
        (s, Seq::empty())
    }
}

pub open spec fn one_shot_step<A>(s: AnimatorState<A>, animation: A, sprite_playing: bool) -> (
    AnimatorState<A>,
    Seq<SpriteAction>,
) {
    if s.has_sprite {
        let stop = if sprite_playing {
            seq![SpriteAction::Stop]
        } else {
            Seq::empty()
        };
        (AnimatorState { one_shot: true, animation, ..s }, stop.push(SpriteAction::Play))
    } else {
        (s, Seq::empty())
    }
}

pub open spec fn change_step<A: BillboardAnimation>(s: AnimatorState<A>, animation: A) -> (
    AnimatorState<A>,
    Seq<SpriteAction>,
) {
    let t = AnimatorState { animation, ..s };
    if !s.paused && s.has_sprite {
        (t, seq![SpriteAction::SetAnimation(animation.clip(s.facing)), SpriteAction::Play])
    } else {
        (t, Seq::empty())
    }
}

proof fn lemma_actions_push(cmds: Seq<SpriteCommand>, c: SpriteCommand)
    ensures
        actions_of(cmds.push(c)) == actions_of(cmds).push(c@),
{
    assert(actions_of(cmds.push(c)) =~= actions_of(cmds).push(c@));
}

/// Drives a billboard sprite: keeps the view it shows in step with the camera and
/// runs looping, paused and one-shot playback. `S` and `C` are the handles of the
/// sprite and the camera, which the animator only keeps.
pub struct BillboardAnimator<A, S, C> {
    sprite: Option<S>,
    camera: Option<C>,
    current_direction: Direction,
    current_animation: A,
    play_one_shot: bool,
    looping: bool,
    paused: bool,
}

impl<A, S, C> View for BillboardAnimator<A, S, C> {
    type V = AnimatorState<A>;

    closed spec fn view(&self) -> AnimatorState<A> {
        AnimatorState {
            facing: self.current_direction,
            animation: self.current_animation,
            looping: self.looping,
            paused: self.paused,
            one_shot: self.play_one_shot,
            has_camera: self.camera is Some,
            has_sprite: self.sprite is Some,
        }
    }
}

impl<A, S, C> BillboardAnimator<A, S, C> {
    pub closed spec fn camera_handle(&self) -> Option<C> {
        self.camera
    }

    pub closed spec fn sprite_handle(&self) -> Option<S> {
        self.sprite
    }
}

impl<A: BillboardAnimation + Copy, S, C> BillboardAnimator<A, S, C> {
    pub fn new(default_animation: A) -> (r: Self)
        ensures
            r@ == (AnimatorState {
                facing: Direction::Front,
                animation: default_animation,
                looping: false,
                paused: false,
                one_shot: false,
                has_camera: false,
                has_sprite: false,
            }),
    {
        BillboardAnimator {
            sprite: None,
            camera: None,
            current_direction: Direction::Front,
            current_animation: default_animation,
            play_one_shot: false,
            looping: false,
            paused: false,
        }
    }

    pub fn set_looping(&mut self, looping: bool)
        ensures
            final(self)@ == (AnimatorState { looping, ..old(self)@ }),
            final(self).camera_handle() == old(self).camera_handle(),
            final(self).sprite_handle() == old(self).sprite_handle(),
    {
        self.looping = looping;
    }

    pub fn set_camera(&mut self, camera: C)
        ensures
            final(self)@ == (AnimatorState { has_camera: true, ..old(self)@ }),
            final(self).sprite_handle() == old(self).sprite_handle(),
            final(self).camera_handle() == Some(camera),
    {
        self.camera = Some(camera);
    }

    pub fn set_sprite(&mut self, sprite: S)
        ensures
            final(self)@ == (AnimatorState { has_sprite: true, ..old(self)@ }),
            final(self).camera_handle() == old(self).camera_handle(),
            final(self).sprite_handle() == Some(sprite),
    {
        self.sprite = Some(sprite);
    }

    /// The camera handle, where one is attached.
    pub fn camera(&self) -> (r: Option<&C>)
        ensures
            match r {
                Some(c) => self.camera_handle() == Some(*c),
                None => self.camera_handle() is None,
            },
            r is Some <==> self@.has_camera,
    {
        self.camera.as_ref()
    }

    /// The sprite handle, where one is attached.
    pub fn sprite(&self) -> (r: Option<&S>)
        ensures
            match r {
                Some(s) => self.sprite_handle() == Some(*s),
                None => self.sprite_handle() is None,
            },
            r is Some <==> self@.has_sprite,
    {
        self.sprite.as_ref()
    }

    /// Whether a one-shot animation is playing, which holds the view still.
    pub fn is_one_shot_active(&self) -> (r: bool)
        ensures
            r == self@.one_shot,
    {
        self.play_one_shot
    }
}

impl<A: BillboardAnimation + Copy, S, C> BillboardAnimator<A, S, C> {
    /// Selects the resolved clip where the sprite shows another one, and restarts a
    /// looping animation that has run out.
    fn update_animation(&self, frame: &Frame, commands: &mut Vec<SpriteCommand>)
        ensures
            actions_of(final(commands)@) == actions_of(old(commands)@) + clip_actions(
                self@,
                frame@,
            ),
    {
        let ghost start = actions_of(commands@);
        let name = self.current_animation.rotate(self.current_direction);
        let owned: String = name.to_owned();
        if !owned.eq(&frame.sprite_clip) {
            proof {
                lemma_actions_push(commands@, SpriteCommand::SetAnimation(name));
            }
            commands.push(SpriteCommand::SetAnimation(name));
        }
        if self.looping && !frame.sprite_playing {
            proof {
                lemma_actions_push(commands@, SpriteCommand::Play);
            }
            commands.push(SpriteCommand::Play);
        }
        assert(actions_of(commands@) =~= start + clip_actions(self@, frame@));
    }
}

impl<A: BillboardAnimation + Copy, S, C> Animator<A> for BillboardAnimator<A, S, C> {
    fn update(&mut self, frame: &Frame) -> (r: UpdateOutcome<A>)
        ensures
            (final(self)@, r@) == update_step(old(self)@, frame@),
            final(self).camera_handle() == old(self).camera_handle(),
            final(self).sprite_handle() == old(self).sprite_handle(),
            old(self)@.one_shot ==> final(self)@.facing == old(self)@.facing,
    {
        let mut commands: Vec<SpriteCommand> = Vec::new();
        assert(actions_of(commands@) =~= Seq::<SpriteAction>::empty());
        if !self.is_setup() {
            return UpdateOutcome { unconfigured: true, commands, finished: None };
        }
        if self.paused {
            return UpdateOutcome { unconfigured: false, commands, finished: None };
        }
        if !self.play_one_shot {
            self.current_direction = calculate_angle(frame.angle);
            match self.current_direction {
                Direction::Right => {
                    commands.push(SpriteCommand::SetFlipH(false));
                },
                Direction::Left => {
                    commands.push(SpriteCommand::SetFlipH(true));
                },
                _ => {},
            }
            assert(actions_of(commands@) =~= flip_actions(self@.facing));
        } else {
            assert(actions_of(commands@) =~= Seq::<SpriteAction>::empty());
            if !frame.sprite_playing {
                self.play_one_shot = false;
                return UpdateOutcome {
                    unconfigured: false,
                    commands,
                    finished: Some(self.current_animation),
                };
            }
        }
        self.update_animation(frame, &mut commands);
        UpdateOutcome { unconfigured: false, commands, finished: None }
    }

    fn change_animation(&mut self, animation: A) -> (r: Vec<SpriteCommand>)
        ensures
            (final(self)@, actions_of(r@)) == change_step(old(self)@, animation),
            final(self).camera_handle() == old(self).camera_handle(),
            final(self).sprite_handle() == old(self).sprite_handle(),
    {
        self.current_animation = animation;
        let mut commands: Vec<SpriteCommand> = Vec::new();
        if !self.paused && self.sprite.is_some() {
            commands.push(SpriteCommand::SetAnimation(animation.rotate(self.current_direction)));
            commands.push(SpriteCommand::Play);
        }
        assert(actions_of(commands@) =~= change_step(old(self)@, animation).1);
        commands
    }

    fn is_setup(&self) -> (r: bool)
        ensures
            r == configured(self@),
    {
        self.camera.is_some() && self.sprite.is_some()
    }

    fn is_paused(&self) -> (r: bool)
        ensures
            r == self@.paused,
    {
        self.paused
    }

    fn is_looping(&self) -> (r: bool)
        ensures
            r == self@.looping,
    {
        self.looping
    }

    fn get_direction(&self) -> (r: Direction)
        ensures
            r == self@.facing,
    {
        self.current_direction
    }

    fn get_animation(&self) -> (r: &'static str)
        ensures
            r@ == self@.animation.clip(self@.facing),
    {
        self.current_animation.rotate(self.current_direction)
    }

    fn play_one_shot(&mut self, animation: A, sprite_playing: bool) -> (r: Vec<SpriteCommand>)
        ensures
            (final(self)@, actions_of(r@)) == one_shot_step(old(self)@, animation, sprite_playing),
            final(self).camera_handle() == old(self).camera_handle(),
            final(self).sprite_handle() == old(self).sprite_handle(),
    {
        let mut commands: Vec<SpriteCommand> = Vec::new();
        if self.sprite.is_some() {
            self.play_one_shot = true;
            self.current_animation = animation;
            if sprite_playing {
                commands.push(SpriteCommand::Stop);
            }
            commands.push(SpriteCommand::Play);
        }
        assert(actions_of(commands@) =~= one_shot_step(old(self)@, animation, sprite_playing).1);
        commands
    }

    fn play(&mut self, sprite_playing: bool) -> (r: Vec<SpriteCommand>)
        ensures
            (final(self)@, actions_of(r@)) == play_step(old(self)@, sprite_playing),
            final(self).camera_handle() == old(self).camera_handle(),
            final(self).sprite_handle() == old(self).sprite_handle(),
    {
        let mut commands: Vec<SpriteCommand> = Vec::new();
        if self.sprite.is_some() && (self.paused || !sprite_playing) {
            commands.push(SpriteCommand::Play);
            self.paused = false;
        }
        assert(actions_of(commands@) =~= play_step(old(self)@, sprite_playing).1);
        commands
    }

    fn pause(&mut self) -> (r: Vec<SpriteCommand>)
        ensures
            (final(self)@, actions_of(r@)) == pause_step(old(self)@),
            final(self).camera_handle() == old(self).camera_handle(),
            final(self).sprite_handle() == old(self).sprite_handle(),
    {
        let mut commands: Vec<SpriteCommand> = Vec::new();
        if self.paused {
            assert(actions_of(commands@) =~= Seq::<SpriteAction>::empty());
            return commands;
        }
        if self.sprite.is_some() {
            commands.push(SpriteCommand::Pause);
            self.paused = true;
        }
        assert(actions_of(commands@) =~= pause_step(old(self)@).1);
        commands
    }
}

} // verus!
