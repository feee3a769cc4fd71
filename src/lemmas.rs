use vstd::prelude::*;

use crate::animators::{
    configured, one_shot_step, pause_step, play_step, update_step, AnimatorState, FrameView,
    SpriteAction,
};
use crate::traits::BillboardAnimation;

verus! {

/// The clip a sprite shows after the given actions, starting from `before`.
pub open spec fn shown_clip(before: Seq<char>, actions: Seq<SpriteAction>) -> Seq<char>
    decreases actions.len(),
{
    if actions.len() == 0 {
        before
    } else {
        match actions.last() {
            SpriteAction::SetAnimation(c) => c,
            _ => shown_clip(before, actions.drop_last()),
        }
    }
}

/// No action selects a clip.
pub open spec fn no_clip_swap(actions: Seq<SpriteAction>) -> bool {
    forall|i: int| 0 <= i < actions.len() ==> !(actions[i] is SetAnimation)
}

/// Runs one tick per frame, in order: the final state and, for each tick, the
/// one-shot animation it reported as finished.
pub open spec fn run<A: BillboardAnimation>(s: AnimatorState<A>, frames: Seq<FrameView>) -> (
    AnimatorState<A>,
    Seq<Option<A>>,
)
    decreases frames.len(),
{
    if frames.len() == 0 {
        (s, Seq::empty())
    } else {
        let (t, o) = update_step(s, frames[0]);
        let (u, reports) = run(t, frames.drop_first());
        (u, seq![o.finished] + reports)
    }
}

/// Index of the first frame in which the sprite has stopped; the length where none has.
pub open spec fn first_stop(frames: Seq<FrameView>) -> int
    decreases frames.len(),
{
    if frames.len() == 0 {
        0
    } else if !frames[0].sprite_playing {
        0
    } else {
        1 + first_stop(frames.drop_first())
    }
}

proof fn lemma_shown_clip_append(before: Seq<char>, xs: Seq<SpriteAction>, ys: Seq<SpriteAction>)
    ensures
        shown_clip(before, xs + ys) == shown_clip(shown_clip(before, xs), ys),
    decreases ys.len(),
{
    if ys.len() == 0 {
        assert(xs + ys =~= xs);
    } else {
        assert((xs + ys).drop_last() =~= xs + ys.drop_last());
        assert((xs + ys).last() == ys.last());
        lemma_shown_clip_append(before, xs, ys.drop_last());
    }
}

proof fn lemma_shown_clip_keeps(before: Seq<char>, actions: Seq<SpriteAction>)
    requires
        no_clip_swap(actions),
    ensures
        shown_clip(before, actions) == before,
    decreases actions.len(),
{
    if actions.len() > 0 {
        assert(!(actions[actions.len() - 1] is SetAnimation));
        lemma_shown_clip_keeps(before, actions.drop_last());
    }
}

/// Two ticks under an unchanged camera and sprite orientation, with no one-shot
/// pending, where the second tick sees the clip that the first one left on the
/// sprite: the second tick selects no clip.
pub proof fn lemma_update_twice_swaps_once<A: BillboardAnimation>(
    s: AnimatorState<A>,
    first: FrameView,
    second: FrameView,
)
    requires
        !s.one_shot,
        second.angle == first.angle,
        second.sprite_clip == shown_clip(first.sprite_clip, update_step(s, first).1.actions),
    ensures
        no_clip_swap(update_step(update_step(s, first).0, second).1.actions),
{
    let (t, o) = update_step(s, first);
    if configured(s) && !s.paused {
        let clip = t.animation.clip(t.facing);
        let flips = crate::animators::flip_actions(t.facing);
        let swap = if clip != first.sprite_clip {
            seq![SpriteAction::SetAnimation(clip)]
        } else {
            Seq::empty()
        };
        let restart = if t.looping && !first.sprite_playing {
            seq![SpriteAction::Play]
        } else {
            Seq::empty()
        };
        assert(o.actions == flips + (swap + restart));
        assert(no_clip_swap(flips));
        assert(no_clip_swap(restart));
        lemma_shown_clip_append(first.sprite_clip, flips, swap + restart);
        lemma_shown_clip_append(first.sprite_clip, swap, restart);
        lemma_shown_clip_keeps(first.sprite_clip, flips);
        lemma_shown_clip_keeps(shown_clip(first.sprite_clip, swap), restart);
        if clip != first.sprite_clip {
            assert(swap.drop_last() =~= Seq::<SpriteAction>::empty());
        } else {
            lemma_shown_clip_keeps(first.sprite_clip, swap);
        }
        assert(second.sprite_clip == clip);
        let (u, o2) = update_step(t, second);
        assert(u == t);
        let restart2 = if t.looping && !second.sprite_playing {
            seq![SpriteAction::Play]
        } else {
            Seq::empty()
        };
        assert(o2.actions =~= flips + restart2);
    }
}

proof fn lemma_first_stop_nonneg(frames: Seq<FrameView>)
    ensures
        0 <= first_stop(frames) <= frames.len(),
    decreases frames.len(),
{
    if frames.len() > 0 {
        lemma_first_stop_nonneg(frames.drop_first());
    }
}

proof fn lemma_run_idle_reports_nothing<A: BillboardAnimation>(
    s: AnimatorState<A>,
    frames: Seq<FrameView>,
)
    requires
        !s.one_shot,
    ensures
        run(s, frames).1.len() == frames.len(),
        forall|i: int| 0 <= i < frames.len() ==> run(s, frames).1[i] is None,
    decreases frames.len(),
{
    if frames.len() > 0 {
        let (t, o) = update_step(s, frames[0]);
        lemma_run_idle_reports_nothing(t, frames.drop_first());
        let reports = run(s, frames).1;
        assert forall|i: int| 0 <= i < frames.len() implies reports[i] is None by {
            if i > 0 {
                assert(reports[i] == run(t, frames.drop_first()).1[i - 1]);
            }
        }
    }
}

proof fn lemma_run_active_reports_once<A: BillboardAnimation>(
    s: AnimatorState<A>,
    frames: Seq<FrameView>,
)
    requires
        s.one_shot,
        configured(s),
        !s.paused,
    ensures
        run(s, frames).1.len() == frames.len(),
        forall|i: int|
            0 <= i < frames.len() ==> run(s, frames).1[i] == (if i == first_stop(frames) {
                Some(s.animation)
            } else {
                None
            }),
    decreases frames.len(),
{
    if frames.len() > 0 {
        let (t, o) = update_step(s, frames[0]);
        let rest = frames.drop_first();
        let reports = run(s, frames).1;
        if frames[0].sprite_playing {
            lemma_run_active_reports_once(t, rest);
            assert(first_stop(frames) == 1 + first_stop(rest));
            assert(t.animation == s.animation);
            assert(reports[0] == o.finished);
            assert(first_stop(rest) >= 0) by {
                lemma_first_stop_nonneg(rest);
            }
            assert forall|i: int| 0 <= i < frames.len() implies reports[i] == (if i == first_stop(
                frames,
            ) {
                Some(s.animation)
            } else {
                None
            }) by {
                if i > 0 {
                    assert(reports[i] == run(t, rest).1[i - 1]);
                }
            }
        } else {
            lemma_run_idle_reports_nothing(t, rest);
            assert forall|i: int| 0 <= i < frames.len() implies reports[i] == (if i == first_stop(
                frames,
            ) {
                Some(s.animation)
            } else {
                None
            }) by {
                if i > 0 {
                    assert(reports[i] == run(t, rest).1[i - 1]);
                }
            }
        }
    }
}

/// After `play_one_shot(animation)` on a configured, running animator, ticks report
/// that animation as finished exactly once, on the first tick at which the sprite
/// has stopped, and report nothing on every other tick.
pub proof fn lemma_one_shot_reports_once<A: BillboardAnimation>(
    s: AnimatorState<A>,
    animation: A,
    sprite_playing: bool,
    frames: Seq<FrameView>,
)
    requires
        configured(s),
        !s.paused,
    ensures
        ({
            let reports = run(one_shot_step(s, animation, sprite_playing).0, frames).1;
            &&& reports.len() == frames.len()
            &&& forall|i: int|
                0 <= i < frames.len() ==> reports[i] == (if i == first_stop(frames) {
                    Some(animation)
                } else {
                    None
                })
        }),
{
    lemma_run_active_reports_once(one_shot_step(s, animation, sprite_playing).0, frames);
}

proof fn lemma_run_playing_keeps_facing<A: BillboardAnimation>(
    s: AnimatorState<A>,
    frames: Seq<FrameView>,
)
    requires
        s.one_shot,
        forall|i: int| 0 <= i < frames.len() ==> frames[i].sprite_playing,
    ensures
        run(s, frames).0.facing == s.facing,
        run(s, frames).0.one_shot,
    decreases frames.len(),
{
    if frames.len() > 0 {
        let (t, o) = update_step(s, frames[0]);
        lemma_run_playing_keeps_facing(t, frames.drop_first());
    }
}

/// While a one-shot animation plays, the view stays the one from before it began,
/// whatever the camera does.
pub proof fn lemma_one_shot_freezes_facing<A: BillboardAnimation>(
    s: AnimatorState<A>,
    animation: A,
    sprite_playing: bool,
    frames: Seq<FrameView>,
)
    requires
        s.has_sprite,
        forall|i: int| 0 <= i < frames.len() ==> frames[i].sprite_playing,
    ensures
        run(one_shot_step(s, animation, sprite_playing).0, frames).0.facing == s.facing,
        run(one_shot_step(s, animation, sprite_playing).0, frames).0.one_shot,
{
    lemma_run_playing_keeps_facing(one_shot_step(s, animation, sprite_playing).0, frames);
}

/// Pausing a paused animator changes nothing and asks nothing of the sprite; so two
/// pauses in a row pause the sprite at most once.
pub proof fn lemma_pause_twice<A>(s: AnimatorState<A>)
    ensures
        pause_step(pause_step(s).0) == (pause_step(s).0, Seq::<SpriteAction>::empty()),
        pause_step(s).1.len() <= 1,
{
}

/// Playing an animator that is running and whose sprite plays changes nothing and
/// asks nothing of the sprite; so after a play, a second one made while the sprite
/// plays asks nothing either.
pub proof fn lemma_play_twice<A>(s: AnimatorState<A>, sprite_playing: bool)
    ensures
        !s.paused && sprite_playing ==> play_step(s, sprite_playing) == (
            s,
            Seq::<SpriteAction>::empty(),
        ),
        play_step(play_step(s, sprite_playing).0, true) == (
            play_step(s, sprite_playing).0,
            Seq::<SpriteAction>::empty(),
        ),
        play_step(s, sprite_playing).1.len() <= 1,
{
}

/// A call made on an animator between two one-shot starts: a tick, a pause, or a
/// play made while the sprite does or does not play.
pub enum Event {
    Tick(FrameView),
    Pause,
    Play(bool),
}

/// The state after one event, and the one-shot animation it reported as finished.
pub open spec fn event_step<A: BillboardAnimation>(s: AnimatorState<A>, e: Event) -> (
    AnimatorState<A>,
    Option<A>,
) {
    match e {
        Event::Tick(f) => {
            let (t, o) = update_step(s, f);
            (t, o.finished)
        },
        Event::Pause => (pause_step(s).0, None),
        Event::Play(p) => (play_step(s, p).0, None),
    }
}

/// Runs the events in order: the final state and what each event reported.
pub open spec fn run_events<A: BillboardAnimation>(s: AnimatorState<A>, events: Seq<Event>) -> (
    AnimatorState<A>,
    Seq<Option<A>>,
)
    decreases events.len(),
{
    if events.len() == 0 {
        (s, Seq::empty())
    } else {
        let (t, r) = event_step(s, events[0]);
        let (u, reports) = run_events(t, events.drop_first());
        (u, seq![r] + reports)
    }
}

/// The state in which the event at index `i` runs.
pub open spec fn state_at<A: BillboardAnimation>(
    s: AnimatorState<A>,
    events: Seq<Event>,
    i: int,
) -> AnimatorState<A>
    decreases events.len(),
{
    if i <= 0 || events.len() == 0 {
        s
    } else {
        state_at(event_step(s, events[0]).0, events.drop_first(), i - 1)
    }
}

/// The event is a tick on a configured, running animator with a one-shot active,
/// at which the sprite has stopped.
pub open spec fn completes<A>(s: AnimatorState<A>, e: Event) -> bool {
    match e {
        Event::Tick(f) => configured(s) && !s.paused && s.one_shot && !f.sprite_playing,
        _ => false,
    }
}

proof fn lemma_run_events_reports<A: BillboardAnimation>(
    s: AnimatorState<A>,
    animation: A,
    events: Seq<Event>,
)
    requires
        s.one_shot ==> s.animation == animation,
    ensures
        ({
            let reports = run_events(s, events).1;
            &&& reports.len() == events.len()
            &&& forall|i: int| 0 <= i < events.len() && reports[i] is Some ==> reports[i] == Some(animation)
            &&& forall|i: int|
                0 <= i < events.len() ==> (reports[i] is Some <==> completes(
                    state_at(s, events, i),
                    events[i],
                ))
            &&& forall|i: int, j: int|
                0 <= i < events.len() && 0 <= j < events.len() && reports[i] is Some
                    && reports[j] is Some ==> i == j
            &&& !s.one_shot ==> forall|i: int| 0 <= i < events.len() ==> reports[i] is None
        }),
    decreases events.len(),
{
    if events.len() > 0 {
        let (t, r) = event_step(s, events[0]);
        let rest = events.drop_first();
        lemma_run_events_reports(t, animation, rest);
        let reports = run_events(s, events).1;
        let later = run_events(t, rest).1;
        assert(reports == seq![r] + later);
        assert(r is Some <==> completes(s, events[0]));
        assert(r is Some ==> !t.one_shot);
        assert forall|i: int| 0 < i < events.len() implies reports[i] == later[i - 1]
            && state_at(s, events, i) == state_at(t, rest, i - 1) && events[i] == rest[i - 1] by {}
    }
}

/// After `play_one_shot(animation)` with a sprite attached, and any later ticks,
/// pauses and plays (but no other one-shot start or change of animation), the
/// animation is reported as finished at most once, only that animation, and
/// exactly at the ticks that run on a configured, running animator with the
/// one-shot still active and the sprite stopped; there is at most one such tick.
pub proof fn lemma_one_shot_reports_once_between_pauses<A: BillboardAnimation>(
    s: AnimatorState<A>,
    animation: A,
    sprite_playing: bool,
    events: Seq<Event>,
)
    requires
        s.has_sprite,
    ensures
        ({
            let t = one_shot_step(s, animation, sprite_playing).0;
            let reports = run_events(t, events).1;
            &&& t.one_shot
            &&& reports.len() == events.len()
            &&& forall|i: int| 0 <= i < events.len() && reports[i] is Some ==> reports[i] == Some(animation)
            &&& forall|i: int|
                0 <= i < events.len() ==> (reports[i] is Some <==> completes(
                    state_at(t, events, i),
                    events[i],
                ))
            &&& forall|i: int, j: int|
                0 <= i < events.len() && 0 <= j < events.len() && reports[i] is Some
                    && reports[j] is Some ==> i == j
        }),
{
    lemma_run_events_reports(one_shot_step(s, animation, sprite_playing).0, animation, events);
}

} // verus!
