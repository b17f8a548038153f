//! Animation state selection for characters.
//!
//! Each frame the character's physics controller reports a horizontal speed
//! and an airborne flag; a classifier turns them into one of four animation
//! states. Transitions are edge-triggered on the state's variant: a frame
//! that keeps the variant only adjusts playback speed (and only while
//! running), while a frame that changes it starts a new looping clip with a
//! short cross-fade. Speeds are fixed point, in millionths of a unit.

use vstd::prelude::*;

verus! {

/// One unit, in the fixed-point scale used for speeds (millionths).
pub const SPEED_UNIT: u64 = 1_000_000;

/// Speeds strictly above this run; at or below, the character walks.
pub const RUNNING_THRESHOLD: u64 = 10_000_000;

/// Speeds strictly above this walk; at or below, the character stands.
pub const WALKING_THRESHOLD: u64 = 10_000;

/// A running clip plays at speed divided by this, floored at one unit.
pub const RUNNING_PLAYBACK_DIVISOR: u64 = 7;

/// Cross-fade into the walk clip, in milliseconds.
pub const WALK_CROSSFADE_MILLIS: u64 = 100;

/// Cross-fade into any other clip, in milliseconds.
pub const DEFAULT_CROSSFADE_MILLIS: u64 = 200;

/// Animation state of a character, derived each frame from its physics
/// controller. Payloads carry the horizontal speed in millionths of a unit.
#[derive(Clone, Copy, Debug, PartialEq, Eq, Structural)]
pub enum AnimationState {
    Standing,
    Walking(u64),
    Running(u64),
    Airborne,
}

/// Whether two animation states are the same variant, whatever their speeds.
pub open spec fn same_variant(a: AnimationState, b: AnimationState) -> bool {
    match (a, b) {
        (AnimationState::Standing, AnimationState::Standing) => true,
        (AnimationState::Walking(_), AnimationState::Walking(_)) => true,
        (AnimationState::Running(_), AnimationState::Running(_)) => true,
        (AnimationState::Airborne, AnimationState::Airborne) => true,
        _ => false,
    }
}

/// The state a character is in: airborne takes priority over any speed;
/// otherwise fixed thresholds pick running, walking or standing.
pub open spec fn spec_classify(speed: u64, airborne: bool) -> AnimationState {
    if airborne {
        AnimationState::Airborne
    } else if speed > RUNNING_THRESHOLD {
        AnimationState::Running(speed)
    } else if speed > WALKING_THRESHOLD {
        AnimationState::Walking(speed)
    } else {
        AnimationState::Standing
    }
}

/// Classify a frame's controller reading into an animation state.
pub fn classify(speed: u64, airborne: bool) -> (s: AnimationState)
    ensures
        s == spec_classify(speed, airborne),
{
    if airborne {
        AnimationState::Airborne
    } else if speed > RUNNING_THRESHOLD {
        AnimationState::Running(speed)
    } else if speed > WALKING_THRESHOLD {
        AnimationState::Walking(speed)
    } else {
        AnimationState::Standing
    }
}

/// What a frame asks of the animation machinery: keep the clip as is, or
/// start a new one because the state's variant changed.
#[derive(Clone, Copy, Debug, PartialEq, Eq)]
pub enum AnimationDirective {
    /// The state kept its variant; the current clip goes on.
    Maintain { state: AnimationState },
    /// The state changed variant; a new clip starts. `old_state` is `None`
    /// on the very first frame.
    Alter { old_state: Option<AnimationState>, state: AnimationState },
}

/// The directive for a new state given the previous frame's state, if any.
/// Only a change of variant alters; a payload-only change maintains.
pub open spec fn spec_directive(
    prev: Option<AnimationState>,
    new_state: AnimationState,
) -> AnimationDirective {
    match prev {
        Option::Some(p) => if same_variant(p, new_state) {
            AnimationDirective::Maintain { state: new_state }
        } else {
            AnimationDirective::Alter { old_state: Option::Some(p), state: new_state }
        },
        Option::None => AnimationDirective::Alter { old_state: Option::None, state: new_state },
    }
}

/// Tracks the animation state across frames so that transitions trigger on
/// the edge only: repeated same-variant frames never restart a clip.
#[derive(Clone, Copy, Debug, PartialEq, Eq)]
pub struct AnimatingState {
    state: Option<AnimationState>,
}

impl AnimatingState {
    /// The state recorded on the previous frame, if any frame ran yet.
    pub closed spec fn last_state(self) -> Option<AnimationState> {
        self.state
    }

    /// A fresh tracker that has seen no frame yet.
    pub fn new() -> (r: Self)
        ensures
            r.last_state() is None,
    {
        AnimatingState { state: Option::None }
    }

    /// Record this frame's state and say whether the clip is to be kept
    /// (same variant as last frame) or altered (variant changed, or first
    /// frame).
    pub fn update_by_discriminant(&mut self, new_state: AnimationState) -> (d: AnimationDirective)
        ensures
            final(self).last_state() == Some(new_state),
            d == spec_directive(old(self).last_state(), new_state),
    {
        let prev = self.state;
        self.state = Option::Some(new_state);
        match prev {
            Option::Some(p) => if variants_match(p, new_state) {
                AnimationDirective::Maintain { state: new_state }
            } else {
                AnimationDirective::Alter { old_state: Option::Some(p), state: new_state }
            },
            Option::None => AnimationDirective::Alter {
                old_state: Option::None,
                state: new_state,
            },
        }
    }
}

/// Whether two states share a variant, whatever their speeds.
pub fn variants_match(a: AnimationState, b: AnimationState) -> (r: bool)
    ensures
        r == same_variant(a, b),
{
    match (a, b) {
        (AnimationState::Standing, AnimationState::Standing) => true,
        (AnimationState::Walking(_), AnimationState::Walking(_)) => true,
        (AnimationState::Running(_), AnimationState::Running(_)) => true,
        (AnimationState::Airborne, AnimationState::Airborne) => true,
        _ => false,
    }
}

/// The clips a character can play.
#[derive(Clone, Copy, Debug, PartialEq, Eq, Structural)]
pub enum AnimationClip {
    Aerial,
    Idle,
    Walk,
}

/// What the engine's animation player is told to do for one character on one
/// frame.
#[derive(Clone, Copy, Debug, PartialEq, Eq)]
pub enum AnimationCmd {
    /// Leave the current clip and its playback speed alone.
    NoChange,
    /// Keep the clip but set its playback speed, in millionths of a unit.
    SetPlaybackSpeed { speed: u64 },
    /// Cross-fade into a new clip over the given duration.
    StartClip { clip: AnimationClip, crossfade_millis: u64, repeat: bool },
}

/// The clip that plays a state: running shares the aerial clip.
pub open spec fn spec_clip_for(state: AnimationState) -> AnimationClip {
    match state {
        AnimationState::Airborne => AnimationClip::Aerial,
        AnimationState::Running(_) => AnimationClip::Aerial,
        AnimationState::Standing => AnimationClip::Idle,
        AnimationState::Walking(_) => AnimationClip::Walk,
    }
}

/// The cross-fade into a state's clip: short for walking, default otherwise.
pub open spec fn spec_crossfade_for(state: AnimationState) -> u64 {
    if state is Walking {
        WALK_CROSSFADE_MILLIS
    } else {
        DEFAULT_CROSSFADE_MILLIS
    }
}

/// Playback speed of the running clip: speed scaled down by the playback
/// divisor, floored at one unit and uncapped above it.
pub open spec fn spec_running_playback(speed: u64) -> u64 {
    if speed / RUNNING_PLAYBACK_DIVISOR >= SPEED_UNIT {
        speed / RUNNING_PLAYBACK_DIVISOR
    } else {
        SPEED_UNIT
    }
}

/// The command a directive issues: maintaining adjusts playback speed only
/// while running; altering always starts the new state's clip, looping, with
/// its documented cross-fade.
pub open spec fn spec_cmd(d: AnimationDirective) -> AnimationCmd {
    match d {
        AnimationDirective::Maintain { state } => match state {
            AnimationState::Running(speed) => AnimationCmd::SetPlaybackSpeed {
                speed: spec_running_playback(speed),
            },
            _ => AnimationCmd::NoChange,
        },
        AnimationDirective::Alter { old_state: _, state } => AnimationCmd::StartClip {
            clip: spec_clip_for(state),
            crossfade_millis: spec_crossfade_for(state),
            repeat: true,
        },
    }
}

/// Turn a directive into the command for the animation player.
pub fn animation_cmd(d: AnimationDirective) -> (c: AnimationCmd)
    ensures
        c == spec_cmd(d),
{
    match d {
        AnimationDirective::Maintain { state } => match state {
            AnimationState::Running(speed) => {
                let scaled: u64 = speed / RUNNING_PLAYBACK_DIVISOR;
                let playback: u64 = if scaled >= SPEED_UNIT {
                    scaled
                } else {
                    SPEED_UNIT
                };
                AnimationCmd::SetPlaybackSpeed { speed: playback }
            },
            _ => AnimationCmd::NoChange,
        },
        AnimationDirective::Alter { old_state: _, state } => {
            let clip: AnimationClip = match state {
                AnimationState::Airborne => AnimationClip::Aerial,
                AnimationState::Running(_) => AnimationClip::Aerial,
                AnimationState::Standing => AnimationClip::Idle,
                AnimationState::Walking(_) => AnimationClip::Walk,
            };
            let fade: u64 = match state {
                AnimationState::Walking(_) => WALK_CROSSFADE_MILLIS,
                _ => DEFAULT_CROSSFADE_MILLIS,
            };
            AnimationCmd::StartClip { clip, crossfade_millis: fade, repeat: true }
        },
    }
}

/// One character's animation step for one frame: classify the controller
/// reading, record it, and say what the animation player is to do.
pub fn play_animation_frame(
    tracker: &mut AnimatingState,
    speed: u64,
    airborne: bool,
) -> (c: AnimationCmd)
    ensures
        final(tracker).last_state() == Some(spec_classify(speed, airborne)),
        c == spec_cmd(spec_directive(old(tracker).last_state(), spec_classify(speed, airborne))),
{
    let state = classify(speed, airborne);
    let directive = tracker.update_by_discriminant(state);
    animation_cmd(directive)
}

/// One character's controller reading for one frame: the horizontal speed of
/// the physics controller, in millionths of a unit, and its airborne flag.
#[derive(Clone, Copy, Debug, PartialEq, Eq, Structural)]
pub struct ControllerReading {
    pub speed: u64,
    pub airborne: bool,
}

/// The animation pass over every character for one frame. A character whose
/// reading is absent — its animation player link or its controller basis is
/// missing, which the caller logs — is skipped for the frame, with its
/// tracker untouched and no command, and never halts the others.
pub fn play_animations(
    trackers: &mut Vec<AnimatingState>,
    readings: &Vec<Option<ControllerReading>>,
) -> (cmds: Vec<Option<AnimationCmd>>)
    requires
        old(trackers)@.len() == readings@.len(),
    ensures
        final(trackers)@.len() == old(trackers)@.len(),
        cmds@.len() == old(trackers)@.len(),
        forall|i: int| #![trigger readings@[i]]
            0 <= i < readings@.len() ==> (readings@[i] matches Some(f) ==> {
                &&& final(trackers)@[i].last_state() == Some(spec_classify(f.speed, f.airborne))
                &&& cmds@[i] == Some(
                    spec_cmd(
                        spec_directive(
                            old(trackers)@[i].last_state(),
                            spec_classify(f.speed, f.airborne),
                        ),
                    ),
                )
            }),
        forall|i: int|
            0 <= i < readings@.len() && readings@[i] is None ==> final(trackers)@[i] == old(
                trackers,
            )@[i] && cmds@[i] is None,
{
    let mut cmds: Vec<Option<AnimationCmd>> = Vec::new();
    let mut i: usize = 0;
    while i < trackers.len()
        invariant
            i <= trackers@.len(),
            trackers@.len() == old(trackers)@.len(),
            trackers@.len() == readings@.len(),
            cmds@.len() == i,
            forall|j: int| #![trigger readings@[j]]
                0 <= j < i ==> (readings@[j] matches Some(f) ==> {
                    &&& trackers@[j].last_state() == Some(spec_classify(f.speed, f.airborne))
                    &&& cmds@[j] == Some(
                        spec_cmd(
                            spec_directive(
                                old(trackers)@[j].last_state(),
                                spec_classify(f.speed, f.airborne),
                            ),
                        ),
                    )
                }),
            forall|j: int|
                0 <= j < i && readings@[j] is None ==> trackers@[j] == old(trackers)@[j]
                    && cmds@[j] is None,
            forall|j: int| i <= j < trackers@.len() ==> trackers@[j] == old(trackers)@[j],
        decreases trackers@.len() - i,
    {
        match readings[i] {
            Option::Some(reading) => {
                let mut tracker = trackers[i];
                let cmd = play_animation_frame(&mut tracker, reading.speed, reading.airborne);
                let ghost before = trackers@;
                trackers[i] = tracker;
                proof {
                    assert(trackers@ =~= before.update(i as int, tracker));
                }
                cmds.push(Option::Some(cmd));
            },
            Option::None => {
                cmds.push(Option::None);
            },
        }
        i = i + 1;
    }
    cmds
}

/// Law: a frame whose state keeps the previous frame's variant never starts
/// a clip, so repeated same-state frames cannot restart or re-trigger a
/// transition.
pub proof fn lemma_same_state_never_restarts(p: AnimationState, next: AnimationState)
    requires
        same_variant(p, next),
    ensures
        !(spec_cmd(spec_directive(Some(p), next)) is StartClip),
{
}

/// Law: a frame whose state differs in variant from the previous frame's
/// always starts the new state's clip, looping, with the documented
/// cross-fade.
pub proof fn lemma_changed_state_crossfades(prev: Option<AnimationState>, next: AnimationState)
    requires
        prev matches Some(p) ==> !same_variant(p, next),
    ensures
        spec_cmd(spec_directive(prev, next)) == (AnimationCmd::StartClip {
            clip: spec_clip_for(next),
            crossfade_millis: spec_crossfade_for(next),
            repeat: true,
        }),
        spec_crossfade_for(next) == if next is Walking {
            WALK_CROSSFADE_MILLIS
        } else {
            DEFAULT_CROSSFADE_MILLIS
        },
{
}

} // verus!
