//! Semantic input actions and the freeze counter that suppresses them.
//!
//! Actions are a closed enumeration per namespace (player, camera, UI),
//! decoupled from the physical device bindings that produce them. A global
//! reference-counted freeze suppresses player and camera input while any
//! holder keeps it raised, e.g. during a dialog or a cutscene.

use vstd::prelude::*;

use crate::vector::DualAxisData;

verus! {

/// Semantic actions a player can take, decoupled from their device bindings.
#[derive(Clone, Copy, Debug, PartialEq, Eq, Structural)]
pub enum PlayerAction {
    Move,
    Sprint,
    Jump,
    Interact,
    SpeedUpDialog,
    NumberedChoice1,
    NumberedChoice2,
    NumberedChoice3,
    NumberedChoice4,
    NumberedChoice5,
    NumberedChoice6,
    NumberedChoice7,
    NumberedChoice8,
    NumberedChoice9,
    NumberedChoice0,
}

impl Default for PlayerAction {
    fn default() -> (r: Self)
        ensures
            r == PlayerAction::Move,
    {
        PlayerAction::Move
    }
}

/// Semantic camera actions.
#[derive(Clone, Copy, Debug, PartialEq, Eq, Structural)]
pub enum CameraAction {
    Orbit,
    Zoom,
}

impl Default for CameraAction {
    fn default() -> (r: Self)
        ensures
            r == CameraAction::Orbit,
    {
        CameraAction::Orbit
    }
}

/// Semantic UI actions.
#[derive(Clone, Copy, Debug, PartialEq, Eq, Structural)]
pub enum UiAction {
    TogglePause,
}

impl Default for UiAction {
    fn default() -> (r: Self)
        ensures
            r == UiAction::TogglePause,
    {
        UiAction::TogglePause
    }
}

/// Count after one more freezer raises the freeze.
pub open spec fn count_after_freeze(c: nat) -> nat {
    c + 1
}

/// Count after one freezer releases the freeze; the decrement saturates at
/// zero so a stray release can never underflow the count.
pub open spec fn count_after_unfreeze(c: nat) -> nat {
    if c > 0 {
        (c - 1) as nat
    } else {
        0
    }
}

/// Global reference-counted input freeze. Input is suppressed while the count
/// is positive, so concurrent freezers compose: one freezer's release does not
/// unfreeze while another is still active.
#[derive(Clone, Copy, Debug, PartialEq, Eq, Structural)]
pub struct ActionsFrozen {
    freeze_count: usize,
}

impl Default for ActionsFrozen {
    fn default() -> (r: Self)
        ensures
            r.count() == 0,
    {
        ActionsFrozen { freeze_count: 0 }
    }
}

impl ActionsFrozen {
    /// How many freezers currently hold the freeze.
    pub closed spec fn count(self) -> nat {
        self.freeze_count as nat
    }

    /// Raise the freeze on behalf of one more freezer.
    pub fn freeze(&mut self)
        requires
            old(self).count() < usize::MAX,
        ensures
            final(self).count() == count_after_freeze(old(self).count()),
    {
        self.freeze_count = self.freeze_count + 1;
    }

    /// Release the freeze on behalf of one freezer. Saturates at zero.
    pub fn unfreeze(&mut self)
        ensures
            final(self).count() == count_after_unfreeze(old(self).count()),
    {
        if self.freeze_count > 0 {
            self.freeze_count = self.freeze_count - 1;
        }
    }

    /// A holder already held by `freeze_count` freezers, as restored from a
    /// saved game.
    pub fn with_count(freeze_count: usize) -> (r: Self)
        ensures
            r.count() == freeze_count,
    {
        ActionsFrozen { freeze_count }
    }

    /// How many freezers hold the freeze, for persisting the holder.
    pub fn freeze_count(&self) -> (r: usize)
        ensures
            r == self.count(),
    {
        self.freeze_count
    }

    /// Whether input is currently suppressed.
    pub fn is_frozen(&self) -> (r: bool)
        ensures
            r == (self.count() > 0),
    {
        self.freeze_count > 0
    }
}

/// Per-entity holder of the player's current action state, as the input
/// layer fills it each frame and gameplay systems read it.
#[derive(Clone, Copy, Debug, PartialEq, Eq, Structural)]
pub struct PlayerActions {
    /// Current movement axis reading, in millionths of a unit per axis.
    pub move_axis: DualAxisData,
    pub jump_pressed: bool,
    pub sprint_pressed: bool,
    pub interact_pressed: bool,
    pub speed_up_dialog_pressed: bool,
}

/// Per-entity holder of the camera's current action state.
#[derive(Clone, Copy, Debug, PartialEq, Eq, Structural)]
pub struct CameraActions {
    /// Current orbit reading, in millionths of a unit per axis.
    pub orbit: DualAxisData,
    /// Current zoom reading, in millionths of a unit.
    pub zoom: i64,
}

/// A player-action holder with its movement axis zeroed and jump, sprint and
/// interact released; everything else keeps its prior state.
pub open spec fn suppressed_player(p: PlayerActions) -> PlayerActions {
    PlayerActions {
        move_axis: DualAxisData { x: 0, y: 0 },
        jump_pressed: false,
        sprint_pressed: false,
        interact_pressed: false,
        speed_up_dialog_pressed: p.speed_up_dialog_pressed,
    }
}

/// A camera-action holder with its orbit and zoom axes zeroed.
pub open spec fn suppressed_camera(c: CameraActions) -> CameraActions {
    CameraActions { orbit: DualAxisData { x: 0, y: 0 }, zoom: 0 }
}

/// Zero one player-action holder's movement axis and release its jump,
/// sprint and interact.
pub fn suppress_player(p: &mut PlayerActions)
    ensures
        *final(p) == suppressed_player(*old(p)),
{
    p.move_axis = DualAxisData::zero();
    p.jump_pressed = false;
    p.sprint_pressed = false;
    p.interact_pressed = false;
}

/// Zero one camera-action holder's orbit and zoom axes.
pub fn suppress_camera(c: &mut CameraActions)
    ensures
        *final(c) == suppressed_camera(*old(c)),
{
    c.orbit = DualAxisData::zero();
    c.zoom = 0;
}

/// The per-frame suppression pass, run right after raw input collection:
/// while the freeze is held it forcibly clears every player-action holder's
/// movement axis, releases jump, sprint and interact, and zeroes every
/// camera-action holder's axes, so no stale input leaks through a frozen
/// frame; while the freeze is not held it touches nothing.
pub fn remove_actions_when_frozen(
    frozen: &ActionsFrozen,
    players: &mut Vec<PlayerActions>,
    cameras: &mut Vec<CameraActions>,
)
    ensures
        final(players)@.len() == old(players)@.len(),
        final(cameras)@.len() == old(cameras)@.len(),
        frozen.count() > 0 ==> (forall|i: int|
            0 <= i < old(players)@.len() ==> final(players)@[i] == suppressed_player(
                old(players)@[i],
            )),
        frozen.count() > 0 ==> (forall|i: int|
            0 <= i < old(cameras)@.len() ==> final(cameras)@[i] == suppressed_camera(
                old(cameras)@[i],
            )),
        frozen.count() == 0 ==> *final(players) == *old(players) && *final(cameras) == *old(
            cameras,
        ),
{
    if !frozen.is_frozen() {
        return;
    }
    let mut i: usize = 0;
    while i < players.len()
        invariant
            i <= players@.len(),
            players@.len() == old(players)@.len(),
            forall|j: int| 0 <= j < i ==> players@[j] == suppressed_player(old(players)@[j]),
            forall|j: int| i <= j < players@.len() ==> players@[j] == old(players)@[j],
        decreases players@.len() - i,
    {
        let mut holder = players[i];
        suppress_player(&mut holder);
        let ghost before = players@;
        players[i] = holder;
        proof {
            assert(players@ =~= before.update(i as int, holder));
        }
        i = i + 1;
    }
    let mut k: usize = 0;
    while k < cameras.len()
        invariant
            k <= cameras@.len(),
            cameras@.len() == old(cameras)@.len(),
            forall|j: int| 0 <= j < k ==> cameras@[j] == suppressed_camera(old(cameras)@[j]),
            forall|j: int| k <= j < cameras@.len() ==> cameras@[j] == old(cameras)@[j],
        decreases cameras@.len() - k,
    {
        let mut holder = cameras[k];
        suppress_camera(&mut holder);
        let ghost before = cameras@;
        cameras[k] = holder;
        proof {
            assert(cameras@ =~= before.update(k as int, holder));
        }
        k = k + 1;
    }
}

/// Law: freezing twice and unfreezing once leaves the input frozen, from any
/// starting count, so one freezer's release never unfreezes under another.
pub proof fn lemma_freeze_freeze_unfreeze_stays_frozen(c: nat)
    ensures
        count_after_unfreeze(count_after_freeze(count_after_freeze(c))) > 0,
{
}

/// Law: matched releases after matched raises restore the starting count, so
/// a holder that started unfrozen ends unfrozen.
pub proof fn lemma_matched_freeze_unfreeze_restores(c: nat)
    ensures
        count_after_unfreeze(count_after_unfreeze(count_after_freeze(count_after_freeze(c)))) == c,
{
}

} // verus!
