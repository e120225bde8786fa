//! Decisions of the NPC pirate ship: idle, approach the player, orbit and
//! fire, flee.
//!
//! The engine measures the scene and hands over what the NPC sees as an
//! `NpcObservation`; `npc_step` decides the next state and what to do this
//! frame.

use vstd::prelude::*;
use crate::combat::NpcState;

verus! {

/// Preferred combat range in metres.
pub const ORBIT_RANGE: u32 = 5000;

/// Distance in metres below which the NPC starts approaching the player.
pub const AGGRO_RANGE: u32 = 30000;

/// What an NPC sees of the player in one frame.
#[derive(Debug, Clone, Copy, PartialEq, Eq, Structural)]
pub struct NpcObservation {
    /// The player is closer than `AGGRO_RANGE`.
    pub within_aggro_range: bool,
    /// The player is at most `ORBIT_RANGE` away.
    pub within_orbit_range: bool,
    /// The NPC's weapon timer has run out.
    pub weapon_ready: bool,
    /// The player is within twice the weapon's optimal range.
    pub within_weapon_range: bool,
    /// The player is not at the NPC's own position.
    pub player_apart: bool,
}

/// What the NPC does this frame.
#[derive(Debug, Clone, Copy, PartialEq, Eq, Structural)]
pub enum NpcAction {
    /// Stay in place.
    Hold,
    /// Move straight toward the player.
    Approach,
    /// Circle the player at orbit range.
    Orbit,
    /// Circle the player and fire the weapon.
    OrbitAndFire,
    /// Move straight away from the player.
    Flee,
}

/// The next state and this frame's action of an NPC in `state` that sees
/// `seen`.
pub open spec fn spec_npc_step(state: NpcState, seen: NpcObservation) -> (NpcState, NpcAction) {
    match state {
        NpcState::Idle => if seen.within_aggro_range {
            (NpcState::Approaching, NpcAction::Hold)
        } else {
            (NpcState::Idle, NpcAction::Hold)
        },
        NpcState::Approaching => if seen.within_orbit_range {
            (NpcState::Orbiting, NpcAction::Hold)
        } else {
            (NpcState::Approaching, NpcAction::Approach)
        },
        NpcState::Orbiting => if seen.weapon_ready && seen.within_weapon_range {
            (NpcState::Orbiting, NpcAction::OrbitAndFire)
        } else {
            (NpcState::Orbiting, NpcAction::Orbit)
        },
        NpcState::Fleeing => if seen.player_apart {
            (NpcState::Fleeing, NpcAction::Flee)
        } else {
            (NpcState::Fleeing, NpcAction::Hold)
        },
        NpcState::Dead => (NpcState::Dead, NpcAction::Hold),
    }
}

/// Decides the NPC's next state and its action for this frame. An idle NPC
/// aggroes once the player is within aggro range, without moving that frame;
/// an approaching NPC closes in until the player is within orbit range, then
/// orbits; an orbiting NPC fires when its weapon is ready and the player is in
/// weapon range; a fleeing NPC moves away while it can tell the way; a dead
/// NPC stays dead and does nothing.
pub fn npc_step(state: NpcState, seen: &NpcObservation) -> (next: (NpcState, NpcAction))
    ensures
        next == spec_npc_step(state, *seen),
        state == NpcState::Idle ==> next.1 == NpcAction::Hold && (next.0 == NpcState::Approaching
            <==> seen.within_aggro_range) && (next.0 == NpcState::Idle || next.0
            == NpcState::Approaching),
        state == NpcState::Approaching ==> (next.0 == NpcState::Orbiting <==> seen.within_orbit_range)
            && (next.0 == NpcState::Orbiting || next.0 == NpcState::Approaching) && (next.1
            == NpcAction::Approach <==> !seen.within_orbit_range) && (next.1 == NpcAction::Approach
            || next.1 == NpcAction::Hold),
        state == NpcState::Orbiting ==> next.0 == NpcState::Orbiting && (next.1
            == NpcAction::OrbitAndFire <==> seen.weapon_ready && seen.within_weapon_range) && (next.1
            == NpcAction::Orbit || next.1 == NpcAction::OrbitAndFire),
        state == NpcState::Fleeing ==> next.0 == NpcState::Fleeing && (next.1 == NpcAction::Flee
            <==> seen.player_apart) && (next.1 == NpcAction::Flee || next.1 == NpcAction::Hold),
        state == NpcState::Dead ==> next.0 == NpcState::Dead && next.1 == NpcAction::Hold,
{
    match state {
        NpcState::Idle => {
            if seen.within_aggro_range {
                (NpcState::Approaching, NpcAction::Hold)
            } else {
                (NpcState::Idle, NpcAction::Hold)
            }
        },
        NpcState::Approaching => {
            if seen.within_orbit_range {
                (NpcState::Orbiting, NpcAction::Hold)
            } else {
                (NpcState::Approaching, NpcAction::Approach)
            }
        },
        NpcState::Orbiting => {
            if seen.weapon_ready && seen.within_weapon_range {
                (NpcState::Orbiting, NpcAction::OrbitAndFire)
            } else {
                (NpcState::Orbiting, NpcAction::Orbit)
            }
        },
        NpcState::Fleeing => {
            if seen.player_apart {
                (NpcState::Fleeing, NpcAction::Flee)
            } else {
                (NpcState::Fleeing, NpcAction::Hold)
            }
        },
        NpcState::Dead => (NpcState::Dead, NpcAction::Hold),
    }
}

/// A dead NPC stays dead and does nothing.
pub proof fn law_dead_stays_dead(seen: NpcObservation)
    ensures
        spec_npc_step(NpcState::Dead, seen) == (NpcState::Dead, NpcAction::Hold),
{
}

/// An NPC fires only while orbiting, with its weapon ready and the player in
/// weapon range.
pub proof fn law_fires_only_when_ready(state: NpcState, seen: NpcObservation)
    ensures
        spec_npc_step(state, seen).1 == NpcAction::OrbitAndFire ==> state == NpcState::Orbiting
            && seen.weapon_ready && seen.within_weapon_range,
{
}

/// An NPC moves on at most one stage per frame, from idle to approaching to
/// orbiting, and never back; fleeing and dead NPCs keep their state.
pub proof fn law_one_stage_forward(state: NpcState, seen: NpcObservation)
    ensures
        ({
            let next = spec_npc_step(state, seen).0;
            ||| next == state
            ||| state == NpcState::Idle && next == NpcState::Approaching
            ||| state == NpcState::Approaching && next == NpcState::Orbiting
        }),
{
}

/// An idle NPC starts approaching exactly when the player is within aggro
/// range, however near or far that is within it; it never skips straight to
/// orbiting.
pub proof fn law_idle_aggroes(seen: NpcObservation)
    ensures
        (spec_npc_step(NpcState::Idle, seen).0 == NpcState::Approaching) == seen.within_aggro_range,
        spec_npc_step(NpcState::Idle, seen).0 != NpcState::Orbiting,
{
}

/// An approaching NPC starts orbiting exactly when the player is within orbit
/// range, and moves toward the player otherwise.
pub proof fn law_approach_until_orbit(seen: NpcObservation)
    ensures
        (spec_npc_step(NpcState::Approaching, seen).0 == NpcState::Orbiting)
            == seen.within_orbit_range,
        (spec_npc_step(NpcState::Approaching, seen).1 == NpcAction::Approach)
            == !seen.within_orbit_range,
{
}

/// An orbiting NPC fires exactly when its weapon is ready and the player is in
/// weapon range.
pub proof fn law_orbit_fires_when_ready(seen: NpcObservation)
    ensures
        (spec_npc_step(NpcState::Orbiting, seen).1 == NpcAction::OrbitAndFire) == (seen.weapon_ready
            && seen.within_weapon_range),
{
}

} // verus!
