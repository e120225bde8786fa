//! Combat vocabulary: damage types, weapon categories, and the behaviour
//! states of NPC ships.

use vstd::prelude::*;

verus! {

/// The four damage types used throughout NovaForge.
#[derive(Debug, Clone, Copy, PartialEq, Eq, Structural)]
pub enum DamageType {
    EM,
    Thermal,
    Kinetic,
    Explosive,
}

impl Default for DamageType {
    fn default() -> (t: Self)
        ensures
            t == DamageType::Kinetic,
    {
        DamageType::Kinetic
    }
}

/// Weapon category.
#[derive(Debug, Clone, Copy, PartialEq, Eq, Structural)]
pub enum WeaponType {
    /// Turret weapons (tracking-based hit chance).
    Turret(TurretKind),
    /// Missile weapons (always hit, damage scaled by signature/explosion radius).
    Missile(MissileKind),
}

#[derive(Debug, Clone, Copy, PartialEq, Eq, Structural)]
pub enum TurretKind {
    Projectile,
    Hybrid,
    Energy,
}

impl Default for TurretKind {
    fn default() -> (k: Self)
        ensures
            k == TurretKind::Hybrid,
    {
        TurretKind::Hybrid
    }
}

#[derive(Debug, Clone, Copy, PartialEq, Eq, Structural)]
pub enum MissileKind {
    Rocket,
    LightMissile,
    HeavyMissile,
    CruiseMissile,
    Torpedo,
}

impl Default for MissileKind {
    fn default() -> (k: Self)
        ensures
            k == MissileKind::Rocket,
    {
        MissileKind::Rocket
    }
}

/// NPC behaviour state for pirate ships.
#[derive(Debug, Clone, Copy, PartialEq, Eq, Structural)]
pub enum NpcState {
    Idle,
    Approaching,
    Orbiting,
    Fleeing,
    Dead,
}

impl Default for NpcState {
    fn default() -> (s: Self)
        ensures
            s == NpcState::Idle,
    {
        NpcState::Idle
    }
}

} // verus!
