use novaforge::combat::{DamageType, MissileKind, NpcState, TurretKind, WeaponType};
use novaforge::faction::{standing_key, Faction};
use novaforge::npc_ship::{npc_step, NpcAction, NpcObservation, AGGRO_RANGE, ORBIT_RANGE};
use novaforge::player_ship::{ShipKey, ThrustInput};

fn seen(aggro: bool, orbit: bool, ready: bool, in_range: bool, apart: bool) -> NpcObservation {
    NpcObservation {
        within_aggro_range: aggro,
        within_orbit_range: orbit,
        weapon_ready: ready,
        within_weapon_range: in_range,
        player_apart: apart,
    }
}

#[test]
fn combat_defaults() {
    assert_eq!(DamageType::default(), DamageType::Kinetic);
    assert_eq!(TurretKind::default(), TurretKind::Hybrid);
    assert_eq!(MissileKind::default(), MissileKind::Rocket);
    assert_eq!(NpcState::default(), NpcState::Idle);
    assert_ne!(WeaponType::Turret(TurretKind::Energy), WeaponType::Missile(MissileKind::Torpedo));
}

#[test]
fn npc_ranges() {
    assert_eq!(ORBIT_RANGE, 5_000);
    assert_eq!(AGGRO_RANGE, 30_000);
}

#[test]
fn npc_idle_aggro() {
    assert_eq!(npc_step(NpcState::Idle, &seen(false, false, true, true, true)), (NpcState::Idle, NpcAction::Hold));
    assert_eq!(npc_step(NpcState::Idle, &seen(true, true, true, true, true)), (NpcState::Approaching, NpcAction::Hold));
}

#[test]
fn npc_approach_then_orbit() {
    assert_eq!(
        npc_step(NpcState::Approaching, &seen(true, false, true, true, true)),
        (NpcState::Approaching, NpcAction::Approach)
    );
    assert_eq!(
        npc_step(NpcState::Approaching, &seen(true, true, true, true, true)),
        (NpcState::Orbiting, NpcAction::Hold)
    );
}

#[test]
fn npc_orbit_fire() {
    assert_eq!(
        npc_step(NpcState::Orbiting, &seen(true, true, true, true, true)),
        (NpcState::Orbiting, NpcAction::OrbitAndFire)
    );
    assert_eq!(
        npc_step(NpcState::Orbiting, &seen(true, true, false, true, true)),
        (NpcState::Orbiting, NpcAction::Orbit)
    );
    assert_eq!(
        npc_step(NpcState::Orbiting, &seen(false, false, true, false, true)),
        (NpcState::Orbiting, NpcAction::Orbit)
    );
}

#[test]
fn npc_flee_and_dead() {
    assert_eq!(npc_step(NpcState::Fleeing, &seen(true, true, true, true, true)), (NpcState::Fleeing, NpcAction::Flee));
    assert_eq!(npc_step(NpcState::Fleeing, &seen(true, true, true, true, false)), (NpcState::Fleeing, NpcAction::Hold));
    assert_eq!(npc_step(NpcState::Dead, &seen(true, true, true, true, true)), (NpcState::Dead, NpcAction::Hold));
}

#[test]
fn player_keys() {
    let mut input = ThrustInput::default();
    input.handle_key(ShipKey::W, true);
    input.handle_key(ShipKey::ArrowLeft, true);
    assert_eq!(input.thrust_axes(), (-1, -1));
    input.handle_key(ShipKey::S, true);
    input.handle_key(ShipKey::D, true);
    assert_eq!(input.thrust_axes(), (0, 0));
    input.handle_key(ShipKey::ArrowUp, false);
    input.handle_key(ShipKey::A, false);
    assert_eq!(input.thrust_axes(), (1, 1));
    assert!(!input.fire_weapon);
    input.handle_key(ShipKey::Space, false);
    assert!(!input.fire_weapon);
    input.handle_key(ShipKey::Space, true);
    assert!(input.fire_weapon);
    input.handle_key(ShipKey::Space, false);
    assert!(input.fire_weapon);
    let before = input;
    input.handle_key(ShipKey::Other, true);
    assert_eq!(input, before);
}

#[test]
fn press_release_leaves_thrust_off() {
    let mut input = ThrustInput::default();
    input.handle_key(ShipKey::ArrowDown, true);
    assert!(input.thrust_backward);
    input.handle_key(ShipKey::ArrowDown, false);
    assert_eq!(input, ThrustInput::default());
}

#[test]
fn faction_names() {
    assert_eq!(Faction::default(), Faction::CaldariState);
    assert_eq!(Faction::Guristas.display_name(), "Guristas Pirates");
    assert_eq!(Faction::SanshasNation.display_name(), "Sansha's Nation");
    assert_eq!(Faction::GallenteRFederation.display_name(), "Gallente Federation");
    assert_eq!(standing_key(Faction::GallenteRFederation), "GallenteRFederation");
    assert_eq!(standing_key(Faction::RogueDrones), format!("{:?}", Faction::RogueDrones));
}

#[test]
fn faction_pirates() {
    let all = [
        Faction::AmarrEmpire,
        Faction::CaldariState,
        Faction::GallenteRFederation,
        Faction::MinmatarRepublic,
        Faction::Serpentis,
        Faction::Guristas,
        Faction::BloodRaiders,
        Faction::SanshasNation,
        Faction::AngelCartel,
        Faction::RogueDrones,
    ];
    for (i, f) in all.iter().enumerate() {
        assert_eq!(f.is_pirate(), i >= 4);
        assert_eq!(standing_key(*f), format!("{:?}", f));
    }
}

#[test]
fn escape_requests_quit_and_leaves_input() {
    assert!(ShipKey::Escape.requests_quit(true));
    assert!(!ShipKey::Escape.requests_quit(false));
    assert!(!ShipKey::Space.requests_quit(true));
    assert!(!ShipKey::Other.requests_quit(true));
    let mut input = ThrustInput::default();
    input.handle_key(ShipKey::W, true);
    let before = input;
    input.handle_key(ShipKey::Escape, true);
    assert_eq!(input, before);
}
