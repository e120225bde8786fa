use novaforge::ship::{Race, ResistanceProfile, ShipClass, ShipDatabase, ShipStats};

#[test]
fn enum_defaults() {
    assert_eq!(ShipClass::default(), ShipClass::Frigate);
    assert_eq!(Race::default(), Race::Caldari);
}

#[test]
fn default_stats() {
    let s = ShipStats::default();
    assert_eq!(s.class, ShipClass::Frigate);
    assert_eq!(s.race, Race::Caldari);
    assert_eq!((s.hull_hp, s.shield_hp, s.armor_hp), (450, 600, 450));
    assert_eq!(s.shield_resists, ResistanceProfile { em: 0, thermal: 20, kinetic: 25, explosive: 50 });
    assert_eq!(s.armor_resists, ResistanceProfile { em: 50, thermal: 35, kinetic: 25, explosive: 10 });
    assert_eq!(s.hull_resists, ResistanceProfile::default());
    assert_eq!((s.cpu, s.powergrid, s.capacitor), (170, 45, 550));
    assert_eq!((s.high_slots, s.mid_slots, s.low_slots), (3, 4, 2));
    assert_eq!((s.turret_hardpoints, s.launcher_hardpoints), (2, 1));
    assert_eq!((s.max_velocity, s.agility, s.signature_radius), (380, 35, 34));
    assert_eq!((s.drone_bandwidth, s.drone_bay_capacity), (0, 0));
}

#[test]
fn unknown_ship_gets_default() {
    assert_eq!(ShipDatabase::stats_for("Titan"), ShipStats::default());
    assert_eq!(ShipDatabase::stats_for(""), ShipStats::default());
    assert_eq!(ShipDatabase::stats_for("merlin"), ShipStats::default());
}

#[test]
fn merlin_stats() {
    let s = ShipDatabase::stats_for("Merlin");
    assert_eq!(s.shield_hp, 750);
    assert_eq!(s, ShipStats { shield_hp: 750, ..ShipStats::default() });
}

#[test]
fn cormorant_stats() {
    let s = ShipDatabase::stats_for("Cormorant");
    assert_eq!(s.class, ShipClass::Destroyer);
    assert_eq!((s.hull_hp, s.shield_hp, s.armor_hp), (600, 1000, 550));
    assert_eq!((s.high_slots, s.turret_hardpoints, s.launcher_hardpoints), (7, 7, 0));
    assert_eq!(s.agility, 42);
}

#[test]
fn caracal_stats() {
    let s = ShipDatabase::stats_for("Caracal");
    assert_eq!(s.class, ShipClass::Cruiser);
    assert_eq!((s.cpu, s.powergrid, s.capacitor), (365, 700, 2250));
    assert_eq!((s.turret_hardpoints, s.launcher_hardpoints), (0, 4));
    assert_eq!(s.signature_radius, 135);
}

#[test]
fn punisher_stats() {
    let s = ShipDatabase::stats_for("Punisher");
    assert_eq!(s.race, Race::Amarr);
    assert_eq!(s.armor_hp, 800);
    assert_eq!(s.armor_resists, ResistanceProfile { em: 60, thermal: 35, kinetic: 25, explosive: 10 });
    assert_eq!(s.shield_resists, ShipStats::default().shield_resists);
}

#[test]
fn incursus_stats() {
    let s = ShipDatabase::stats_for("Incursus");
    assert_eq!(s.race, Race::Gallente);
    assert_eq!((s.drone_bandwidth, s.drone_bay_capacity), (10, 10));
    assert_eq!(s.max_velocity, 400);
}

#[test]
fn rifter_stats() {
    let s = ShipDatabase::stats_for("Rifter");
    assert_eq!(s.race, Race::Minmatar);
    assert_eq!((s.high_slots, s.mid_slots, s.low_slots), (4, 3, 2));
    assert_eq!((s.max_velocity, s.agility), (440, 32));
}
