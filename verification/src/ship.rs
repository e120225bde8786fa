//! Ship classes, races and the catalogue of ship types with their base
//! statistics.
//!
//! Catalogue figures are exact decimals, so they are kept as integers:
//! hit points, CPU, power grid, capacitor, velocity (m/s) and signature
//! radius (m) in whole units, agility in tenths, and resistances in
//! hundredths (100 = full resistance).

use vstd::prelude::*;
use crate::text::same_name;

verus! {

/// Playable and NPC ship classes, ordered by size.
#[derive(Debug, Clone, Copy, PartialEq, Eq, Structural)]
pub enum ShipClass {
    Frigate,
    Destroyer,
    Cruiser,
    Battlecruiser,
    Battleship,
    MiningBarge,
    Capital,
}

impl Default for ShipClass {
    fn default() -> (c: Self)
        ensures
            c == ShipClass::Frigate,
    {
        ShipClass::Frigate
    }
}

/// The four playable races, each with distinct weapon and tanking affinities.
#[derive(Debug, Clone, Copy, PartialEq, Eq, Structural)]
pub enum Race {
    /// Energy turrets, armor tanking.
    Amarr,
    /// Hybrid turrets & missiles, shield tanking.
    Caldari,
    /// Hybrid turrets & drones, armor tanking.
    Gallente,
    /// Projectile turrets, speed-based defense.
    Minmatar,
}

impl Default for Race {
    fn default() -> (r: Self)
        ensures
            r == Race::Caldari,
    {
        Race::Caldari
    }
}

/// Resistance profile for a ship layer (shield, armor, hull), in hundredths:
/// 100 is full resistance.
#[derive(Debug, Clone, Copy, PartialEq, Eq, Structural, Default)]
pub struct ResistanceProfile {
    pub em: u32,
    pub thermal: u32,
    pub kinetic: u32,
    pub explosive: u32,
}

/// Base statistics for a ship type before module fitting is applied.
#[derive(Debug, Clone, Copy, PartialEq, Eq, Structural)]
pub struct ShipStats {
    pub class: ShipClass,
    pub race: Race,
    // Hit points
    pub hull_hp: u32,
    pub shield_hp: u32,
    pub armor_hp: u32,
    // Resistances
    pub shield_resists: ResistanceProfile,
    pub armor_resists: ResistanceProfile,
    pub hull_resists: ResistanceProfile,
    // Fitting resources
    pub cpu: u32,
    pub powergrid: u32,
    pub capacitor: u32,
    // Fitting slots
    pub high_slots: u8,
    pub mid_slots: u8,
    pub low_slots: u8,
    // Hardpoints
    pub turret_hardpoints: u8,
    pub launcher_hardpoints: u8,
    // Navigation: velocity in m/s, agility in tenths, signature radius in m
    pub max_velocity: u32,
    pub agility: u32,
    pub signature_radius: u32,
    // Drone bay
    pub drone_bandwidth: u8,
    pub drone_bay_capacity: u8,
}

/// The statistics of a ship type before fitting, when nothing else is known.
pub open spec fn spec_default_stats() -> ShipStats {
    ShipStats {
        class: ShipClass::Frigate,
        race: Race::Caldari,
        hull_hp: 450,
        shield_hp: 600,
        armor_hp: 450,
        shield_resists: ResistanceProfile { em: 0, thermal: 20, kinetic: 25, explosive: 50 },
        armor_resists: ResistanceProfile { em: 50, thermal: 35, kinetic: 25, explosive: 10 },
        hull_resists: ResistanceProfile { em: 0, thermal: 0, kinetic: 0, explosive: 0 },
        cpu: 170,
        powergrid: 45,
        capacitor: 550,
        high_slots: 3,
        mid_slots: 4,
        low_slots: 2,
        turret_hardpoints: 2,
        launcher_hardpoints: 1,
        max_velocity: 380,
        agility: 35,
        signature_radius: 34,
        drone_bandwidth: 0,
        drone_bay_capacity: 0,
    }
}

/// The base statistics of a ship type, by name; a default Caldari frigate
/// for an unknown name.
pub open spec fn spec_stats_for(name: Seq<char>) -> ShipStats {
    if name == "Merlin"@ {
        ShipStats {
            class: ShipClass::Frigate,
            race: Race::Caldari,
            hull_hp: 450,
            shield_hp: 750,
            armor_hp: 450,
            shield_resists: ResistanceProfile { em: 0, thermal: 20, kinetic: 25, explosive: 50 },
            armor_resists: ResistanceProfile { em: 50, thermal: 35, kinetic: 25, explosive: 10 },
            hull_resists: ResistanceProfile { em: 0, thermal: 0, kinetic: 0, explosive: 0 },
            cpu: 170,
            powergrid: 45,
            capacitor: 550,
            high_slots: 3,
            mid_slots: 4,
            low_slots: 2,
            turret_hardpoints: 2,
            launcher_hardpoints: 1,
            max_velocity: 380,
            agility: 35,
            signature_radius: 34,
            drone_bandwidth: 0,
            drone_bay_capacity: 0,
        }
    } else if name == "Cormorant"@ {
        ShipStats {
            class: ShipClass::Destroyer,
            race: Race::Caldari,
            hull_hp: 600,
            shield_hp: 1000,
            armor_hp: 550,
            shield_resists: ResistanceProfile { em: 0, thermal: 20, kinetic: 25, explosive: 50 },
            armor_resists: ResistanceProfile { em: 50, thermal: 35, kinetic: 25, explosive: 10 },
            hull_resists: ResistanceProfile { em: 0, thermal: 0, kinetic: 0, explosive: 0 },
            cpu: 220,
            powergrid: 62,
            capacitor: 750,
            high_slots: 7,
            mid_slots: 3,
            low_slots: 2,
            turret_hardpoints: 7,
            launcher_hardpoints: 0,
            max_velocity: 320,
            agility: 42,
            signature_radius: 55,
            drone_bandwidth: 0,
            drone_bay_capacity: 0,
        }
    } else if name == "Caracal"@ {
        ShipStats {
            class: ShipClass::Cruiser,
            race: Race::Caldari,
            hull_hp: 1300,
            shield_hp: 2100,
            armor_hp: 1200,
            shield_resists: ResistanceProfile { em: 0, thermal: 20, kinetic: 25, explosive: 50 },
            armor_resists: ResistanceProfile { em: 50, thermal: 35, kinetic: 25, explosive: 10 },
            hull_resists: ResistanceProfile { em: 0, thermal: 0, kinetic: 0, explosive: 0 },
            cpu: 365,
            powergrid: 700,
            capacitor: 2250,
            high_slots: 5,
            mid_slots: 5,
            low_slots: 3,
            turret_hardpoints: 0,
            launcher_hardpoints: 4,
            max_velocity: 240,
            agility: 52,
            signature_radius: 135,
            drone_bandwidth: 0,
            drone_bay_capacity: 0,
        }
    } else if name == "Punisher"@ {
        ShipStats {
            class: ShipClass::Frigate,
            race: Race::Amarr,
            hull_hp: 550,
            shield_hp: 400,
            armor_hp: 800,
            shield_resists: ResistanceProfile { em: 0, thermal: 20, kinetic: 25, explosive: 50 },
            armor_resists: ResistanceProfile { em: 60, thermal: 35, kinetic: 25, explosive: 10 },
            hull_resists: ResistanceProfile { em: 0, thermal: 0, kinetic: 0, explosive: 0 },
            cpu: 145,
            powergrid: 56,
            capacitor: 800,
            high_slots: 4,
            mid_slots: 2,
            low_slots: 4,
            turret_hardpoints: 4,
            launcher_hardpoints: 0,
            max_velocity: 330,
            agility: 33,
            signature_radius: 36,
            drone_bandwidth: 0,
            drone_bay_capacity: 0,
        }
    } else if name == "Incursus"@ {
        ShipStats {
            class: ShipClass::Frigate,
            race: Race::Gallente,
            hull_hp: 500,
            shield_hp: 450,
            armor_hp: 700,
            shield_resists: ResistanceProfile { em: 0, thermal: 20, kinetic: 25, explosive: 50 },
            armor_resists: ResistanceProfile { em: 50, thermal: 35, kinetic: 25, explosive: 10 },
            hull_resists: ResistanceProfile { em: 0, thermal: 0, kinetic: 0, explosive: 0 },
            cpu: 135,
            powergrid: 57,
            capacitor: 600,
            high_slots: 3,
            mid_slots: 2,
            low_slots: 3,
            turret_hardpoints: 3,
            launcher_hardpoints: 0,
            max_velocity: 400,
            agility: 38,
            signature_radius: 32,
            drone_bandwidth: 10,
            drone_bay_capacity: 10,
        }
    } else if name == "Rifter"@ {
        ShipStats {
            class: ShipClass::Frigate,
            race: Race::Minmatar,
            hull_hp: 450,
            shield_hp: 550,
            armor_hp: 500,
            shield_resists: ResistanceProfile { em: 0, thermal: 20, kinetic: 25, explosive: 50 },
            armor_resists: ResistanceProfile { em: 50, thermal: 35, kinetic: 25, explosive: 10 },
            hull_resists: ResistanceProfile { em: 0, thermal: 0, kinetic: 0, explosive: 0 },
            cpu: 150,
            powergrid: 42,
            capacitor: 500,
            high_slots: 4,
            mid_slots: 3,
            low_slots: 2,
            turret_hardpoints: 3,
            launcher_hardpoints: 1,
            max_velocity: 440,
            agility: 32,
            signature_radius: 32,
            drone_bandwidth: 0,
            drone_bay_capacity: 0,
        }
    } else {
        spec_default_stats()
    }
}

impl Default for ShipStats {
    fn default() -> (s: Self)
        ensures
            s == spec_default_stats(),
    {
        ShipStats {
            class: ShipClass::Frigate,
            race: Race::Caldari,
            hull_hp: 450,
            shield_hp: 600,
            armor_hp: 450,
            shield_resists: ResistanceProfile { em: 0, thermal: 20, kinetic: 25, explosive: 50 },
            armor_resists: ResistanceProfile { em: 50, thermal: 35, kinetic: 25, explosive: 10 },
            hull_resists: ResistanceProfile { em: 0, thermal: 0, kinetic: 0, explosive: 0 },
            cpu: 170,
            powergrid: 45,
            capacitor: 550,
            high_slots: 3,
            mid_slots: 4,
            low_slots: 2,
            turret_hardpoints: 2,
            launcher_hardpoints: 1,
            max_velocity: 380,
            agility: 35,
            signature_radius: 34,
            drone_bandwidth: 0,
            drone_bay_capacity: 0,
        }
    }
}

/// Catalogue of all available ship types in NovaForge.
pub struct ShipDatabase;

impl ShipDatabase {
    /// Returns the base stats for a given ship type name.
    /// Returns the default (a Caldari frigate) when the type is unknown.
    pub fn stats_for(ship_type: &str) -> (s: ShipStats)
        ensures
            s == spec_stats_for(ship_type@),
    {
        if same_name(ship_type, "Merlin") {
            ShipStats {
                class: ShipClass::Frigate,
                race: Race::Caldari,
                hull_hp: 450,
                shield_hp: 750,
                armor_hp: 450,
                shield_resists: ResistanceProfile { em: 0, thermal: 20, kinetic: 25, explosive: 50 },
                armor_resists: ResistanceProfile { em: 50, thermal: 35, kinetic: 25, explosive: 10 },
                hull_resists: ResistanceProfile { em: 0, thermal: 0, kinetic: 0, explosive: 0 },
                cpu: 170,
                powergrid: 45,
                capacitor: 550,
                high_slots: 3,
                mid_slots: 4,
                low_slots: 2,
                turret_hardpoints: 2,
                launcher_hardpoints: 1,
                max_velocity: 380,
                agility: 35,
                signature_radius: 34,
                drone_bandwidth: 0,
                drone_bay_capacity: 0,
            }
        } else if same_name(ship_type, "Cormorant") {
            ShipStats {
                class: ShipClass::Destroyer,
                race: Race::Caldari,
                hull_hp: 600,
                shield_hp: 1000,
                armor_hp: 550,
                shield_resists: ResistanceProfile { em: 0, thermal: 20, kinetic: 25, explosive: 50 },
                armor_resists: ResistanceProfile { em: 50, thermal: 35, kinetic: 25, explosive: 10 },
                hull_resists: ResistanceProfile { em: 0, thermal: 0, kinetic: 0, explosive: 0 },
                cpu: 220,
                powergrid: 62,
                capacitor: 750,
                high_slots: 7,
                mid_slots: 3,
                low_slots: 2,
                turret_hardpoints: 7,
                launcher_hardpoints: 0,
                max_velocity: 320,
                agility: 42,
                signature_radius: 55,
                drone_bandwidth: 0,
                drone_bay_capacity: 0,
            }
        } else if same_name(ship_type, "Caracal") {
            ShipStats {
                class: ShipClass::Cruiser,
                race: Race::Caldari,
                hull_hp: 1300,
                shield_hp: 2100,
                armor_hp: 1200,
                shield_resists: ResistanceProfile { em: 0, thermal: 20, kinetic: 25, explosive: 50 },
                armor_resists: ResistanceProfile { em: 50, thermal: 35, kinetic: 25, explosive: 10 },
                hull_resists: ResistanceProfile { em: 0, thermal: 0, kinetic: 0, explosive: 0 },
                cpu: 365,
                powergrid: 700,
                capacitor: 2250,
                high_slots: 5,
                mid_slots: 5,
                low_slots: 3,
                turret_hardpoints: 0,
                launcher_hardpoints: 4,
                max_velocity: 240,
                agility: 52,
                signature_radius: 135,
                drone_bandwidth: 0,
                drone_bay_capacity: 0,
            }
        } else if same_name(ship_type, "Punisher") {
            ShipStats {
                class: ShipClass::Frigate,
                race: Race::Amarr,
                hull_hp: 550,
                shield_hp: 400,
                armor_hp: 800,
                shield_resists: ResistanceProfile { em: 0, thermal: 20, kinetic: 25, explosive: 50 },
                armor_resists: ResistanceProfile { em: 60, thermal: 35, kinetic: 25, explosive: 10 },
                hull_resists: ResistanceProfile { em: 0, thermal: 0, kinetic: 0, explosive: 0 },
                cpu: 145,
                powergrid: 56,
                capacitor: 800,
                high_slots: 4,
                mid_slots: 2,
                low_slots: 4,
                turret_hardpoints: 4,
                launcher_hardpoints: 0,
                max_velocity: 330,
                agility: 33,
                signature_radius: 36,
                drone_bandwidth: 0,
                drone_bay_capacity: 0,
            }
        } else if same_name(ship_type, "Incursus") {
            ShipStats {
                class: ShipClass::Frigate,
                race: Race::Gallente,
                hull_hp: 500,
                shield_hp: 450,
                armor_hp: 700,
                shield_resists: ResistanceProfile { em: 0, thermal: 20, kinetic: 25, explosive: 50 },
                armor_resists: ResistanceProfile { em: 50, thermal: 35, kinetic: 25, explosive: 10 },
                hull_resists: ResistanceProfile { em: 0, thermal: 0, kinetic: 0, explosive: 0 },
                cpu: 135,
                powergrid: 57,
                capacitor: 600,
                high_slots: 3,
                mid_slots: 2,
                low_slots: 3,
                turret_hardpoints: 3,
                launcher_hardpoints: 0,
                max_velocity: 400,
                agility: 38,
                signature_radius: 32,
                drone_bandwidth: 10,
                drone_bay_capacity: 10,
            }
        } else if same_name(ship_type, "Rifter") {
            ShipStats {
                class: ShipClass::Frigate,
                race: Race::Minmatar,
                hull_hp: 450,
                shield_hp: 550,
                armor_hp: 500,
                shield_resists: ResistanceProfile { em: 0, thermal: 20, kinetic: 25, explosive: 50 },
                armor_resists: ResistanceProfile { em: 50, thermal: 35, kinetic: 25, explosive: 10 },
                hull_resists: ResistanceProfile { em: 0, thermal: 0, kinetic: 0, explosive: 0 },
                cpu: 150,
                powergrid: 42,
                capacitor: 500,
                high_slots: 4,
                mid_slots: 3,
                low_slots: 2,
                turret_hardpoints: 3,
                launcher_hardpoints: 1,
                max_velocity: 440,
                agility: 32,
                signature_radius: 32,
                drone_bandwidth: 0,
                drone_bay_capacity: 0,
            }
        } else {
            ShipStats::default()
        }
    }
}

/// The catalogue's figures for each named ship type, and for the default
/// frigate: hit points and fitting in whole units, agility in tenths,
/// resistances in hundredths.
pub proof fn law_catalogue_figures()
    ensures
        spec_stats_for("Merlin"@).class == ShipClass::Frigate,
        spec_stats_for("Merlin"@).race == Race::Caldari,
        spec_stats_for("Merlin"@).hull_hp == 450,
        spec_stats_for("Merlin"@).shield_hp == 750,
        spec_stats_for("Merlin"@).armor_hp == 450,
        spec_stats_for("Merlin"@).cpu == 170,
        spec_stats_for("Merlin"@).powergrid == 45,
        spec_stats_for("Merlin"@).capacitor == 550,
        spec_stats_for("Merlin"@).high_slots == 3,
        spec_stats_for("Merlin"@).mid_slots == 4,
        spec_stats_for("Merlin"@).low_slots == 2,
        spec_stats_for("Merlin"@).turret_hardpoints == 2,
        spec_stats_for("Merlin"@).launcher_hardpoints == 1,
        spec_stats_for("Merlin"@).max_velocity == 380,
        spec_stats_for("Merlin"@).agility == 35,
        spec_stats_for("Merlin"@).signature_radius == 34,
        spec_stats_for("Merlin"@).drone_bandwidth == 0,
        spec_stats_for("Merlin"@).drone_bay_capacity == 0,
        spec_stats_for("Merlin"@).shield_resists == (ResistanceProfile { em: 0, thermal: 20, kinetic: 25, explosive: 50 }),
        spec_stats_for("Merlin"@).armor_resists == (ResistanceProfile { em: 50, thermal: 35, kinetic: 25, explosive: 10 }),
        spec_stats_for("Merlin"@).hull_resists == (ResistanceProfile { em: 0, thermal: 0, kinetic: 0, explosive: 0 }),
        spec_stats_for("Cormorant"@).class == ShipClass::Destroyer,
        spec_stats_for("Cormorant"@).race == Race::Caldari,
        spec_stats_for("Cormorant"@).hull_hp == 600,
        spec_stats_for("Cormorant"@).shield_hp == 1000,
        spec_stats_for("Cormorant"@).armor_hp == 550,
        spec_stats_for("Cormorant"@).cpu == 220,
        spec_stats_for("Cormorant"@).powergrid == 62,
        spec_stats_for("Cormorant"@).capacitor == 750,
        spec_stats_for("Cormorant"@).high_slots == 7,
        spec_stats_for("Cormorant"@).mid_slots == 3,
        spec_stats_for("Cormorant"@).low_slots == 2,
        spec_stats_for("Cormorant"@).turret_hardpoints == 7,
        spec_stats_for("Cormorant"@).launcher_hardpoints == 0,
        spec_stats_for("Cormorant"@).max_velocity == 320,
        spec_stats_for("Cormorant"@).agility == 42,
        spec_stats_for("Cormorant"@).signature_radius == 55,
        spec_stats_for("Cormorant"@).drone_bandwidth == 0,
        spec_stats_for("Cormorant"@).drone_bay_capacity == 0,
        spec_stats_for("Cormorant"@).shield_resists == (ResistanceProfile { em: 0, thermal: 20, kinetic: 25, explosive: 50 }),
        spec_stats_for("Cormorant"@).armor_resists == (ResistanceProfile { em: 50, thermal: 35, kinetic: 25, explosive: 10 }),
        spec_stats_for("Cormorant"@).hull_resists == (ResistanceProfile { em: 0, thermal: 0, kinetic: 0, explosive: 0 }),
        spec_stats_for("Caracal"@).class == ShipClass::Cruiser,
        spec_stats_for("Caracal"@).race == Race::Caldari,
        spec_stats_for("Caracal"@).hull_hp == 1300,
        spec_stats_for("Caracal"@).shield_hp == 2100,
        spec_stats_for("Caracal"@).armor_hp == 1200,
        spec_stats_for("Caracal"@).cpu == 365,
        spec_stats_for("Caracal"@).powergrid == 700,
        spec_stats_for("Caracal"@).capacitor == 2250,
        spec_stats_for("Caracal"@).high_slots == 5,
        spec_stats_for("Caracal"@).mid_slots == 5,
        spec_stats_for("Caracal"@).low_slots == 3,
        spec_stats_for("Caracal"@).turret_hardpoints == 0,
        spec_stats_for("Caracal"@).launcher_hardpoints == 4,
        spec_stats_for("Caracal"@).max_velocity == 240,
        spec_stats_for("Caracal"@).agility == 52,
        spec_stats_for("Caracal"@).signature_radius == 135,
        spec_stats_for("Caracal"@).drone_bandwidth == 0,
        spec_stats_for("Caracal"@).drone_bay_capacity == 0,
        spec_stats_for("Caracal"@).shield_resists == (ResistanceProfile { em: 0, thermal: 20, kinetic: 25, explosive: 50 }),
        spec_stats_for("Caracal"@).armor_resists == (ResistanceProfile { em: 50, thermal: 35, kinetic: 25, explosive: 10 }),
        spec_stats_for("Caracal"@).hull_resists == (ResistanceProfile { em: 0, thermal: 0, kinetic: 0, explosive: 0 }),
        spec_stats_for("Punisher"@).class == ShipClass::Frigate,
        spec_stats_for("Punisher"@).race == Race::Amarr,
        spec_stats_for("Punisher"@).hull_hp == 550,
        spec_stats_for("Punisher"@).shield_hp == 400,
        spec_stats_for("Punisher"@).armor_hp == 800,
        spec_stats_for("Punisher"@).cpu == 145,
        spec_stats_for("Punisher"@).powergrid == 56,
        spec_stats_for("Punisher"@).capacitor == 800,
        spec_stats_for("Punisher"@).high_slots == 4,
        spec_stats_for("Punisher"@).mid_slots == 2,
        spec_stats_for("Punisher"@).low_slots == 4,
        spec_stats_for("Punisher"@).turret_hardpoints == 4,
        spec_stats_for("Punisher"@).launcher_hardpoints == 0,
        spec_stats_for("Punisher"@).max_velocity == 330,
        spec_stats_for("Punisher"@).agility == 33,
        spec_stats_for("Punisher"@).signature_radius == 36,
        spec_stats_for("Punisher"@).drone_bandwidth == 0,
        spec_stats_for("Punisher"@).drone_bay_capacity == 0,
        spec_stats_for("Punisher"@).shield_resists == (ResistanceProfile { em: 0, thermal: 20, kinetic: 25, explosive: 50 }),
        spec_stats_for("Punisher"@).armor_resists == (ResistanceProfile { em: 60, thermal: 35, kinetic: 25, explosive: 10 }),
        spec_stats_for("Punisher"@).hull_resists == (ResistanceProfile { em: 0, thermal: 0, kinetic: 0, explosive: 0 }),
        spec_stats_for("Incursus"@).class == ShipClass::Frigate,
        spec_stats_for("Incursus"@).race == Race::Gallente,
        spec_stats_for("Incursus"@).hull_hp == 500,
        spec_stats_for("Incursus"@).shield_hp == 450,
        spec_stats_for("Incursus"@).armor_hp == 700,
        spec_stats_for("Incursus"@).cpu == 135,
        spec_stats_for("Incursus"@).powergrid == 57,
        spec_stats_for("Incursus"@).capacitor == 600,
        spec_stats_for("Incursus"@).high_slots == 3,
        spec_stats_for("Incursus"@).mid_slots == 2,
        spec_stats_for("Incursus"@).low_slots == 3,
        spec_stats_for("Incursus"@).turret_hardpoints == 3,
        spec_stats_for("Incursus"@).launcher_hardpoints == 0,
        spec_stats_for("Incursus"@).max_velocity == 400,
        spec_stats_for("Incursus"@).agility == 38,
        spec_stats_for("Incursus"@).signature_radius == 32,
        spec_stats_for("Incursus"@).drone_bandwidth == 10,
        spec_stats_for("Incursus"@).drone_bay_capacity == 10,
        spec_stats_for("Incursus"@).shield_resists == (ResistanceProfile { em: 0, thermal: 20, kinetic: 25, explosive: 50 }),
        spec_stats_for("Incursus"@).armor_resists == (ResistanceProfile { em: 50, thermal: 35, kinetic: 25, explosive: 10 }),
        spec_stats_for("Incursus"@).hull_resists == (ResistanceProfile { em: 0, thermal: 0, kinetic: 0, explosive: 0 }),
        spec_stats_for("Rifter"@).class == ShipClass::Frigate,
        spec_stats_for("Rifter"@).race == Race::Minmatar,
        spec_stats_for("Rifter"@).hull_hp == 450,
        spec_stats_for("Rifter"@).shield_hp == 550,
        spec_stats_for("Rifter"@).armor_hp == 500,
        spec_stats_for("Rifter"@).cpu == 150,
        spec_stats_for("Rifter"@).powergrid == 42,
        spec_stats_for("Rifter"@).capacitor == 500,
        spec_stats_for("Rifter"@).high_slots == 4,
        spec_stats_for("Rifter"@).mid_slots == 3,
        spec_stats_for("Rifter"@).low_slots == 2,
        spec_stats_for("Rifter"@).turret_hardpoints == 3,
        spec_stats_for("Rifter"@).launcher_hardpoints == 1,
        spec_stats_for("Rifter"@).max_velocity == 440,
        spec_stats_for("Rifter"@).agility == 32,
        spec_stats_for("Rifter"@).signature_radius == 32,
        spec_stats_for("Rifter"@).drone_bandwidth == 0,
        spec_stats_for("Rifter"@).drone_bay_capacity == 0,
        spec_stats_for("Rifter"@).shield_resists == (ResistanceProfile { em: 0, thermal: 20, kinetic: 25, explosive: 50 }),
        spec_stats_for("Rifter"@).armor_resists == (ResistanceProfile { em: 50, thermal: 35, kinetic: 25, explosive: 10 }),
        spec_stats_for("Rifter"@).hull_resists == (ResistanceProfile { em: 0, thermal: 0, kinetic: 0, explosive: 0 }),
        spec_default_stats().class == ShipClass::Frigate,
        spec_default_stats().race == Race::Caldari,
        spec_default_stats().hull_hp == 450,
        spec_default_stats().shield_hp == 600,
        spec_default_stats().armor_hp == 450,
        spec_default_stats().cpu == 170,
        spec_default_stats().powergrid == 45,
        spec_default_stats().capacitor == 550,
        spec_default_stats().high_slots == 3,
        spec_default_stats().mid_slots == 4,
        spec_default_stats().low_slots == 2,
        spec_default_stats().turret_hardpoints == 2,
        spec_default_stats().launcher_hardpoints == 1,
        spec_default_stats().max_velocity == 380,
        spec_default_stats().agility == 35,
        spec_default_stats().signature_radius == 34,
        spec_default_stats().drone_bandwidth == 0,
        spec_default_stats().drone_bay_capacity == 0,
        spec_default_stats().shield_resists == (ResistanceProfile { em: 0, thermal: 20, kinetic: 25, explosive: 50 }),
        spec_default_stats().armor_resists == (ResistanceProfile { em: 50, thermal: 35, kinetic: 25, explosive: 10 }),
        spec_default_stats().hull_resists == (ResistanceProfile { em: 0, thermal: 0, kinetic: 0, explosive: 0 }),
{
    reveal_strlit("Merlin");
    reveal_strlit("Cormorant");
    reveal_strlit("Caracal");
    reveal_strlit("Punisher");
    reveal_strlit("Incursus");
    reveal_strlit("Rifter");
    assert("Cormorant"@.len() != "Merlin"@.len());
    assert("Caracal"@.len() != "Merlin"@.len());
    assert("Caracal"@.len() != "Cormorant"@.len());
    assert("Punisher"@.len() != "Merlin"@.len());
    assert("Punisher"@.len() != "Cormorant"@.len());
    assert("Punisher"@.len() != "Caracal"@.len());
    assert("Incursus"@.len() != "Merlin"@.len());
    assert("Incursus"@.len() != "Cormorant"@.len());
    assert("Incursus"@.len() != "Caracal"@.len());
    assert("Incursus"@[0] != "Punisher"@[0]);
    assert("Rifter"@[0] != "Merlin"@[0]);
    assert("Rifter"@.len() != "Cormorant"@.len());
    assert("Rifter"@.len() != "Caracal"@.len());
    assert("Rifter"@.len() != "Punisher"@.len());
    assert("Rifter"@.len() != "Incursus"@.len());
}

/// Every ship can fit a weapon on each of its turret and launcher hardpoints:
/// hardpoints never outnumber high slots.
pub proof fn law_hardpoints_fit_high_slots(name: Seq<char>)
    ensures
        spec_stats_for(name).turret_hardpoints + spec_stats_for(name).launcher_hardpoints
            <= spec_stats_for(name).high_slots,
{
}

/// Racial tanking: Caldari ships carry more shield than armor, Amarr and
/// Gallente ships more armor than shield; only Gallente ships carry drones;
/// Minmatar ships are the fastest in the catalogue.
pub proof fn law_racial_affinities(name: Seq<char>, other: Seq<char>)
    ensures
        spec_stats_for(name).race == Race::Caldari ==> spec_stats_for(name).shield_hp
            > spec_stats_for(name).armor_hp,
        spec_stats_for(name).race == Race::Amarr || spec_stats_for(name).race == Race::Gallente
            ==> spec_stats_for(name).armor_hp > spec_stats_for(name).shield_hp,
        spec_stats_for(name).drone_bandwidth > 0 ==> spec_stats_for(name).race == Race::Gallente,
        spec_stats_for(name).race == Race::Minmatar ==> spec_stats_for(name).max_velocity
            >= spec_stats_for(other).max_velocity,
{
}

/// An unknown ship type gets the default frigate: a Caldari frigate.
pub proof fn law_unknown_is_default_frigate(name: Seq<char>)
    requires
        name != "Merlin"@,
        name != "Cormorant"@,
        name != "Caracal"@,
        name != "Punisher"@,
        name != "Incursus"@,
        name != "Rifter"@,
    ensures
        spec_stats_for(name) == spec_default_stats(),
        spec_stats_for(name).class == ShipClass::Frigate,
        spec_stats_for(name).race == Race::Caldari,
{
}

} // verus!
