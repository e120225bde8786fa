//! Factions of NovaForge and the names under which they are shown and stored.

use vstd::prelude::*;

verus! {

/// All major factions in NovaForge.
#[derive(Debug, Clone, Copy, PartialEq, Eq, Structural, Hash)]
pub enum Faction {
    // Playable empire factions
    AmarrEmpire,
    CaldariState,
    GallenteRFederation,
    MinmatarRepublic,
    // NPC pirate factions
    Serpentis,
    Guristas,
    BloodRaiders,
    SanshasNation,
    AngelCartel,
    RogueDrones,
}

impl Default for Faction {
    fn default() -> (f: Self)
        ensures
            f == Faction::CaldariState,
    {
        Faction::CaldariState
    }
}

/// The human-readable name of a faction.
pub open spec fn spec_display_name(f: Faction) -> Seq<char> {
    match f {
        Faction::AmarrEmpire => "Amarr Empire"@,
        Faction::CaldariState => "Caldari State"@,
        Faction::GallenteRFederation => "Gallente Federation"@,
        Faction::MinmatarRepublic => "Minmatar Republic"@,
        Faction::Serpentis => "Serpentis"@,
        Faction::Guristas => "Guristas Pirates"@,
        Faction::BloodRaiders => "Blood Raiders"@,
        Faction::SanshasNation => "Sansha's Nation"@,
        Faction::AngelCartel => "Angel Cartel"@,
        Faction::RogueDrones => "Rogue Drones"@,
    }
}

/// The variant name of a faction, as `Debug` writes it.
pub open spec fn spec_variant_name(f: Faction) -> Seq<char> {
    match f {
        Faction::AmarrEmpire => "AmarrEmpire"@,
        Faction::CaldariState => "CaldariState"@,
        Faction::GallenteRFederation => "GallenteRFederation"@,
        Faction::MinmatarRepublic => "MinmatarRepublic"@,
        Faction::Serpentis => "Serpentis"@,
        Faction::Guristas => "Guristas"@,
        Faction::BloodRaiders => "BloodRaiders"@,
        Faction::SanshasNation => "SanshasNation"@,
        Faction::AngelCartel => "AngelCartel"@,
        Faction::RogueDrones => "RogueDrones"@,
    }
}

/// The factions that are NPC pirate groups.
pub open spec fn spec_is_pirate(f: Faction) -> bool {
    !(f is AmarrEmpire || f is CaldariState || f is GallenteRFederation || f is MinmatarRepublic)
}

impl Faction {
    /// Human-readable display name.
    pub fn display_name(self) -> (name: &'static str)
        ensures
            name@ == spec_display_name(self),
    {
        match self {
            Faction::AmarrEmpire => "Amarr Empire",
            Faction::CaldariState => "Caldari State",
            Faction::GallenteRFederation => "Gallente Federation",
            Faction::MinmatarRepublic => "Minmatar Republic",
            Faction::Serpentis => "Serpentis",
            Faction::Guristas => "Guristas Pirates",
            Faction::BloodRaiders => "Blood Raiders",
            Faction::SanshasNation => "Sansha's Nation",
            Faction::AngelCartel => "Angel Cartel",
            Faction::RogueDrones => "Rogue Drones",
        }
    }

    /// Returns true if this faction is an NPC pirate group.
    pub fn is_pirate(self) -> (b: bool)
        ensures
            b == spec_is_pirate(self),
    {
        match self {
            Faction::Serpentis
            | Faction::Guristas
            | Faction::BloodRaiders
            | Faction::SanshasNation
            | Faction::AngelCartel
            | Faction::RogueDrones => true,
            _ => false,
        }
    }
}

/// The key under which a standing with `faction` is stored: the faction's
/// variant name.
pub fn standing_key(faction: Faction) -> (key: String)
    ensures
        key@ == spec_variant_name(faction),
{
    let name: &str = match faction {
        Faction::AmarrEmpire => "AmarrEmpire",
        Faction::CaldariState => "CaldariState",
        Faction::GallenteRFederation => "GallenteRFederation",
        Faction::MinmatarRepublic => "MinmatarRepublic",
        Faction::Serpentis => "Serpentis",
        Faction::Guristas => "Guristas",
        Faction::BloodRaiders => "BloodRaiders",
        Faction::SanshasNation => "SanshasNation",
        Faction::AngelCartel => "AngelCartel",
        Faction::RogueDrones => "RogueDrones",
    };
    name.to_owned()
}

/// Every faction has its own display name: no two factions are shown alike.
pub proof fn law_display_names_distinct(a: Faction, b: Faction)
    ensures
        a != b ==> spec_display_name(a) != spec_display_name(b),
{
    reveal_strlit("Amarr Empire");
    reveal_strlit("Caldari State");
    reveal_strlit("Gallente Federation");
    reveal_strlit("Minmatar Republic");
    reveal_strlit("Serpentis");
    reveal_strlit("Guristas Pirates");
    reveal_strlit("Blood Raiders");
    reveal_strlit("Sansha's Nation");
    reveal_strlit("Angel Cartel");
    reveal_strlit("Rogue Drones");
    if a != b {
        let x = spec_display_name(a);
        let y = spec_display_name(b);
        if x.len() == y.len() {
            assert(x[0] != y[0] || x[1] != y[1] || x[2] != y[2] || x[3] != y[3] || x[4] != y[4] || x[5] != y[5] || x[6] != y[6] || x[7] != y[7]);
        }
    }
}

/// Every faction has its own standing key, so no two factions share a
/// standing.
pub proof fn law_standing_keys_distinct(a: Faction, b: Faction)
    ensures
        a != b ==> spec_variant_name(a) != spec_variant_name(b),
{
    reveal_strlit("AmarrEmpire");
    reveal_strlit("CaldariState");
    reveal_strlit("GallenteRFederation");
    reveal_strlit("MinmatarRepublic");
    reveal_strlit("Serpentis");
    reveal_strlit("Guristas");
    reveal_strlit("BloodRaiders");
    reveal_strlit("SanshasNation");
    reveal_strlit("AngelCartel");
    reveal_strlit("RogueDrones");
    if a != b {
        let x = spec_variant_name(a);
        let y = spec_variant_name(b);
        if x.len() == y.len() {
            assert(x[0] != y[0] || x[1] != y[1] || x[2] != y[2] || x[3] != y[3] || x[4] != y[4] || x[5] != y[5] || x[6] != y[6] || x[7] != y[7]);
        }
    }
}

/// The names the factions are shown under, character by character.
pub proof fn law_display_names()
    ensures
        spec_display_name(Faction::AmarrEmpire) == seq!['A', 'm', 'a', 'r', 'r', ' ', 'E', 'm', 'p', 'i', 'r', 'e'],
        spec_display_name(Faction::CaldariState) == seq!['C', 'a', 'l', 'd', 'a', 'r', 'i', ' ', 'S', 't', 'a', 't', 'e'],
        spec_display_name(Faction::GallenteRFederation) == seq!['G', 'a', 'l', 'l', 'e', 'n', 't', 'e', ' ', 'F', 'e', 'd', 'e', 'r', 'a', 't', 'i', 'o', 'n'],
        spec_display_name(Faction::MinmatarRepublic) == seq!['M', 'i', 'n', 'm', 'a', 't', 'a', 'r', ' ', 'R', 'e', 'p', 'u', 'b', 'l', 'i', 'c'],
        spec_display_name(Faction::Serpentis) == seq!['S', 'e', 'r', 'p', 'e', 'n', 't', 'i', 's'],
        spec_display_name(Faction::Guristas) == seq!['G', 'u', 'r', 'i', 's', 't', 'a', 's', ' ', 'P', 'i', 'r', 'a', 't', 'e', 's'],
        spec_display_name(Faction::BloodRaiders) == seq!['B', 'l', 'o', 'o', 'd', ' ', 'R', 'a', 'i', 'd', 'e', 'r', 's'],
        spec_display_name(Faction::SanshasNation) == seq!['S', 'a', 'n', 's', 'h', 'a', '\'', 's', ' ', 'N', 'a', 't', 'i', 'o', 'n'],
        spec_display_name(Faction::AngelCartel) == seq!['A', 'n', 'g', 'e', 'l', ' ', 'C', 'a', 'r', 't', 'e', 'l'],
        spec_display_name(Faction::RogueDrones) == seq!['R', 'o', 'g', 'u', 'e', ' ', 'D', 'r', 'o', 'n', 'e', 's'],
{
    reveal_strlit("Amarr Empire");
    reveal_strlit("Caldari State");
    reveal_strlit("Gallente Federation");
    reveal_strlit("Minmatar Republic");
    reveal_strlit("Serpentis");
    reveal_strlit("Guristas Pirates");
    reveal_strlit("Blood Raiders");
    reveal_strlit("Sansha's Nation");
    reveal_strlit("Angel Cartel");
    reveal_strlit("Rogue Drones");
}

/// The four empires are not pirates; the six NPC groups are.
pub proof fn law_pirate_groups()
    ensures
        !spec_is_pirate(Faction::AmarrEmpire),
        !spec_is_pirate(Faction::CaldariState),
        !spec_is_pirate(Faction::GallenteRFederation),
        !spec_is_pirate(Faction::MinmatarRepublic),
        spec_is_pirate(Faction::Serpentis),
        spec_is_pirate(Faction::Guristas),
        spec_is_pirate(Faction::BloodRaiders),
        spec_is_pirate(Faction::SanshasNation),
        spec_is_pirate(Faction::AngelCartel),
        spec_is_pirate(Faction::RogueDrones),
{
}

/// Standings are stored under each faction's variant name.
pub proof fn law_standing_keys()
    ensures
        spec_variant_name(Faction::AmarrEmpire) == "AmarrEmpire"@,
        spec_variant_name(Faction::CaldariState) == "CaldariState"@,
        spec_variant_name(Faction::GallenteRFederation) == "GallenteRFederation"@,
        spec_variant_name(Faction::MinmatarRepublic) == "MinmatarRepublic"@,
        spec_variant_name(Faction::Serpentis) == "Serpentis"@,
        spec_variant_name(Faction::Guristas) == "Guristas"@,
        spec_variant_name(Faction::BloodRaiders) == "BloodRaiders"@,
        spec_variant_name(Faction::SanshasNation) == "SanshasNation"@,
        spec_variant_name(Faction::AngelCartel) == "AngelCartel"@,
        spec_variant_name(Faction::RogueDrones) == "RogueDrones"@,
{
}

} // verus!
