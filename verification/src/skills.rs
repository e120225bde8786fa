//! Skills: the skill catalogue, training progress, and the skill book of a
//! character.
//!
//! Skill points accumulate in a type `S` chosen by the caller; this module
//! keeps the levels, the catalogue and the training queue.

use vstd::prelude::*;
use vstd::arithmetic::power::pow;
use crate::assoc::{entry_map, lemma_entry, lemma_push, names_unique, position};
use crate::text::same_name;

verus! {

/// Character attribute types.
#[derive(Debug, Clone, Copy, PartialEq, Eq, Structural)]
pub enum Attribute {
    Perception,
    Memory,
    Willpower,
    Intelligence,
    Charisma,
}

/// A skill definition: what it does and how fast it trains.
#[derive(Debug, Clone, Copy)]
pub struct SkillDef {
    pub name: &'static str,
    pub description: &'static str,
    /// Training time multiplier (rank). Each SP per level = 250 * rank * 32^(level-1).
    pub rank: u32,
    pub primary: Attribute,
    pub secondary: Attribute,
}

/// Every skill available in NovaForge, in catalogue order.
pub open spec fn spec_skill_table() -> Seq<SkillDef> {
    seq![
        SkillDef {
            name: "Gunnery",
            description: "Basic turret operation. Improves rate of fire.",
            rank: 1,
            primary: Attribute::Perception,
            secondary: Attribute::Willpower,
        },
        SkillDef {
            name: "Small Hybrid Turret",
            description: "Operation of small hybrid turrets.",
            rank: 1,
            primary: Attribute::Perception,
            secondary: Attribute::Willpower,
        },
        SkillDef {
            name: "Small Projectile Turret",
            description: "Operation of small projectile turrets.",
            rank: 1,
            primary: Attribute::Perception,
            secondary: Attribute::Willpower,
        },
        SkillDef {
            name: "Small Energy Turret",
            description: "Operation of small energy turrets.",
            rank: 2,
            primary: Attribute::Perception,
            secondary: Attribute::Willpower,
        },
        SkillDef {
            name: "Missile Launcher Operation",
            description: "Basic missile launcher operation.",
            rank: 1,
            primary: Attribute::Perception,
            secondary: Attribute::Willpower,
        },
        SkillDef {
            name: "Light Missiles",
            description: "Allows use of light missiles.",
            rank: 1,
            primary: Attribute::Perception,
            secondary: Attribute::Willpower,
        },
        SkillDef {
            name: "Spaceship Command",
            description: "General spaceship operation. Improves agility.",
            rank: 1,
            primary: Attribute::Perception,
            secondary: Attribute::Willpower,
        },
        SkillDef {
            name: "Caldari Frigate",
            description: "Proficiency with Caldari frigates.",
            rank: 2,
            primary: Attribute::Perception,
            secondary: Attribute::Willpower,
        },
        SkillDef {
            name: "Caldari Destroyer",
            description: "Proficiency with Caldari destroyers.",
            rank: 3,
            primary: Attribute::Perception,
            secondary: Attribute::Willpower,
        },
        SkillDef {
            name: "Caldari Cruiser",
            description: "Proficiency with Caldari cruisers.",
            rank: 5,
            primary: Attribute::Perception,
            secondary: Attribute::Willpower,
        },
        SkillDef {
            name: "Engineering",
            description: "Increases available power grid.",
            rank: 1,
            primary: Attribute::Intelligence,
            secondary: Attribute::Memory,
        },
        SkillDef {
            name: "Electronics",
            description: "Increases available CPU.",
            rank: 1,
            primary: Attribute::Intelligence,
            secondary: Attribute::Memory,
        },
        SkillDef {
            name: "Shield Operation",
            description: "Improves shield recharge rate.",
            rank: 1,
            primary: Attribute::Intelligence,
            secondary: Attribute::Memory,
        },
        SkillDef {
            name: "Armor Layering",
            description: "Improves armor hit points.",
            rank: 2,
            primary: Attribute::Intelligence,
            secondary: Attribute::Memory,
        },
        SkillDef {
            name: "Navigation",
            description: "Improves sub-warp speed.",
            rank: 1,
            primary: Attribute::Intelligence,
            secondary: Attribute::Perception,
        },
        SkillDef {
            name: "Afterburner",
            description: "Improves afterburner thrust.",
            rank: 1,
            primary: Attribute::Intelligence,
            secondary: Attribute::Perception,
        },
        SkillDef {
            name: "Warp Drive Operation",
            description: "Improves warp speed.",
            rank: 1,
            primary: Attribute::Intelligence,
            secondary: Attribute::Perception,
        },
        SkillDef {
            name: "Target Management",
            description: "Increases number of locked targets.",
            rank: 1,
            primary: Attribute::Intelligence,
            secondary: Attribute::Memory,
        },
        SkillDef {
            name: "Long Range Targeting",
            description: "Improves targeting range.",
            rank: 2,
            primary: Attribute::Intelligence,
            secondary: Attribute::Memory,
        },
        SkillDef {
            name: "Trade",
            description: "Increases number of active market orders.",
            rank: 1,
            primary: Attribute::Willpower,
            secondary: Attribute::Charisma,
        },
        SkillDef {
            name: "Broker Relations",
            description: "Reduces market broker fee.",
            rank: 2,
            primary: Attribute::Willpower,
            secondary: Attribute::Charisma,
        },
        SkillDef {
            name: "Drones",
            description: "Allows control of combat drones.",
            rank: 1,
            primary: Attribute::Memory,
            secondary: Attribute::Perception,
        },
    ]
}

/// The first skill of `table` named `name`, if any.
pub open spec fn is_first_named(table: Seq<SkillDef>, name: Seq<char>, found: Option<SkillDef>) -> bool {
    match found {
        Some(d) => exists|i: int|
            0 <= i < table.len() && #[trigger] table[i] == d && d.name@ == name && forall|j: int|
                0 <= j < i ==> #[trigger] table[j].name@ != name,
        None => forall|i: int| 0 <= i < table.len() ==> #[trigger] table[i].name@ != name,
    }
}

/// All skill definitions available in NovaForge.
pub struct SkillDatabase;

impl SkillDatabase {
    /// Returns the definition for a named skill, or `None` if unknown.
    pub fn get(name: &str) -> (def: Option<SkillDef>)
        ensures
            is_first_named(spec_skill_table(), name@, def),
    {
        let table = Self::all();
        let n = table.len();
        for i in 0..n
            invariant
                n == table@.len(),
                table@ == spec_skill_table(),
                forall|j: int| 0 <= j < i ==> #[trigger] table@[j].name@ != name@,
        {
            if same_name(table[i].name, name) {
                return Some(table[i]);
            }
        }
        None
    }

    /// Returns all skill definitions, in catalogue order.
    pub fn all() -> (defs: Vec<SkillDef>)
        ensures
            defs@ == spec_skill_table(),
    {
        let defs = vec![
            SkillDef {
                name: "Gunnery",
                description: "Basic turret operation. Improves rate of fire.",
                rank: 1,
                primary: Attribute::Perception,
                secondary: Attribute::Willpower,
            },
            SkillDef {
                name: "Small Hybrid Turret",
                description: "Operation of small hybrid turrets.",
                rank: 1,
                primary: Attribute::Perception,
                secondary: Attribute::Willpower,
            },
            SkillDef {
                name: "Small Projectile Turret",
                description: "Operation of small projectile turrets.",
                rank: 1,
                primary: Attribute::Perception,
                secondary: Attribute::Willpower,
            },
            SkillDef {
                name: "Small Energy Turret",
                description: "Operation of small energy turrets.",
                rank: 2,
                primary: Attribute::Perception,
                secondary: Attribute::Willpower,
            },
            SkillDef {
                name: "Missile Launcher Operation",
                description: "Basic missile launcher operation.",
                rank: 1,
                primary: Attribute::Perception,
                secondary: Attribute::Willpower,
            },
            SkillDef {
                name: "Light Missiles",
                description: "Allows use of light missiles.",
                rank: 1,
                primary: Attribute::Perception,
                secondary: Attribute::Willpower,
            },
            SkillDef {
                name: "Spaceship Command",
                description: "General spaceship operation. Improves agility.",
                rank: 1,
                primary: Attribute::Perception,
                secondary: Attribute::Willpower,
            },
            SkillDef {
                name: "Caldari Frigate",
                description: "Proficiency with Caldari frigates.",
                rank: 2,
                primary: Attribute::Perception,
                secondary: Attribute::Willpower,
            },
            SkillDef {
                name: "Caldari Destroyer",
                description: "Proficiency with Caldari destroyers.",
                rank: 3,
                primary: Attribute::Perception,
                secondary: Attribute::Willpower,
            },
            SkillDef {
                name: "Caldari Cruiser",
                description: "Proficiency with Caldari cruisers.",
                rank: 5,
                primary: Attribute::Perception,
                secondary: Attribute::Willpower,
            },
            SkillDef {
                name: "Engineering",
                description: "Increases available power grid.",
                rank: 1,
                primary: Attribute::Intelligence,
                secondary: Attribute::Memory,
            },
            SkillDef {
                name: "Electronics",
                description: "Increases available CPU.",
                rank: 1,
                primary: Attribute::Intelligence,
                secondary: Attribute::Memory,
            },
            SkillDef {
                name: "Shield Operation",
                description: "Improves shield recharge rate.",
                rank: 1,
                primary: Attribute::Intelligence,
                secondary: Attribute::Memory,
            },
            SkillDef {
                name: "Armor Layering",
                description: "Improves armor hit points.",
                rank: 2,
                primary: Attribute::Intelligence,
                secondary: Attribute::Memory,
            },
            SkillDef {
                name: "Navigation",
                description: "Improves sub-warp speed.",
                rank: 1,
                primary: Attribute::Intelligence,
                secondary: Attribute::Perception,
            },
            SkillDef {
                name: "Afterburner",
                description: "Improves afterburner thrust.",
                rank: 1,
                primary: Attribute::Intelligence,
                secondary: Attribute::Perception,
            },
            SkillDef {
                name: "Warp Drive Operation",
                description: "Improves warp speed.",
                rank: 1,
                primary: Attribute::Intelligence,
                secondary: Attribute::Perception,
            },
            SkillDef {
                name: "Target Management",
                description: "Increases number of locked targets.",
                rank: 1,
                primary: Attribute::Intelligence,
                secondary: Attribute::Memory,
            },
            SkillDef {
                name: "Long Range Targeting",
                description: "Improves targeting range.",
                rank: 2,
                primary: Attribute::Intelligence,
                secondary: Attribute::Memory,
            },
            SkillDef {
                name: "Trade",
                description: "Increases number of active market orders.",
                rank: 1,
                primary: Attribute::Willpower,
                secondary: Attribute::Charisma,
            },
            SkillDef {
                name: "Broker Relations",
                description: "Reduces market broker fee.",
                rank: 2,
                primary: Attribute::Willpower,
                secondary: Attribute::Charisma,
            },
            SkillDef {
                name: "Drones",
                description: "Allows control of combat drones.",
                rank: 1,
                primary: Attribute::Memory,
                secondary: Attribute::Perception,
            },
        ];
        assert(defs@ =~= spec_skill_table());
        defs
    }
}

/// The skill catalogue: every skill's name, description, rank and training
/// attributes, in catalogue order; and `get` finds each skill by its name.
pub proof fn law_skill_catalogue()
    ensures
        spec_skill_table().len() == 22,
        spec_skill_table()[0].name@ == "Gunnery"@,
        spec_skill_table()[0].description@ == "Basic turret operation. Improves rate of fire."@,
        spec_skill_table()[0].rank == 1,
        spec_skill_table()[0].primary == Attribute::Perception,
        spec_skill_table()[0].secondary == Attribute::Willpower,
        spec_skill_table()[1].name@ == "Small Hybrid Turret"@,
        spec_skill_table()[1].description@ == "Operation of small hybrid turrets."@,
        spec_skill_table()[1].rank == 1,
        spec_skill_table()[1].primary == Attribute::Perception,
        spec_skill_table()[1].secondary == Attribute::Willpower,
        spec_skill_table()[2].name@ == "Small Projectile Turret"@,
        spec_skill_table()[2].description@ == "Operation of small projectile turrets."@,
        spec_skill_table()[2].rank == 1,
        spec_skill_table()[2].primary == Attribute::Perception,
        spec_skill_table()[2].secondary == Attribute::Willpower,
        spec_skill_table()[3].name@ == "Small Energy Turret"@,
        spec_skill_table()[3].description@ == "Operation of small energy turrets."@,
        spec_skill_table()[3].rank == 2,
        spec_skill_table()[3].primary == Attribute::Perception,
        spec_skill_table()[3].secondary == Attribute::Willpower,
        spec_skill_table()[4].name@ == "Missile Launcher Operation"@,
        spec_skill_table()[4].description@ == "Basic missile launcher operation."@,
        spec_skill_table()[4].rank == 1,
        spec_skill_table()[4].primary == Attribute::Perception,
        spec_skill_table()[4].secondary == Attribute::Willpower,
        spec_skill_table()[5].name@ == "Light Missiles"@,
        spec_skill_table()[5].description@ == "Allows use of light missiles."@,
        spec_skill_table()[5].rank == 1,
        spec_skill_table()[5].primary == Attribute::Perception,
        spec_skill_table()[5].secondary == Attribute::Willpower,
        spec_skill_table()[6].name@ == "Spaceship Command"@,
        spec_skill_table()[6].description@ == "General spaceship operation. Improves agility."@,
        spec_skill_table()[6].rank == 1,
        spec_skill_table()[6].primary == Attribute::Perception,
        spec_skill_table()[6].secondary == Attribute::Willpower,
        spec_skill_table()[7].name@ == "Caldari Frigate"@,
        spec_skill_table()[7].description@ == "Proficiency with Caldari frigates."@,
        spec_skill_table()[7].rank == 2,
        spec_skill_table()[7].primary == Attribute::Perception,
        spec_skill_table()[7].secondary == Attribute::Willpower,
        spec_skill_table()[8].name@ == "Caldari Destroyer"@,
        spec_skill_table()[8].description@ == "Proficiency with Caldari destroyers."@,
        spec_skill_table()[8].rank == 3,
        spec_skill_table()[8].primary == Attribute::Perception,
        spec_skill_table()[8].secondary == Attribute::Willpower,
        spec_skill_table()[9].name@ == "Caldari Cruiser"@,
        spec_skill_table()[9].description@ == "Proficiency with Caldari cruisers."@,
        spec_skill_table()[9].rank == 5,
        spec_skill_table()[9].primary == Attribute::Perception,
        spec_skill_table()[9].secondary == Attribute::Willpower,
        spec_skill_table()[10].name@ == "Engineering"@,
        spec_skill_table()[10].description@ == "Increases available power grid."@,
        spec_skill_table()[10].rank == 1,
        spec_skill_table()[10].primary == Attribute::Intelligence,
        spec_skill_table()[10].secondary == Attribute::Memory,
        spec_skill_table()[11].name@ == "Electronics"@,
        spec_skill_table()[11].description@ == "Increases available CPU."@,
        spec_skill_table()[11].rank == 1,
        spec_skill_table()[11].primary == Attribute::Intelligence,
        spec_skill_table()[11].secondary == Attribute::Memory,
        spec_skill_table()[12].name@ == "Shield Operation"@,
        spec_skill_table()[12].description@ == "Improves shield recharge rate."@,
        spec_skill_table()[12].rank == 1,
        spec_skill_table()[12].primary == Attribute::Intelligence,
        spec_skill_table()[12].secondary == Attribute::Memory,
        spec_skill_table()[13].name@ == "Armor Layering"@,
        spec_skill_table()[13].description@ == "Improves armor hit points."@,
        spec_skill_table()[13].rank == 2,
        spec_skill_table()[13].primary == Attribute::Intelligence,
        spec_skill_table()[13].secondary == Attribute::Memory,
        spec_skill_table()[14].name@ == "Navigation"@,
        spec_skill_table()[14].description@ == "Improves sub-warp speed."@,
        spec_skill_table()[14].rank == 1,
        spec_skill_table()[14].primary == Attribute::Intelligence,
        spec_skill_table()[14].secondary == Attribute::Perception,
        spec_skill_table()[15].name@ == "Afterburner"@,
        spec_skill_table()[15].description@ == "Improves afterburner thrust."@,
        spec_skill_table()[15].rank == 1,
        spec_skill_table()[15].primary == Attribute::Intelligence,
        spec_skill_table()[15].secondary == Attribute::Perception,
        spec_skill_table()[16].name@ == "Warp Drive Operation"@,
        spec_skill_table()[16].description@ == "Improves warp speed."@,
        spec_skill_table()[16].rank == 1,
        spec_skill_table()[16].primary == Attribute::Intelligence,
        spec_skill_table()[16].secondary == Attribute::Perception,
        spec_skill_table()[17].name@ == "Target Management"@,
        spec_skill_table()[17].description@ == "Increases number of locked targets."@,
        spec_skill_table()[17].rank == 1,
        spec_skill_table()[17].primary == Attribute::Intelligence,
        spec_skill_table()[17].secondary == Attribute::Memory,
        spec_skill_table()[18].name@ == "Long Range Targeting"@,
        spec_skill_table()[18].description@ == "Improves targeting range."@,
        spec_skill_table()[18].rank == 2,
        spec_skill_table()[18].primary == Attribute::Intelligence,
        spec_skill_table()[18].secondary == Attribute::Memory,
        spec_skill_table()[19].name@ == "Trade"@,
        spec_skill_table()[19].description@ == "Increases number of active market orders."@,
        spec_skill_table()[19].rank == 1,
        spec_skill_table()[19].primary == Attribute::Willpower,
        spec_skill_table()[19].secondary == Attribute::Charisma,
        spec_skill_table()[20].name@ == "Broker Relations"@,
        spec_skill_table()[20].description@ == "Reduces market broker fee."@,
        spec_skill_table()[20].rank == 2,
        spec_skill_table()[20].primary == Attribute::Willpower,
        spec_skill_table()[20].secondary == Attribute::Charisma,
        spec_skill_table()[21].name@ == "Drones"@,
        spec_skill_table()[21].description@ == "Allows control of combat drones."@,
        spec_skill_table()[21].rank == 1,
        spec_skill_table()[21].primary == Attribute::Memory,
        spec_skill_table()[21].secondary == Attribute::Perception,
        is_first_named(spec_skill_table(), "Gunnery"@, Some(spec_skill_table()[0])),
        is_first_named(spec_skill_table(), "Small Hybrid Turret"@, Some(spec_skill_table()[1])),
        is_first_named(spec_skill_table(), "Small Projectile Turret"@, Some(spec_skill_table()[2])),
        is_first_named(spec_skill_table(), "Small Energy Turret"@, Some(spec_skill_table()[3])),
        is_first_named(spec_skill_table(), "Missile Launcher Operation"@, Some(spec_skill_table()[4])),
        is_first_named(spec_skill_table(), "Light Missiles"@, Some(spec_skill_table()[5])),
        is_first_named(spec_skill_table(), "Spaceship Command"@, Some(spec_skill_table()[6])),
        is_first_named(spec_skill_table(), "Caldari Frigate"@, Some(spec_skill_table()[7])),
        is_first_named(spec_skill_table(), "Caldari Destroyer"@, Some(spec_skill_table()[8])),
        is_first_named(spec_skill_table(), "Caldari Cruiser"@, Some(spec_skill_table()[9])),
        is_first_named(spec_skill_table(), "Engineering"@, Some(spec_skill_table()[10])),
        is_first_named(spec_skill_table(), "Electronics"@, Some(spec_skill_table()[11])),
        is_first_named(spec_skill_table(), "Shield Operation"@, Some(spec_skill_table()[12])),
        is_first_named(spec_skill_table(), "Armor Layering"@, Some(spec_skill_table()[13])),
        is_first_named(spec_skill_table(), "Navigation"@, Some(spec_skill_table()[14])),
        is_first_named(spec_skill_table(), "Afterburner"@, Some(spec_skill_table()[15])),
        is_first_named(spec_skill_table(), "Warp Drive Operation"@, Some(spec_skill_table()[16])),
        is_first_named(spec_skill_table(), "Target Management"@, Some(spec_skill_table()[17])),
        is_first_named(spec_skill_table(), "Long Range Targeting"@, Some(spec_skill_table()[18])),
        is_first_named(spec_skill_table(), "Trade"@, Some(spec_skill_table()[19])),
        is_first_named(spec_skill_table(), "Broker Relations"@, Some(spec_skill_table()[20])),
        is_first_named(spec_skill_table(), "Drones"@, Some(spec_skill_table()[21])),
{
    reveal_strlit("Gunnery");
    reveal_strlit("Small Hybrid Turret");
    reveal_strlit("Small Projectile Turret");
    reveal_strlit("Small Energy Turret");
    reveal_strlit("Missile Launcher Operation");
    reveal_strlit("Light Missiles");
    reveal_strlit("Spaceship Command");
    reveal_strlit("Caldari Frigate");
    reveal_strlit("Caldari Destroyer");
    reveal_strlit("Caldari Cruiser");
    reveal_strlit("Engineering");
    reveal_strlit("Electronics");
    reveal_strlit("Shield Operation");
    reveal_strlit("Armor Layering");
    reveal_strlit("Navigation");
    reveal_strlit("Afterburner");
    reveal_strlit("Warp Drive Operation");
    reveal_strlit("Target Management");
    reveal_strlit("Long Range Targeting");
    reveal_strlit("Trade");
    reveal_strlit("Broker Relations");
    reveal_strlit("Drones");
    let t = spec_skill_table();
    assert("Small Hybrid Turret"@.len() != "Gunnery"@.len());
    assert("Small Projectile Turret"@.len() != "Gunnery"@.len());
    assert("Small Projectile Turret"@.len() != "Small Hybrid Turret"@.len());
    assert("Small Energy Turret"@.len() != "Gunnery"@.len());
    assert("Small Energy Turret"@[6] != "Small Hybrid Turret"@[6]);
    assert("Small Energy Turret"@.len() != "Small Projectile Turret"@.len());
    assert("Missile Launcher Operation"@.len() != "Gunnery"@.len());
    assert("Missile Launcher Operation"@.len() != "Small Hybrid Turret"@.len());
    assert("Missile Launcher Operation"@.len() != "Small Projectile Turret"@.len());
    assert("Missile Launcher Operation"@.len() != "Small Energy Turret"@.len());
    assert("Light Missiles"@.len() != "Gunnery"@.len());
    assert("Light Missiles"@.len() != "Small Hybrid Turret"@.len());
    assert("Light Missiles"@.len() != "Small Projectile Turret"@.len());
    assert("Light Missiles"@.len() != "Small Energy Turret"@.len());
    assert("Light Missiles"@.len() != "Missile Launcher Operation"@.len());
    assert("Spaceship Command"@.len() != "Gunnery"@.len());
    assert("Spaceship Command"@.len() != "Small Hybrid Turret"@.len());
    assert("Spaceship Command"@.len() != "Small Projectile Turret"@.len());
    assert("Spaceship Command"@.len() != "Small Energy Turret"@.len());
    assert("Spaceship Command"@.len() != "Missile Launcher Operation"@.len());
    assert("Spaceship Command"@.len() != "Light Missiles"@.len());
    assert("Caldari Frigate"@.len() != "Gunnery"@.len());
    assert("Caldari Frigate"@.len() != "Small Hybrid Turret"@.len());
    assert("Caldari Frigate"@.len() != "Small Projectile Turret"@.len());
    assert("Caldari Frigate"@.len() != "Small Energy Turret"@.len());
    assert("Caldari Frigate"@.len() != "Missile Launcher Operation"@.len());
    assert("Caldari Frigate"@.len() != "Light Missiles"@.len());
    assert("Caldari Frigate"@.len() != "Spaceship Command"@.len());
    assert("Caldari Destroyer"@.len() != "Gunnery"@.len());
    assert("Caldari Destroyer"@.len() != "Small Hybrid Turret"@.len());
    assert("Caldari Destroyer"@.len() != "Small Projectile Turret"@.len());
    assert("Caldari Destroyer"@.len() != "Small Energy Turret"@.len());
    assert("Caldari Destroyer"@.len() != "Missile Launcher Operation"@.len());
    assert("Caldari Destroyer"@.len() != "Light Missiles"@.len());
    assert("Caldari Destroyer"@[0] != "Spaceship Command"@[0]);
    assert("Caldari Destroyer"@.len() != "Caldari Frigate"@.len());
    assert("Caldari Cruiser"@.len() != "Gunnery"@.len());
    assert("Caldari Cruiser"@.len() != "Small Hybrid Turret"@.len());
    assert("Caldari Cruiser"@.len() != "Small Projectile Turret"@.len());
    assert("Caldari Cruiser"@.len() != "Small Energy Turret"@.len());
    assert("Caldari Cruiser"@.len() != "Missile Launcher Operation"@.len());
    assert("Caldari Cruiser"@.len() != "Light Missiles"@.len());
    assert("Caldari Cruiser"@.len() != "Spaceship Command"@.len());
    assert("Caldari Cruiser"@[8] != "Caldari Frigate"@[8]);
    assert("Caldari Cruiser"@.len() != "Caldari Destroyer"@.len());
    assert("Engineering"@.len() != "Gunnery"@.len());
    assert("Engineering"@.len() != "Small Hybrid Turret"@.len());
    assert("Engineering"@.len() != "Small Projectile Turret"@.len());
    assert("Engineering"@.len() != "Small Energy Turret"@.len());
    assert("Engineering"@.len() != "Missile Launcher Operation"@.len());
    assert("Engineering"@.len() != "Light Missiles"@.len());
    assert("Engineering"@.len() != "Spaceship Command"@.len());
    assert("Engineering"@.len() != "Caldari Frigate"@.len());
    assert("Engineering"@.len() != "Caldari Destroyer"@.len());
    assert("Engineering"@.len() != "Caldari Cruiser"@.len());
    assert("Electronics"@.len() != "Gunnery"@.len());
    assert("Electronics"@.len() != "Small Hybrid Turret"@.len());
    assert("Electronics"@.len() != "Small Projectile Turret"@.len());
    assert("Electronics"@.len() != "Small Energy Turret"@.len());
    assert("Electronics"@.len() != "Missile Launcher Operation"@.len());
    assert("Electronics"@.len() != "Light Missiles"@.len());
    assert("Electronics"@.len() != "Spaceship Command"@.len());
    assert("Electronics"@.len() != "Caldari Frigate"@.len());
    assert("Electronics"@.len() != "Caldari Destroyer"@.len());
    assert("Electronics"@.len() != "Caldari Cruiser"@.len());
    assert("Electronics"@[1] != "Engineering"@[1]);
    assert("Shield Operation"@.len() != "Gunnery"@.len());
    assert("Shield Operation"@.len() != "Small Hybrid Turret"@.len());
    assert("Shield Operation"@.len() != "Small Projectile Turret"@.len());
    assert("Shield Operation"@.len() != "Small Energy Turret"@.len());
    assert("Shield Operation"@.len() != "Missile Launcher Operation"@.len());
    assert("Shield Operation"@.len() != "Light Missiles"@.len());
    assert("Shield Operation"@.len() != "Spaceship Command"@.len());
    assert("Shield Operation"@.len() != "Caldari Frigate"@.len());
    assert("Shield Operation"@.len() != "Caldari Destroyer"@.len());
    assert("Shield Operation"@.len() != "Caldari Cruiser"@.len());
    assert("Shield Operation"@.len() != "Engineering"@.len());
    assert("Shield Operation"@.len() != "Electronics"@.len());
    assert("Armor Layering"@.len() != "Gunnery"@.len());
    assert("Armor Layering"@.len() != "Small Hybrid Turret"@.len());
    assert("Armor Layering"@.len() != "Small Projectile Turret"@.len());
    assert("Armor Layering"@.len() != "Small Energy Turret"@.len());
    assert("Armor Layering"@.len() != "Missile Launcher Operation"@.len());
    assert("Armor Layering"@[0] != "Light Missiles"@[0]);
    assert("Armor Layering"@.len() != "Spaceship Command"@.len());
    assert("Armor Layering"@.len() != "Caldari Frigate"@.len());
    assert("Armor Layering"@.len() != "Caldari Destroyer"@.len());
    assert("Armor Layering"@.len() != "Caldari Cruiser"@.len());
    assert("Armor Layering"@.len() != "Engineering"@.len());
    assert("Armor Layering"@.len() != "Electronics"@.len());
    assert("Armor Layering"@.len() != "Shield Operation"@.len());
    assert("Navigation"@.len() != "Gunnery"@.len());
    assert("Navigation"@.len() != "Small Hybrid Turret"@.len());
    assert("Navigation"@.len() != "Small Projectile Turret"@.len());
    assert("Navigation"@.len() != "Small Energy Turret"@.len());
    assert("Navigation"@.len() != "Missile Launcher Operation"@.len());
    assert("Navigation"@.len() != "Light Missiles"@.len());
    assert("Navigation"@.len() != "Spaceship Command"@.len());
    assert("Navigation"@.len() != "Caldari Frigate"@.len());
    assert("Navigation"@.len() != "Caldari Destroyer"@.len());
    assert("Navigation"@.len() != "Caldari Cruiser"@.len());
    assert("Navigation"@.len() != "Engineering"@.len());
    assert("Navigation"@.len() != "Electronics"@.len());
    assert("Navigation"@.len() != "Shield Operation"@.len());
    assert("Navigation"@.len() != "Armor Layering"@.len());
    assert("Afterburner"@.len() != "Gunnery"@.len());
    assert("Afterburner"@.len() != "Small Hybrid Turret"@.len());
    assert("Afterburner"@.len() != "Small Projectile Turret"@.len());
    assert("Afterburner"@.len() != "Small Energy Turret"@.len());
    assert("Afterburner"@.len() != "Missile Launcher Operation"@.len());
    assert("Afterburner"@.len() != "Light Missiles"@.len());
    assert("Afterburner"@.len() != "Spaceship Command"@.len());
    assert("Afterburner"@.len() != "Caldari Frigate"@.len());
    assert("Afterburner"@.len() != "Caldari Destroyer"@.len());
    assert("Afterburner"@.len() != "Caldari Cruiser"@.len());
    assert("Afterburner"@[0] != "Engineering"@[0]);
    assert("Afterburner"@[0] != "Electronics"@[0]);
    assert("Afterburner"@.len() != "Shield Operation"@.len());
    assert("Afterburner"@.len() != "Armor Layering"@.len());
    assert("Afterburner"@.len() != "Navigation"@.len());
    assert("Warp Drive Operation"@.len() != "Gunnery"@.len());
    assert("Warp Drive Operation"@.len() != "Small Hybrid Turret"@.len());
    assert("Warp Drive Operation"@.len() != "Small Projectile Turret"@.len());
    assert("Warp Drive Operation"@.len() != "Small Energy Turret"@.len());
    assert("Warp Drive Operation"@.len() != "Missile Launcher Operation"@.len());
    assert("Warp Drive Operation"@.len() != "Light Missiles"@.len());
    assert("Warp Drive Operation"@.len() != "Spaceship Command"@.len());
    assert("Warp Drive Operation"@.len() != "Caldari Frigate"@.len());
    assert("Warp Drive Operation"@.len() != "Caldari Destroyer"@.len());
    assert("Warp Drive Operation"@.len() != "Caldari Cruiser"@.len());
    assert("Warp Drive Operation"@.len() != "Engineering"@.len());
    assert("Warp Drive Operation"@.len() != "Electronics"@.len());
    assert("Warp Drive Operation"@.len() != "Shield Operation"@.len());
    assert("Warp Drive Operation"@.len() != "Armor Layering"@.len());
    assert("Warp Drive Operation"@.len() != "Navigation"@.len());
    assert("Warp Drive Operation"@.len() != "Afterburner"@.len());
    assert("Target Management"@.len() != "Gunnery"@.len());
    assert("Target Management"@.len() != "Small Hybrid Turret"@.len());
    assert("Target Management"@.len() != "Small Projectile Turret"@.len());
    assert("Target Management"@.len() != "Small Energy Turret"@.len());
    assert("Target Management"@.len() != "Missile Launcher Operation"@.len());
    assert("Target Management"@.len() != "Light Missiles"@.len());
    assert("Target Management"@[0] != "Spaceship Command"@[0]);
    assert("Target Management"@.len() != "Caldari Frigate"@.len());
    assert("Target Management"@[0] != "Caldari Destroyer"@[0]);
    assert("Target Management"@.len() != "Caldari Cruiser"@.len());
    assert("Target Management"@.len() != "Engineering"@.len());
    assert("Target Management"@.len() != "Electronics"@.len());
    assert("Target Management"@.len() != "Shield Operation"@.len());
    assert("Target Management"@.len() != "Armor Layering"@.len());
    assert("Target Management"@.len() != "Navigation"@.len());
    assert("Target Management"@.len() != "Afterburner"@.len());
    assert("Target Management"@.len() != "Warp Drive Operation"@.len());
    assert("Long Range Targeting"@.len() != "Gunnery"@.len());
    assert("Long Range Targeting"@.len() != "Small Hybrid Turret"@.len());
    assert("Long Range Targeting"@.len() != "Small Projectile Turret"@.len());
    assert("Long Range Targeting"@.len() != "Small Energy Turret"@.len());
    assert("Long Range Targeting"@.len() != "Missile Launcher Operation"@.len());
    assert("Long Range Targeting"@.len() != "Light Missiles"@.len());
    assert("Long Range Targeting"@.len() != "Spaceship Command"@.len());
    assert("Long Range Targeting"@.len() != "Caldari Frigate"@.len());
    assert("Long Range Targeting"@.len() != "Caldari Destroyer"@.len());
    assert("Long Range Targeting"@.len() != "Caldari Cruiser"@.len());
    assert("Long Range Targeting"@.len() != "Engineering"@.len());
    assert("Long Range Targeting"@.len() != "Electronics"@.len());
    assert("Long Range Targeting"@.len() != "Shield Operation"@.len());
    assert("Long Range Targeting"@.len() != "Armor Layering"@.len());
    assert("Long Range Targeting"@.len() != "Navigation"@.len());
    assert("Long Range Targeting"@.len() != "Afterburner"@.len());
    assert("Long Range Targeting"@[0] != "Warp Drive Operation"@[0]);
    assert("Long Range Targeting"@.len() != "Target Management"@.len());
    assert("Trade"@.len() != "Gunnery"@.len());
    assert("Trade"@.len() != "Small Hybrid Turret"@.len());
    assert("Trade"@.len() != "Small Projectile Turret"@.len());
    assert("Trade"@.len() != "Small Energy Turret"@.len());
    assert("Trade"@.len() != "Missile Launcher Operation"@.len());
    assert("Trade"@.len() != "Light Missiles"@.len());
    assert("Trade"@.len() != "Spaceship Command"@.len());
    assert("Trade"@.len() != "Caldari Frigate"@.len());
    assert("Trade"@.len() != "Caldari Destroyer"@.len());
    assert("Trade"@.len() != "Caldari Cruiser"@.len());
    assert("Trade"@.len() != "Engineering"@.len());
    assert("Trade"@.len() != "Electronics"@.len());
    assert("Trade"@.len() != "Shield Operation"@.len());
    assert("Trade"@.len() != "Armor Layering"@.len());
    assert("Trade"@.len() != "Navigation"@.len());
    assert("Trade"@.len() != "Afterburner"@.len());
    assert("Trade"@.len() != "Warp Drive Operation"@.len());
    assert("Trade"@.len() != "Target Management"@.len());
    assert("Trade"@.len() != "Long Range Targeting"@.len());
    assert("Broker Relations"@.len() != "Gunnery"@.len());
    assert("Broker Relations"@.len() != "Small Hybrid Turret"@.len());
    assert("Broker Relations"@.len() != "Small Projectile Turret"@.len());
    assert("Broker Relations"@.len() != "Small Energy Turret"@.len());
    assert("Broker Relations"@.len() != "Missile Launcher Operation"@.len());
    assert("Broker Relations"@.len() != "Light Missiles"@.len());
    assert("Broker Relations"@.len() != "Spaceship Command"@.len());
    assert("Broker Relations"@.len() != "Caldari Frigate"@.len());
    assert("Broker Relations"@.len() != "Caldari Destroyer"@.len());
    assert("Broker Relations"@.len() != "Caldari Cruiser"@.len());
    assert("Broker Relations"@.len() != "Engineering"@.len());
    assert("Broker Relations"@.len() != "Electronics"@.len());
    assert("Broker Relations"@[0] != "Shield Operation"@[0]);
    assert("Broker Relations"@.len() != "Armor Layering"@.len());
    assert("Broker Relations"@.len() != "Navigation"@.len());
    assert("Broker Relations"@.len() != "Afterburner"@.len());
    assert("Broker Relations"@.len() != "Warp Drive Operation"@.len());
    assert("Broker Relations"@.len() != "Target Management"@.len());
    assert("Broker Relations"@.len() != "Long Range Targeting"@.len());
    assert("Broker Relations"@.len() != "Trade"@.len());
    assert("Drones"@.len() != "Gunnery"@.len());
    assert("Drones"@.len() != "Small Hybrid Turret"@.len());
    assert("Drones"@.len() != "Small Projectile Turret"@.len());
    assert("Drones"@.len() != "Small Energy Turret"@.len());
    assert("Drones"@.len() != "Missile Launcher Operation"@.len());
    assert("Drones"@.len() != "Light Missiles"@.len());
    assert("Drones"@.len() != "Spaceship Command"@.len());
    assert("Drones"@.len() != "Caldari Frigate"@.len());
    assert("Drones"@.len() != "Caldari Destroyer"@.len());
    assert("Drones"@.len() != "Caldari Cruiser"@.len());
    assert("Drones"@.len() != "Engineering"@.len());
    assert("Drones"@.len() != "Electronics"@.len());
    assert("Drones"@.len() != "Shield Operation"@.len());
    assert("Drones"@.len() != "Armor Layering"@.len());
    assert("Drones"@.len() != "Navigation"@.len());
    assert("Drones"@.len() != "Afterburner"@.len());
    assert("Drones"@.len() != "Warp Drive Operation"@.len());
    assert("Drones"@.len() != "Target Management"@.len());
    assert("Drones"@.len() != "Long Range Targeting"@.len());
    assert("Drones"@.len() != "Trade"@.len());
    assert("Drones"@.len() != "Broker Relations"@.len());
    assert(t[0].name@ == "Gunnery"@);
    assert forall|j: int| 0 <= j < 1 implies #[trigger] t[j].name@ != "Small Hybrid Turret"@ by {}
    assert forall|j: int| 0 <= j < 2 implies #[trigger] t[j].name@ != "Small Projectile Turret"@ by {}
    assert forall|j: int| 0 <= j < 3 implies #[trigger] t[j].name@ != "Small Energy Turret"@ by {}
    assert forall|j: int| 0 <= j < 4 implies #[trigger] t[j].name@ != "Missile Launcher Operation"@ by {}
    assert forall|j: int| 0 <= j < 5 implies #[trigger] t[j].name@ != "Light Missiles"@ by {}
    assert forall|j: int| 0 <= j < 6 implies #[trigger] t[j].name@ != "Spaceship Command"@ by {}
    assert forall|j: int| 0 <= j < 7 implies #[trigger] t[j].name@ != "Caldari Frigate"@ by {}
    assert forall|j: int| 0 <= j < 8 implies #[trigger] t[j].name@ != "Caldari Destroyer"@ by {}
    assert forall|j: int| 0 <= j < 9 implies #[trigger] t[j].name@ != "Caldari Cruiser"@ by {}
    assert forall|j: int| 0 <= j < 10 implies #[trigger] t[j].name@ != "Engineering"@ by {}
    assert forall|j: int| 0 <= j < 11 implies #[trigger] t[j].name@ != "Electronics"@ by {}
    assert forall|j: int| 0 <= j < 12 implies #[trigger] t[j].name@ != "Shield Operation"@ by {}
    assert forall|j: int| 0 <= j < 13 implies #[trigger] t[j].name@ != "Armor Layering"@ by {}
    assert forall|j: int| 0 <= j < 14 implies #[trigger] t[j].name@ != "Navigation"@ by {}
    assert forall|j: int| 0 <= j < 15 implies #[trigger] t[j].name@ != "Afterburner"@ by {}
    assert forall|j: int| 0 <= j < 16 implies #[trigger] t[j].name@ != "Warp Drive Operation"@ by {}
    assert forall|j: int| 0 <= j < 17 implies #[trigger] t[j].name@ != "Target Management"@ by {}
    assert forall|j: int| 0 <= j < 18 implies #[trigger] t[j].name@ != "Long Range Targeting"@ by {}
    assert forall|j: int| 0 <= j < 19 implies #[trigger] t[j].name@ != "Trade"@ by {}
    assert forall|j: int| 0 <= j < 20 implies #[trigger] t[j].name@ != "Broker Relations"@ by {}
    assert forall|j: int| 0 <= j < 21 implies #[trigger] t[j].name@ != "Drones"@ by {}
}

/// Ranks run from 1 to 5, and the Caldari ship line grows harder to train
/// with the size of the hull.
pub proof fn law_skill_ranks()
    ensures
        forall|i: int| 0 <= i < spec_skill_table().len() ==> 1 <= #[trigger] spec_skill_table()[i].rank <= 5,
        spec_skill_table()[7].rank < spec_skill_table()[8].rank < spec_skill_table()[9].rank,
{
}

/// Skill points required to go from `level` to the next level.
pub open spec fn sp_required(level: nat, rank: nat) -> int {
    250 * rank * pow(32, level)
}

/// Each level costs 32 times the SP of the one before, starting from 250 SP
/// per rank for level 1.
pub proof fn law_sp_growth(level: nat, rank: nat)
    ensures
        sp_required(0, rank) == 250 * rank,
        sp_required(level + 1, rank) == 32 * sp_required(level, rank),
{
    reveal_with_fuel(pow, 2);
    assert(250 * rank * pow(32, level + 1) == 32 * (250 * rank * pow(32, level))) by (nonlinear_arith)
        requires
            pow(32, level + 1) == 32 * pow(32, level),
    ;
}

/// The highest level a skill can reach.
pub const MAX_SKILL_LEVEL: u8 = 5;

/// A player's current level and accumulated skill points for a specific skill.
#[derive(Debug, Clone, Copy)]
pub struct SkillProgress<S> {
    /// Current trained level (0 = untrained, 5 = max).
    pub level: u8,
    /// Accumulated skill points toward the *next* level.
    pub sp_toward_next: S,
}

/// `sp` is a value that `S::default()` can return: the points of a skill
/// not yet trained.
pub open spec fn fresh_points<S: Default>(sp: S) -> bool {
    call_ensures(S::default, (), sp)
}

impl<S: Default> Default for SkillProgress<S> {
    fn default() -> (p: Self)
        ensures
            p.level == 0,
            fresh_points(p.sp_toward_next),
    {
        let make_points = S::default;
        SkillProgress { level: 0, sp_toward_next: make_points() }
    }
}

impl<S> SkillProgress<S> {
    /// Returns the SP required to reach the next level, 250 * rank * 32^level,
    /// or `None` once the maximum level is reached.
    pub fn sp_required_for_next(&self, rank: u32) -> (sp: Option<u64>)
        ensures
            self.level >= MAX_SKILL_LEVEL ==> sp is None,
            self.level < MAX_SKILL_LEVEL ==> sp == Some(sp_required(self.level as nat, rank as nat) as u64)
                && sp_required(self.level as nat, rank as nat) <= u64::MAX,
    {
        if self.level >= MAX_SKILL_LEVEL {
            return None;
        }
        let factor: u64 = match self.level {
            0 => 1,
            1 => 32,
            2 => 1024,
            3 => 32768,
            _ => 1048576,
        };
        proof {
            reveal_with_fuel(pow, 5);
            assert(factor == pow(32, self.level as nat));
        }
        let base: u64 = 250 * (rank as u64);
        assert(base * factor <= 250 * 4294967295u64 * 1048576) by (nonlinear_arith)
            requires
                base <= 250 * 4294967295u64,
                factor <= 1048576,
        ;
        assert(base * factor == 250 * rank * pow(32, self.level as nat)) by (nonlinear_arith)
            requires
                base == 250 * rank,
                factor == pow(32, self.level as nat),
        ;
        Some(base * factor)
    }
}

/// The full set of skill progress for a character.
#[derive(Debug, Clone)]
pub struct SkillBook<S> {
    /// Skill name and progress, each name at most once.
    pub skills: Vec<(String, SkillProgress<S>)>,
    /// Name of the skill currently in the training queue (if any).
    pub training_skill: Option<String>,
}

/// The progress recorded for each skill, by name.
pub open spec fn progress_map<S>(book: &SkillBook<S>) -> Map<Seq<char>, SkillProgress<S>> {
    entry_map(book.skills@)
}

/// The level of `name` in `progress`: 0 when the skill is not in the book.
pub open spec fn level_of<S>(progress: Map<Seq<char>, SkillProgress<S>>, name: Seq<char>) -> u8 {
    if progress.contains_key(name) {
        progress[name].level
    } else {
        0
    }
}

impl<S> SkillBook<S> {
    /// No skill is listed twice.
    pub open spec fn wf(&self) -> bool {
        names_unique(self.skills@)
    }

    /// An empty book with nothing in training.
    pub fn new() -> (book: Self)
        ensures
            book.wf(),
            progress_map(&book) == Map::<Seq<char>, SkillProgress<S>>::empty(),
            book.training_skill is None,
    {
        let book = SkillBook { skills: Vec::new(), training_skill: None };
        assert(progress_map(&book) =~= Map::<Seq<char>, SkillProgress<S>>::empty());
        book
    }

    /// Returns the trained level for a skill (0 if never injected).
    pub fn level(&self, skill_name: &str) -> (level: u8)
        requires
            self.wf(),
        ensures
            level == level_of(progress_map(self), skill_name@),
    {
        match position(&self.skills, skill_name) {
            Some(i) => {
                proof {
                    lemma_entry(self.skills@, i as int);
                }
                self.skills[i].1.level
            },
            None => 0,
        }
    }

    /// Position of the skill's entry in `skills`, if it is in the book.
    pub fn progress_index(&self, skill_name: &str) -> (pos: Option<usize>)
        requires
            self.wf(),
        ensures
            pos is None == !progress_map(self).contains_key(skill_name@),
            pos matches Some(i) ==> i < self.skills@.len() && self.skills@[i as int].0@ == skill_name@,
    {
        let pos = position(&self.skills, skill_name);
        if let Some(i) = pos {
            proof {
                lemma_entry(self.skills@, i as int);
            }
        }
        pos
    }
    /// Ends a training tick in which the skill at `index` gained
    /// `levels_gained` levels: with no level gained, nothing changes and no
    /// skill is reported; otherwise the skill's name is reported, and training
    /// stops once the skill has reached the highest level.
    pub fn conclude_tick(&mut self, index: usize, levels_gained: u8) -> (levelled: Option<String>)
        requires
            index < old(self).skills@.len(),
        ensures
            final(self).skills@ == old(self).skills@,
            levels_gained == 0 ==> levelled is None && final(self).training_skill == old(
                self,
            ).training_skill,
            levels_gained > 0 ==> (levelled matches Some(name) && name@ == old(
                self,
            ).skills@[index as int].0@),
            levels_gained > 0 && old(self).skills@[index as int].1.level >= MAX_SKILL_LEVEL
                ==> final(self).training_skill is None,
            levels_gained > 0 && old(self).skills@[index as int].1.level < MAX_SKILL_LEVEL
                ==> final(self).training_skill == old(self).training_skill,
    {
        if levels_gained > 0 {
            if self.skills[index].1.level >= MAX_SKILL_LEVEL {
                self.training_skill = None;
            }
            Some(self.skills[index].0.clone())
        } else {
            None
        }
    }
}

impl<S> Default for SkillBook<S> {
    fn default() -> (book: Self)
        ensures
            book.wf(),
            progress_map(&book) == Map::<Seq<char>, SkillProgress<S>>::empty(),
            book.training_skill is None,
    {
        SkillBook::new()
    }
}

impl<S: Default> SkillBook<S> {
    /// Injects a skill (adds it to the book at level 0 if not present).
    pub fn inject(&mut self, skill_name: &str)
        requires
            old(self).wf(),
        ensures
            final(self).wf(),
            final(self).training_skill == old(self).training_skill,
            progress_map(old(self)).contains_key(skill_name@) ==> progress_map(final(self))
                == progress_map(old(self)),
            !progress_map(old(self)).contains_key(skill_name@) ==> {
                &&& progress_map(final(self)).contains_key(skill_name@)
                &&& progress_map(final(self))[skill_name@].level == 0
                &&& fresh_points(progress_map(final(self))[skill_name@].sp_toward_next)
                &&& progress_map(final(self)) == progress_map(old(self)).insert(
                    skill_name@,
                    progress_map(final(self))[skill_name@],
                )
            },
    {
        let ghost old_skills = self.skills@;
        match position(&self.skills, skill_name) {
            Some(i) => {
                proof {
                    lemma_entry(old_skills, i as int);
                }
            },
            None => {
                let entry = (skill_name.to_owned(), SkillProgress::default());
                proof {
                    lemma_push(old_skills, entry);
                }
                self.skills.push(entry);
            },
        }
    }

    /// Sets the active training skill, injecting it first.
    pub fn start_training(&mut self, skill_name: &str)
        requires
            old(self).wf(),
        ensures
            final(self).wf(),
            final(self).training_skill matches Some(t) && t@ == skill_name@,
            progress_map(old(self)).contains_key(skill_name@) ==> progress_map(final(self))
                == progress_map(old(self)),
            !progress_map(old(self)).contains_key(skill_name@) ==> {
                &&& progress_map(final(self)).contains_key(skill_name@)
                &&& progress_map(final(self))[skill_name@].level == 0
                &&& fresh_points(progress_map(final(self))[skill_name@].sp_toward_next)
                &&& progress_map(final(self)) == progress_map(old(self)).insert(
                    skill_name@,
                    progress_map(final(self))[skill_name@],
                )
            },
    {
        self.inject(skill_name);
        self.training_skill = Some(skill_name.to_owned());
    }
}

} // verus!
