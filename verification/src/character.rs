//! Player character: bloodlines and the skills every character starts with.

use vstd::prelude::*;
use crate::skills::{SkillBook, fresh_points, progress_map};

verus! {

/// The character's chosen race and bloodline.
#[derive(Debug, Clone, Copy, PartialEq, Eq, Structural)]
pub enum Bloodline {
    // Amarr
    Amarr,
    NiKunni,
    Khanid,
    // Caldari
    Achura,
    Civire,
    Deteis,
    // Gallente
    Gallente,
    Intaki,
    JinMei,
    // Minmatar
    Brutor,
    Sebiestor,
    Vherokior,
}

impl Default for Bloodline {
    fn default() -> (b: Self)
        ensures
            b == Bloodline::Achura,
    {
        Bloodline::Achura
    }
}

/// The skills every character starts with.
pub open spec fn starter_skills() -> Set<Seq<char>> {
    set![
        "Spaceship Command"@,
        "Navigation"@,
        "Gunnery"@,
        "Engineering"@,
        "Electronics"@,
        "Shield Operation"@,
        "Target Management"@,
    ]
}

/// The skill book of a new character: the starter skills at level 0, with
/// Spaceship Command in training.
pub fn starting_skills<S: Default>() -> (book: SkillBook<S>)
    ensures
        book.wf(),
        progress_map(&book).dom() == starter_skills(),
        forall|k: Seq<char>| #[trigger] progress_map(&book).contains_key(k) ==> progress_map(&book)[k].level == 0
            && fresh_points(progress_map(&book)[k].sp_toward_next),
        book.training_skill matches Some(t) && t@ == "Spaceship Command"@,
{
    let mut skills: SkillBook<S> = SkillBook::new();
    proof {
        reveal_strlit("Spaceship Command");
        reveal_strlit("Navigation");
        reveal_strlit("Gunnery");
        reveal_strlit("Engineering");
        reveal_strlit("Electronics");
        reveal_strlit("Shield Operation");
        reveal_strlit("Target Management");
    }
    skills.inject("Spaceship Command");
    skills.inject("Navigation");
    skills.inject("Gunnery");
    skills.inject("Engineering");
    skills.inject("Electronics");
    skills.inject("Shield Operation");
    skills.inject("Target Management");
    skills.start_training("Spaceship Command");
    assert(progress_map(&skills).dom() =~= starter_skills());
    skills
}

} // verus!
