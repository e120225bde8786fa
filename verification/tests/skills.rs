use novaforge::character::{starting_skills, Bloodline};
use novaforge::skills::{Attribute, SkillBook, SkillDatabase, SkillProgress, MAX_SKILL_LEVEL};

#[test]
fn database_lookup() {
    let d = SkillDatabase::get("Caldari Cruiser").unwrap();
    assert_eq!(d.name, "Caldari Cruiser");
    assert_eq!(d.rank, 5);
    assert_eq!(d.primary, Attribute::Perception);
    assert_eq!(d.secondary, Attribute::Willpower);
    let t = SkillDatabase::get("Trade").unwrap();
    assert_eq!((t.primary, t.secondary), (Attribute::Willpower, Attribute::Charisma));
    assert_eq!(t.description, "Increases number of active market orders.");
    assert!(SkillDatabase::get("Basket Weaving").is_none());
    assert!(SkillDatabase::get("gunnery").is_none());
}

#[test]
fn database_all() {
    let all = SkillDatabase::all();
    assert_eq!(all.len(), 22);
    assert_eq!(all[0].name, "Gunnery");
    assert_eq!(all[21].name, "Drones");
    for d in &all {
        assert_eq!(SkillDatabase::get(d.name).unwrap().name, d.name);
    }
}

#[test]
fn sp_required_for_next_formula() {
    let mut p: SkillProgress<f32> = SkillProgress::default();
    assert_eq!(p.level, 0);
    assert_eq!(p.sp_toward_next, 0.0);
    assert_eq!(p.sp_required_for_next(1), Some(250));
    assert_eq!(p.sp_required_for_next(3), Some(750));
    p.level = 1;
    assert_eq!(p.sp_required_for_next(2), Some(16_000));
    p.level = 4;
    assert_eq!(p.sp_required_for_next(5), Some(1_310_720_000));
    assert_eq!(p.sp_required_for_next(u32::MAX), Some(250 * (u32::MAX as u64) * 1_048_576));
    p.level = MAX_SKILL_LEVEL;
    assert_eq!(p.sp_required_for_next(1), None);
}

#[test]
fn skill_book_inject_and_level() {
    let mut book: SkillBook<f32> = SkillBook::new();
    assert_eq!(book.level("Gunnery"), 0);
    assert!(book.progress_index("Gunnery").is_none());
    book.inject("Gunnery");
    assert_eq!(book.level("Gunnery"), 0);
    let i = book.progress_index("Gunnery").unwrap();
    book.skills[i].1.level = 3;
    book.inject("Gunnery");
    assert_eq!(book.level("Gunnery"), 3);
    assert_eq!(book.skills.len(), 1);
    assert!(book.training_skill.is_none());
}

#[test]
fn skill_book_start_training() {
    let mut book: SkillBook<f32> = SkillBook::new();
    book.start_training("Navigation");
    assert_eq!(book.training_skill.as_deref(), Some("Navigation"));
    assert_eq!(book.level("Navigation"), 0);
    book.start_training("Trade");
    assert_eq!(book.training_skill.as_deref(), Some("Trade"));
    assert_eq!(book.skills.len(), 2);
}

#[test]
fn starter_book() {
    let book: SkillBook<f32> = starting_skills();
    assert_eq!(book.skills.len(), 7);
    for name in [
        "Spaceship Command",
        "Navigation",
        "Gunnery",
        "Engineering",
        "Electronics",
        "Shield Operation",
        "Target Management",
    ] {
        assert!(book.progress_index(name).is_some());
        assert_eq!(book.level(name), 0);
    }
    assert_eq!(book.training_skill.as_deref(), Some("Spaceship Command"));
    assert_eq!(Bloodline::default(), Bloodline::Achura);
}

#[test]
fn conclude_tick_reports_and_stops_at_max() {
    let mut book: SkillBook<f32> = SkillBook::new();
    book.start_training("Trade");
    let i = book.progress_index("Trade").unwrap();
    assert_eq!(book.conclude_tick(i, 0), None);
    assert_eq!(book.training_skill.as_deref(), Some("Trade"));
    book.skills[i].1.level = 3;
    assert_eq!(book.conclude_tick(i, 1).as_deref(), Some("Trade"));
    assert_eq!(book.training_skill.as_deref(), Some("Trade"));
    book.skills[i].1.level = MAX_SKILL_LEVEL;
    assert_eq!(book.conclude_tick(i, 1).as_deref(), Some("Trade"));
    assert!(book.training_skill.is_none());
    assert_eq!(book.level("Trade"), MAX_SKILL_LEVEL);
}

#[test]
fn injected_skill_starts_with_no_points() {
    let mut book: SkillBook<f32> = SkillBook::new();
    book.inject("Drones");
    let i = book.progress_index("Drones").unwrap();
    assert_eq!(book.skills[i].1.sp_toward_next, 0.0);
}

#[test]
fn skill_book_default_and_clone() {
    let mut book: SkillBook<f32> = SkillBook::default();
    assert!(book.skills.is_empty());
    assert!(book.training_skill.is_none());
    book.start_training("Drones");
    let copy = book.clone();
    assert_eq!(copy.level("Drones"), 0);
    assert_eq!(copy.training_skill.as_deref(), Some("Drones"));
}
