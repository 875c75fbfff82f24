use character_gen::apply_background;
use character_gen::character::race_for_roll;
use character_gen::generate_random_race;
use character_gen::resolver::apply_capabilities_roll;
use character_gen::resolver::apply_mentality_roll;
use character_gen::Background;
use character_gen::CharRace;
use character_gen::Character;
use character_gen::RandomNumberGenerator;
use character_gen::SkillType;

fn fresh_character(race: CharRace, background: Background) -> Character {
    Character {
        name: String::new(),
        race,
        background,
        skills: Vec::new(),
        skill_expertise: race.get_skill_expertise(),
        agility: 1,
        speed: (4, 3),
        combat_skill: 0,
        toughness: 3,
        casting: 0,
        luck: 0,
        will: 0,
        xp: 0,
        skill_choices: 0,
    }
}

#[test]
fn seeded_rngs_agree_at_every_step() {
    for seed in [0u64, 1, 7, 42, 123456789, u64::MAX] {
        let mut a = RandomNumberGenerator::seeded(seed);
        let mut b = RandomNumberGenerator::seeded(seed);
        for _ in 0..50 {
            assert_eq!(a.d100(), b.d100());
            assert_eq!(a.d20(), b.d20());
            assert_eq!(a.d6(), b.d6());
            assert_eq!(a.d3(), b.d3());
            assert_eq!(a.range_inclusive(-5, 5), b.range_inclusive(-5, 5));
            assert_eq!(a.range(0, 17), b.range(0, 17));
        }
    }
}

#[test]
fn different_seeds_give_different_streams() {
    let draw = |seed: u64| {
        let mut rng = RandomNumberGenerator::seeded(seed);
        (0..50).map(|_| rng.d100()).collect::<Vec<i32>>()
    };
    assert_ne!(draw(0), draw(1));
    assert_ne!(draw(2), draw(3));
}

#[test]
fn draws_stay_in_bounds_and_vary() {
    let mut rng = RandomNumberGenerator::seeded(99);
    let mut distinct = std::collections::HashSet::new();
    for _ in 0..300 {
        let v = rng.d100();
        assert!((1..=100).contains(&v));
        distinct.insert(v);
    }
    assert!(distinct.len() > 10);
    for _ in 0..300 {
        let v = rng.d20();
        assert!((1..=20).contains(&v));
        let v = rng.d6();
        assert!((1..=6).contains(&v));
        let v = rng.d3();
        assert!((1..=3).contains(&v));
        let v = rng.range(3, 4);
        assert_eq!(v, 3);
        let v = rng.range_inclusive(-2, 2);
        assert!((-2..=2).contains(&v));
    }
}

#[test]
fn race_tables_are_fixed() {
    let table = [
        (CharRace::HUMAN, Background::TOWNSFOLK, SkillType::SPEECH),
        (CharRace::FEYBLOOD, Background::OUTSIDER, SkillType::WITS),
        (CharRace::DUSKLING, Background::OUTSIDER, SkillType::TRAVELING),
        (CharRace::PREEN, Background::TOWNSFOLK, SkillType::CRAFTING),
        (CharRace::HALFLING, Background::FRONTIER, SkillType::WILDERNESS),
        (CharRace::FERAL, Background::OUTSIDER, SkillType::SCOUTING),
    ];
    for (race, background, expertise) in table {
        assert_eq!(race.get_background(), background);
        assert_eq!(race.get_skill_expertise(), expertise);
    }
}

#[test]
fn labels_are_fixed() {
    assert_eq!(CharRace::HUMAN.as_string(), "Human");
    assert_eq!(CharRace::FEYBLOOD.as_string(), "Fey-Blood");
    assert_eq!(CharRace::DUSKLING.as_string(), "Duskling");
    assert_eq!(CharRace::PREEN.as_string(), "Preen");
    assert_eq!(CharRace::HALFLING.as_string(), "Halfling");
    assert_eq!(CharRace::FERAL.as_string(), "Feral");
    assert_eq!(Background::TOWNSFOLK.as_string(), "Townsfolk");
    assert_eq!(Background::NOBLE.as_string(), "Noble");
    assert_eq!(Background::FRONTIER.as_string(), "Frontier");
    assert_eq!(Background::ZEALOT.as_string(), "Zealot");
    assert_eq!(Background::OUTSIDER.as_string(), "Outsider");
    assert_eq!(Background::MYSTIC.as_string(), "Mystic");
    assert_eq!(SkillType::BATTLEWISE.as_string(), "Battlewise");
    assert_eq!(SkillType::CRAFTING.as_string(), "Crafting");
    assert_eq!(SkillType::DEVOTION.as_string(), "Devotion");
    assert_eq!(SkillType::EXPERTISE.as_string(), "Expertise");
    assert_eq!(SkillType::LEADERSHIP.as_string(), "Leadership");
    assert_eq!(SkillType::PATHWISE.as_string(), "Pathwise");
    assert_eq!(SkillType::SCHOLAR.as_string(), "Scholar");
    assert_eq!(SkillType::SCOUTING.as_string(), "Scouting");
    assert_eq!(SkillType::SPEECH.as_string(), "Speech");
    assert_eq!(SkillType::TRAVELING.as_string(), "Traveling");
    assert_eq!(SkillType::WILDERNESS.as_string(), "Wilderness");
    assert_eq!(SkillType::WITS.as_string(), "Wits");
}

#[test]
fn race_roll_partition_is_exhaustive() {
    for roll in 1..=100 {
        let expected = if roll <= 40 {
            CharRace::HUMAN
        } else if roll <= 50 {
            CharRace::FEYBLOOD
        } else if roll <= 60 {
            CharRace::DUSKLING
        } else if roll <= 75 {
            CharRace::PREEN
        } else if roll <= 90 {
            CharRace::HALFLING
        } else {
            CharRace::FERAL
        };
        assert_eq!(race_for_roll(roll), expected);
    }
    assert_eq!(race_for_roll(1), CharRace::HUMAN);
    assert_eq!(race_for_roll(40), CharRace::HUMAN);
    assert_eq!(race_for_roll(41), CharRace::FEYBLOOD);
    assert_eq!(race_for_roll(100), CharRace::FERAL);
}

#[test]
fn every_race_is_reachable() {
    let mut rng = RandomNumberGenerator::seeded(5);
    let mut seen = std::collections::HashSet::new();
    for _ in 0..2000 {
        seen.insert(generate_random_race(&mut rng).as_string());
    }
    assert_eq!(seen.len(), 6);
}

#[test]
fn new_character_has_fixed_baseline() {
    let mut saw_preen = false;
    let mut saw_other = false;
    for seed in 0..500u64 {
        let mut rng = RandomNumberGenerator::seeded(seed);
        let c = Character::new(&mut rng);
        assert_eq!(c.name, "");
        assert!(c.skills.is_empty());
        assert_eq!(c.background, c.race.get_background());
        assert_eq!(c.skill_expertise, c.race.get_skill_expertise());
        assert_eq!(c.agility, 1);
        assert_eq!(c.combat_skill, 0);
        assert_eq!(c.toughness, 3);
        assert_eq!(c.casting, 0);
        assert_eq!(c.xp, 0);
        assert_eq!(c.luck, 0);
        assert_eq!(c.will, 0);
        assert_eq!(c.skill_choices, 0);
        if c.race == CharRace::PREEN {
            assert_eq!(c.speed, (4, 4));
            saw_preen = true;
        } else {
            assert_eq!(c.speed, (4, 3));
            saw_other = true;
        }
        if saw_preen && saw_other {
            break;
        }
    }
    assert!(saw_preen && saw_other);
}

#[test]
fn new_character_consumes_one_roll() {
    // A fresh character's race comes from the single d100 the factory draws.
    let mut a = RandomNumberGenerator::seeded(17);
    let mut b = RandomNumberGenerator::seeded(17);
    let c = Character::new(&mut a);
    let race = generate_random_race(&mut b);
    assert_eq!(c.race, race);
    // Both streams sit at the same point afterwards.
    assert_eq!(a.d100(), b.d100());
}

#[test]
fn capabilities_tiers_apply_exactly_one_delta() {
    let cases: [(i32, [i32; 4]); 12] = [
        // roll -> (agility, combat_skill, speed base, toughness) deltas
        (1, [1, 0, 0, 0]),
        (4, [1, 0, 0, 0]),
        (5, [0, 1, 0, 0]),
        (8, [0, 1, 0, 0]),
        (9, [0, 0, 2, 0]),
        (12, [0, 0, 2, 0]),
        (13, [0, 0, 0, 1]),
        (16, [0, 0, 0, 1]),
        (17, [1, 1, 0, 0]),
        (18, [1, 1, 0, 0]),
        (19, [0, 1, 0, 1]),
        (20, [0, 1, 0, 1]),
    ];
    for (roll, [da, dc, ds, dt]) in cases {
        let mut c = fresh_character(CharRace::HALFLING, Background::FRONTIER);
        apply_capabilities_roll(&mut c, roll);
        assert_eq!(c.agility, 1 + da, "roll {roll}");
        assert_eq!(c.combat_skill, dc, "roll {roll}");
        assert_eq!(c.speed, (4 + ds, 3), "roll {roll}");
        assert_eq!(c.toughness, 3 + dt, "roll {roll}");
        // Nothing else moves.
        assert_eq!(c.casting, 0);
        assert_eq!(c.luck, 0);
        assert_eq!(c.will, 0);
        assert_eq!(c.xp, 0);
        assert_eq!(c.skill_choices, 0);
    }
}

#[test]
fn mentality_roll_of_one_depends_on_race() {
    let mut human = fresh_character(CharRace::HUMAN, Background::FRONTIER);
    apply_mentality_roll(&mut human, 1);
    assert_eq!(human.will, 2);
    assert_eq!(human.xp, 0);

    let mut feral = fresh_character(CharRace::FERAL, Background::FRONTIER);
    apply_mentality_roll(&mut feral, 1);
    assert_eq!(feral.will, 1);
    assert_eq!(feral.xp, 3);
}

#[test]
fn mentality_tiers_apply_exactly_one_delta() {
    let cases: [(i32, [i32; 3]); 8] = [
        // roll -> (will, xp, luck) deltas, on a non-Human
        (2, [1, 0, 0]),
        (3, [1, 0, 0]),
        (4, [0, 1, 0]),
        (10, [0, 1, 0]),
        (16, [0, 1, 0]),
        (17, [0, 0, 1]),
        (18, [0, 0, 1]),
        (19, [1, 0, 1]),
    ];
    for (roll, [dw, dx, dl]) in cases {
        let mut c = fresh_character(CharRace::DUSKLING, Background::FRONTIER);
        apply_mentality_roll(&mut c, roll);
        assert_eq!(c.will, dw, "roll {roll}");
        assert_eq!(c.xp, dx, "roll {roll}");
        assert_eq!(c.luck, dl, "roll {roll}");
        assert_eq!(c.agility, 1);
        assert_eq!(c.combat_skill, 0);
        assert_eq!(c.speed, (4, 3));
        assert_eq!(c.toughness, 3);
    }
    let mut c = fresh_character(CharRace::PREEN, Background::FRONTIER);
    apply_mentality_roll(&mut c, 20);
    assert_eq!((c.will, c.xp, c.luck), (1, 0, 1));
}

#[test]
fn unimplemented_backgrounds_fail_loudly() {
    for background in [
        Background::TOWNSFOLK,
        Background::NOBLE,
        Background::ZEALOT,
        Background::OUTSIDER,
        Background::MYSTIC,
    ] {
        let mut c = fresh_character(CharRace::HUMAN, background);
        let mut rng = RandomNumberGenerator::seeded(3);
        let result = apply_background(&mut c, &mut rng);
        let err = result.expect_err("an unimplemented background must not resolve");
        assert_eq!(err.background, background);
        // The character is untouched ...
        assert_eq!(c.agility, 1);
        assert_eq!(c.speed, (4, 3));
        assert_eq!(c.combat_skill, 0);
        assert_eq!(c.toughness, 3);
        assert_eq!(c.casting, 0);
        assert_eq!(c.luck, 0);
        assert_eq!(c.will, 0);
        assert_eq!(c.xp, 0);
        // ... and no dice were consumed.
        let mut untouched = RandomNumberGenerator::seeded(3);
        assert_eq!(rng.d100(), untouched.d100());
    }
}

#[test]
fn frontier_resolution_applies_both_rolls() {
    let mut rng = RandomNumberGenerator::seeded(11);
    let capabilities = rng.d20();
    let mentality = rng.d20();

    let mut expected = fresh_character(CharRace::HALFLING, Background::FRONTIER);
    apply_capabilities_roll(&mut expected, capabilities);
    apply_mentality_roll(&mut expected, mentality);

    let mut c = fresh_character(CharRace::HALFLING, Background::FRONTIER);
    let mut rng2 = RandomNumberGenerator::seeded(11);
    let result = apply_background(&mut c, &mut rng2);
    assert_eq!(result, Ok(()));

    assert_eq!(c.agility, expected.agility);
    assert_eq!(c.speed, expected.speed);
    assert_eq!(c.combat_skill, expected.combat_skill);
    assert_eq!(c.toughness, expected.toughness);
    assert_eq!(c.casting, expected.casting);
    assert_eq!(c.luck, expected.luck);
    assert_eq!(c.will, expected.will);
    assert_eq!(c.xp, expected.xp);
}

#[test]
fn frontier_resolution_is_reproducible() {
    let run = |seed: u64| {
        let mut c = fresh_character(CharRace::HALFLING, Background::FRONTIER);
        let mut rng = RandomNumberGenerator::seeded(seed);
        apply_background(&mut c, &mut rng).unwrap();
        (c.agility, c.speed, c.combat_skill, c.toughness, c.luck, c.will, c.xp)
    };
    for seed in 0..50u64 {
        assert_eq!(run(seed), run(seed));
    }
}
