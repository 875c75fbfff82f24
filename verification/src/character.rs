//! The character record and its factory: a baseline character whose race is
//! drawn from a weighted d100 table and whose background and expertise follow
//! from the race.

use vstd::prelude::*;

use crate::random::stream_step;
use crate::random::RandomNumberGenerator;
use crate::taxonomy::spec_background;
use crate::taxonomy::spec_skill_expertise;
use crate::taxonomy::Background;
use crate::taxonomy::CharRace;
use crate::taxonomy::SkillType;

verus! {

/// The mathematical model of a character: every field as a plain value.
#[verifier::ext_equal]
pub ghost struct CharV {
    pub name: Seq<char>,
    pub race: CharRace,
    pub background: Background,
    pub skills: Seq<SkillType>,
    pub skill_expertise: SkillType,
    pub agility: int,
    pub speed: (int, int),
    pub combat_skill: int,
    pub toughness: int,
    pub casting: int,
    pub luck: int,
    pub will: int,
    pub xp: int,
    pub skill_choices: int,
}

/// The mutable aggregate character record. The engine sets every field but
/// the name, which stays empty and belongs to the presentation layer.
pub struct Character {
    pub name: String,
    pub race: CharRace,
    pub background: Background,
    pub skills: Vec<SkillType>,
    pub skill_expertise: SkillType,
    pub agility: i32,
    pub speed: (i32, i32),
    pub combat_skill: i32,
    pub toughness: i32,
    pub casting: i32,
    pub luck: i32,
    pub will: i32,
    pub xp: i32,
    pub skill_choices: i32,
}

impl View for Character {
    type V = CharV;

    open spec fn view(&self) -> CharV {
        CharV {
            name: self.name@,
            race: self.race,
            background: self.background,
            skills: self.skills@,
            skill_expertise: self.skill_expertise,
            agility: self.agility as int,
            speed: (self.speed.0 as int, self.speed.1 as int),
            combat_skill: self.combat_skill as int,
            toughness: self.toughness as int,
            casting: self.casting as int,
            luck: self.luck as int,
            will: self.will as int,
            xp: self.xp as int,
            skill_choices: self.skill_choices as int,
        }
    }
}

/// The race a d100 roll selects: a fixed, non-overlapping, exhaustive
/// partition of `1..=100` into contiguous closed ranges.
pub open spec fn spec_race_of_roll(roll: int) -> CharRace {
    if roll <= 40 {
        CharRace::HUMAN
    } else if roll <= 50 {
        CharRace::FEYBLOOD
    } else if roll <= 60 {
        CharRace::DUSKLING
    } else if roll <= 75 {
        CharRace::PREEN
    } else if roll <= 90 {
        CharRace::HALFLING
    } else {
        CharRace::FERAL
    }
}

/// The baseline record of a freshly constructed character of the given race:
/// fixed starting attributes, empty name and skills, background and expertise
/// from the race tables, and the single race-conditional adjustment (a Preen
/// gains +1 to the speed bonus component).
pub open spec fn baseline(race: CharRace) -> CharV {
    CharV {
        name: Seq::empty(),
        race: race,
        background: spec_background(race),
        skills: Seq::empty(),
        skill_expertise: spec_skill_expertise(race),
        agility: 1,
        speed: (4, if race == CharRace::PREEN { 4int } else { 3int }),
        combat_skill: 0,
        toughness: 3,
        casting: 0,
        luck: 0,
        will: 0,
        xp: 0,
        skill_choices: 0,
    }
}

/// The race a given d100 roll maps to, per the fixed weighted table.
pub fn race_for_roll(roll: i32) -> (r: CharRace)
    requires
        1 <= roll <= 100,
    ensures
        r == spec_race_of_roll(roll as int),
{
    if roll <= 40 {
        CharRace::HUMAN
    } else if roll <= 50 {
        CharRace::FEYBLOOD
    } else if roll <= 60 {
        CharRace::DUSKLING
    } else if roll <= 75 {
        CharRace::PREEN
    } else if roll <= 90 {
        CharRace::HALFLING
    } else {
        CharRace::FERAL
    }
}

/// Draws one d100 roll and maps it to a race via the fixed weighted table.
/// Consumes exactly one draw from the stream.
pub fn generate_random_race(rng: &mut RandomNumberGenerator) -> (r: CharRace)
    ensures
        ({
            let step = stream_step(old(rng).stream(), 1, 100);
            &&& r == spec_race_of_roll(step.0 as int)
            &&& final(rng).stream() == step.1
        }),
{
    let roll = rng.range_inclusive(1, 100);
    race_for_roll(roll)
}

impl Character {
    /// Constructs a baseline character: draws one race roll, derives the
    /// background and skill expertise from the race tables, and initializes
    /// every attribute to its fixed starting value, with the Preen speed
    /// adjustment. No dice are consumed beyond the one race roll.
    pub fn new(rng: &mut RandomNumberGenerator) -> (c: Character)
        ensures
            ({
                let step = stream_step(old(rng).stream(), 1, 100);
                &&& c@ == baseline(spec_race_of_roll(step.0 as int))
                &&& final(rng).stream() == step.1
            }),
    {
        let new_race = generate_random_race(rng);
        let new_background = new_race.get_background();
        let skills: Vec<SkillType> = Vec::new();
        let mut new_char = Character {
            name: String::new(),
            race: new_race,
            background: new_background,
            skills: skills,
            skill_expertise: new_race.get_skill_expertise(),
            agility: 1,
            speed: (4, 3),
            combat_skill: 0,
            toughness: 3,
            casting: 0,
            xp: 0,
            luck: 0,
            will: 0,
            skill_choices: 0,
        };

        if new_race == CharRace::PREEN {
            new_char.speed = (new_char.speed.0, new_char.speed.1 + 1);
        }
        proof {
            assert(new_char@ =~= baseline(new_race));
        }
        new_char
    }
}

/// The race roll table is a partition of `1..=100`: each race is selected on
/// exactly its documented closed range, so the ranges are contiguous,
/// non-overlapping and cover every roll.
pub proof fn lemma_race_roll_partition(roll: int)
    requires
        1 <= roll <= 100,
    ensures
        (1 <= roll <= 40) <==> spec_race_of_roll(roll) == CharRace::HUMAN,
        (41 <= roll <= 50) <==> spec_race_of_roll(roll) == CharRace::FEYBLOOD,
        (51 <= roll <= 60) <==> spec_race_of_roll(roll) == CharRace::DUSKLING,
        (61 <= roll <= 75) <==> spec_race_of_roll(roll) == CharRace::PREEN,
        (76 <= roll <= 90) <==> spec_race_of_roll(roll) == CharRace::HALFLING,
        (91 <= roll <= 100) <==> spec_race_of_roll(roll) == CharRace::FERAL,
{
}

/// A freshly constructed character always carries the fixed baseline:
/// agility 1, toughness 3, every other numeric attribute 0, an empty name and
/// skill set, and speed (4, 3) — except that a Preen has speed (4, 4).
pub proof fn lemma_baseline_attributes(race: CharRace)
    ensures
        baseline(race).agility == 1,
        baseline(race).toughness == 3,
        baseline(race).combat_skill == 0,
        baseline(race).casting == 0,
        baseline(race).xp == 0,
        baseline(race).luck == 0,
        baseline(race).will == 0,
        baseline(race).skill_choices == 0,
        baseline(race).name == Seq::<char>::empty(),
        baseline(race).skills == Seq::<SkillType>::empty(),
        baseline(race).background == spec_background(race),
        baseline(race).skill_expertise == spec_skill_expertise(race),
        race != CharRace::PREEN ==> baseline(race).speed == (4int, 3int),
        race == CharRace::PREEN ==> baseline(race).speed == (4int, 4int),
{
}

} // verus!
