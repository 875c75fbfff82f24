//! Closed enumerations for race, background and skill, with the fixed
//! cross-table relationships that drive character generation.

use vstd::prelude::*;

verus! {

/// A character's species-like category; determines its background and its
/// starting skill expertise.
#[derive(Clone, Copy, PartialEq, Eq, Structural, Debug)]
pub enum CharRace {
    HUMAN,
    FEYBLOOD,
    DUSKLING,
    PREEN,
    HALFLING,
    FERAL,
}

/// A character's life-history category; determines which attribute-roll
/// ruleset applies during background resolution.
#[derive(Clone, Copy, PartialEq, Eq, Structural, Hash, Debug)]
pub enum Background {
    TOWNSFOLK,
    NOBLE,
    FRONTIER,
    ZEALOT,
    OUTSIDER,
    MYSTIC,
}

/// One of the twelve named skills. Used both as a character's starting
/// expertise and as an element of its learned-skills collection.
#[derive(Clone, Copy, PartialEq, Eq, Structural, Hash, Debug)]
pub enum SkillType {
    BATTLEWISE,
    CRAFTING,
    DEVOTION,
    EXPERTISE,
    LEADERSHIP,
    PATHWISE,
    SCHOLAR,
    SCOUTING,
    SPEECH,
    TRAVELING,
    WILDERNESS,
    WITS,
}

/// The fixed race-to-background table: total and pure, every race maps to
/// exactly one background.
pub open spec fn spec_background(race: CharRace) -> Background {
    match race {
        CharRace::HUMAN => Background::TOWNSFOLK,
        CharRace::FEYBLOOD => Background::OUTSIDER,
        CharRace::DUSKLING => Background::OUTSIDER,
        CharRace::PREEN => Background::TOWNSFOLK,
        CharRace::HALFLING => Background::FRONTIER,
        CharRace::FERAL => Background::OUTSIDER,
    }
}

/// The fixed race-to-expertise table: total and pure, every race maps to
/// exactly one starting skill expertise.
pub open spec fn spec_skill_expertise(race: CharRace) -> SkillType {
    match race {
        CharRace::HUMAN => SkillType::SPEECH,
        CharRace::FEYBLOOD => SkillType::WITS,
        CharRace::DUSKLING => SkillType::TRAVELING,
        CharRace::PREEN => SkillType::CRAFTING,
        CharRace::HALFLING => SkillType::WILDERNESS,
        CharRace::FERAL => SkillType::SCOUTING,
    }
}

/// The human-readable label of a race.
pub open spec fn race_label(race: CharRace) -> Seq<char> {
    match race {
        CharRace::HUMAN => "Human"@,
        CharRace::FEYBLOOD => "Fey-Blood"@,
        CharRace::DUSKLING => "Duskling"@,
        CharRace::PREEN => "Preen"@,
        CharRace::HALFLING => "Halfling"@,
        CharRace::FERAL => "Feral"@,
    }
}

/// The human-readable label of a background.
pub open spec fn background_label(background: Background) -> Seq<char> {
    match background {
        Background::TOWNSFOLK => "Townsfolk"@,
        Background::NOBLE => "Noble"@,
        Background::FRONTIER => "Frontier"@,
        Background::ZEALOT => "Zealot"@,
        Background::OUTSIDER => "Outsider"@,
        Background::MYSTIC => "Mystic"@,
    }
}

/// The human-readable label of a skill.
pub open spec fn skill_label(skill: SkillType) -> Seq<char> {
    match skill {
        SkillType::BATTLEWISE => "Battlewise"@,
        SkillType::CRAFTING => "Crafting"@,
        SkillType::DEVOTION => "Devotion"@,
        SkillType::EXPERTISE => "Expertise"@,
        SkillType::LEADERSHIP => "Leadership"@,
        SkillType::PATHWISE => "Pathwise"@,
        SkillType::SCHOLAR => "Scholar"@,
        SkillType::SCOUTING => "Scouting"@,
        SkillType::SPEECH => "Speech"@,
        SkillType::TRAVELING => "Traveling"@,
        SkillType::WILDERNESS => "Wilderness"@,
        SkillType::WITS => "Wits"@,
    }
}

impl CharRace {
    /// The human-readable label of this race.
    pub fn as_string(&self) -> (r: &'static str)
        ensures
            r@ == race_label(*self),
    {
        match self {
            CharRace::HUMAN => "Human",
            CharRace::FEYBLOOD => "Fey-Blood",
            CharRace::DUSKLING => "Duskling",
            CharRace::PREEN => "Preen",
            CharRace::HALFLING => "Halfling",
            CharRace::FERAL => "Feral",
        }
    }

    /// The background this race always has, per the fixed table.
    pub fn get_background(&self) -> (r: Background)
        ensures
            r == spec_background(*self),
    {
        match self {
            CharRace::HUMAN => Background::TOWNSFOLK,
            CharRace::FEYBLOOD => Background::OUTSIDER,
            CharRace::DUSKLING => Background::OUTSIDER,
            CharRace::PREEN => Background::TOWNSFOLK,
            CharRace::HALFLING => Background::FRONTIER,
            CharRace::FERAL => Background::OUTSIDER,
        }
    }

    /// The starting skill expertise this race always has, per the fixed table.
    pub fn get_skill_expertise(&self) -> (r: SkillType)
        ensures
            r == spec_skill_expertise(*self),
    {
        match self {
            CharRace::HUMAN => SkillType::SPEECH,
            CharRace::FEYBLOOD => SkillType::WITS,
            CharRace::DUSKLING => SkillType::TRAVELING,
            CharRace::PREEN => SkillType::CRAFTING,
            CharRace::HALFLING => SkillType::WILDERNESS,
            CharRace::FERAL => SkillType::SCOUTING,
        }
    }
}

impl Background {
    /// The human-readable label of this background.
    pub fn as_string(&self) -> (r: &'static str)
        ensures
            r@ == background_label(*self),
    {
        match self {
            Background::TOWNSFOLK => "Townsfolk",
            Background::NOBLE => "Noble",
            Background::FRONTIER => "Frontier",
            Background::ZEALOT => "Zealot",
            Background::OUTSIDER => "Outsider",
            Background::MYSTIC => "Mystic",
        }
    }
}

impl SkillType {
    /// The human-readable label of this skill.
    pub fn as_string(&self) -> (r: &'static str)
        ensures
            r@ == skill_label(*self),
    {
        match self {
            SkillType::BATTLEWISE => "Battlewise",
            SkillType::CRAFTING => "Crafting",
            SkillType::DEVOTION => "Devotion",
            SkillType::EXPERTISE => "Expertise",
            SkillType::LEADERSHIP => "Leadership",
            SkillType::PATHWISE => "Pathwise",
            SkillType::SCHOLAR => "Scholar",
            SkillType::SCOUTING => "Scouting",
            SkillType::SPEECH => "Speech",
            SkillType::TRAVELING => "Traveling",
            SkillType::WILDERNESS => "Wilderness",
            SkillType::WITS => "Wits",
        }
    }
}

} // verus!
