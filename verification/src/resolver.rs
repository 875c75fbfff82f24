//! The background resolver: the per-background rule-application algorithm
//! that mutates a character's numeric attributes according to weighted dice
//! outcomes.
//!
//! Only the Frontier ruleset is implemented. Every other background fails
//! loudly with a distinguishable error, never a silent no-op, so callers can
//! tell "feature not yet built" from "zero stat change".

use vstd::prelude::*;

use crate::character::CharV;
use crate::character::Character;
use crate::random::stream_step;
use crate::random::RandomNumberGenerator;
use crate::taxonomy::Background;
use crate::taxonomy::CharRace;

verus! {

/// The failure a resolver call signals when a character's background has no
/// defined ruleset yet.
#[derive(Clone, Copy, PartialEq, Eq, Structural, Debug)]
pub struct UnimplementedBackground {
    /// The background that has no ruleset.
    pub background: Background,
}

/// The tiered stat delta of the Frontier "capabilities" d20 roll: disjoint
/// closed ranges, first match wins.
pub open spec fn apply_capabilities(c: CharV, roll: int) -> CharV {
    if roll <= 4 {
        (CharV { agility: c.agility + 1, ..c })
    } else if roll <= 8 {
        (CharV { combat_skill: c.combat_skill + 1, ..c })
    } else if roll <= 12 {
        (CharV { speed: (c.speed.0 + 2, c.speed.1), ..c })
    } else if roll <= 16 {
        (CharV { toughness: c.toughness + 1, ..c })
    } else if roll <= 18 {
        (CharV { agility: c.agility + 1, combat_skill: c.combat_skill + 1, ..c })
    } else {
        (CharV { combat_skill: c.combat_skill + 1, toughness: c.toughness + 1, ..c })
    }
}

/// The tiered stat delta of the Frontier "mentality" d20 roll: a roll of 1
/// favors a Human's will, every other tier is race-independent.
pub open spec fn apply_mentality(c: CharV, roll: int) -> CharV {
    if roll == 1 {
        if c.race == CharRace::HUMAN {
            (CharV { will: c.will + 2, ..c })
        } else {
            (CharV { will: c.will + 1, xp: c.xp + 3, ..c })
        }
    } else if roll <= 3 {
        (CharV { will: c.will + 1, ..c })
    } else if roll <= 16 {
        (CharV { xp: c.xp + 1, ..c })
    } else if roll <= 18 {
        (CharV { luck: c.luck + 1, ..c })
    } else {
        (CharV { will: c.will + 1, luck: c.luck + 1, ..c })
    }
}

/// What the full Frontier ruleset makes of a character: the capabilities roll
/// applied first, then the mentality roll.
pub open spec fn apply_frontier(c: CharV, capabilities: int, mentality: int) -> CharV {
    apply_mentality(apply_capabilities(c, capabilities), mentality)
}

/// Applies the Frontier capabilities roll to the character: exactly one tier
/// of the table fires, and no other attribute changes.
pub fn apply_capabilities_roll(character: &mut Character, roll: i32)
    requires
        1 <= roll <= 20,
        old(character).agility < i32::MAX,
        old(character).combat_skill < i32::MAX,
        old(character).speed.0 + 2 <= i32::MAX,
        old(character).toughness < i32::MAX,
    ensures
        final(character)@ == apply_capabilities(old(character)@, roll as int),
{
    if roll <= 4 {
        character.agility = character.agility + 1;
    } else if roll <= 8 {
        character.combat_skill = character.combat_skill + 1;
    } else if roll <= 12 {
        character.speed = (character.speed.0 + 2, character.speed.1);
    } else if roll <= 16 {
        character.toughness = character.toughness + 1;
    } else if roll <= 18 {
        character.agility = character.agility + 1;
        character.combat_skill = character.combat_skill + 1;
    } else {
        character.combat_skill = character.combat_skill + 1;
        character.toughness = character.toughness + 1;
    }
    proof {
        assert(character@ =~= apply_capabilities(old(character)@, roll as int));
    }
}

/// Applies the Frontier mentality roll to the character: exactly one tier of
/// the table fires, and no other attribute changes.
pub fn apply_mentality_roll(character: &mut Character, roll: i32)
    requires
        1 <= roll <= 20,
        old(character).will + 2 <= i32::MAX,
        old(character).xp + 3 <= i32::MAX,
        old(character).luck < i32::MAX,
    ensures
        final(character)@ == apply_mentality(old(character)@, roll as int),
{
    if roll == 1 {
        if character.race == CharRace::HUMAN {
            character.will = character.will + 2;
        } else {
            character.will = character.will + 1;
            character.xp = character.xp + 3;
        }
    } else if roll <= 3 {
        character.will = character.will + 1;
    } else if roll <= 16 {
        character.xp = character.xp + 1;
    } else if roll <= 18 {
        character.luck = character.luck + 1;
    } else {
        character.will = character.will + 1;
        character.luck = character.luck + 1;
    }
    proof {
        assert(character@ =~= apply_mentality(old(character)@, roll as int));
    }
}

/// Resolves a character's background: a Frontier character takes one
/// capabilities d20 and one mentality d20, in that order, and the tiered
/// deltas of both; a character of any other background is left untouched, no
/// dice are consumed, and the call reports that background as unimplemented.
///
/// Meant to be called exactly once per generated character; a second call
/// draws and applies fresh rolls on top of the first.
pub fn apply_background(character: &mut Character, rng: &mut RandomNumberGenerator) -> (r: Result<
    (),
    UnimplementedBackground,
>)
    requires
        old(character).background == Background::FRONTIER ==> ({
            &&& old(character).agility < i32::MAX
            &&& old(character).combat_skill < i32::MAX
            &&& old(character).speed.0 + 2 <= i32::MAX
            &&& old(character).toughness < i32::MAX
            &&& old(character).will + 2 <= i32::MAX
            &&& old(character).xp + 3 <= i32::MAX
            &&& old(character).luck < i32::MAX
        }),
    ensures
        old(character).background == Background::FRONTIER ==> ({
            let capabilities = stream_step(old(rng).stream(), 1, 20);
            let mentality = stream_step(capabilities.1, 1, 20);
            &&& r == Ok::<(), UnimplementedBackground>(())
            &&& final(character)@ == apply_frontier(
                old(character)@,
                capabilities.0 as int,
                mentality.0 as int,
            )
            &&& final(rng).stream() == mentality.1
        }),
        old(character).background != Background::FRONTIER ==> ({
            &&& r == Err::<(), UnimplementedBackground>(
                (UnimplementedBackground { background: old(character).background }),
            )
            &&& final(character)@ == old(character)@
            &&& final(rng).stream() == old(rng).stream()
        }),
{
    match character.background {
        Background::FRONTIER => {
            let capabilities = rng.d20();
            apply_capabilities_roll(character, capabilities);
            let mentality = rng.d20();
            apply_mentality_roll(character, mentality);
            Ok(())
        },
        Background::TOWNSFOLK => Err(UnimplementedBackground { background: Background::TOWNSFOLK }),
        Background::NOBLE => Err(UnimplementedBackground { background: Background::NOBLE }),
        Background::ZEALOT => Err(UnimplementedBackground { background: Background::ZEALOT }),
        Background::OUTSIDER => Err(UnimplementedBackground { background: Background::OUTSIDER }),
        Background::MYSTIC => Err(UnimplementedBackground { background: Background::MYSTIC }),
    }
}

} // verus!
