//! A human-readable rendering of a finished character: a pure projection of
//! the record's fields, with the casting line included only for a Mystic
//! background. Any presentation layer can reproduce it from the fields alone.

use vstd::prelude::*;

use crate::character::CharV;
use crate::character::Character;
use crate::taxonomy::background_label;
use crate::taxonomy::race_label;
use crate::taxonomy::skill_label;
use crate::taxonomy::Background;

verus! {

/// The character of a single decimal digit.
pub open spec fn dec_digit(d: int) -> char {
    if d == 0 {
        '0'
    } else if d == 1 {
        '1'
    } else if d == 2 {
        '2'
    } else if d == 3 {
        '3'
    } else if d == 4 {
        '4'
    } else if d == 5 {
        '5'
    } else if d == 6 {
        '6'
    } else if d == 7 {
        '7'
    } else if d == 8 {
        '8'
    } else {
        '9'
    }
}

/// The decimal digits of a natural number, most significant first, with no
/// leading zeros (a lone zero for 0).
pub open spec fn dec_nat(n: nat) -> Seq<char>
    decreases n,
{
    if n < 10 {
        seq![dec_digit(n as int)]
    } else {
        dec_nat(n / 10) + seq![dec_digit((n % 10) as int)]
    }
}

/// The decimal rendering of an integer: the digits of its magnitude, with a
/// leading minus sign when it is negative.
pub open spec fn dec_int(n: int) -> Seq<char> {
    if n < 0 {
        seq!['-'] + dec_nat((-n) as nat)
    } else {
        dec_nat(n as nat)
    }
}

/// The one-character string of a decimal digit.
fn digit_str(d: u32) -> (r: &'static str)
    requires
        d < 10,
    ensures
        r@ == seq![dec_digit(d as int)],
{
    let r: &'static str = match d {
        0 => "0",
        1 => "1",
        2 => "2",
        3 => "3",
        4 => "4",
        5 => "5",
        6 => "6",
        7 => "7",
        8 => "8",
        _ => "9",
    };
    proof {
        reveal_strlit("0");
        reveal_strlit("1");
        reveal_strlit("2");
        reveal_strlit("3");
        reveal_strlit("4");
        reveal_strlit("5");
        reveal_strlit("6");
        reveal_strlit("7");
        reveal_strlit("8");
        reveal_strlit("9");
        assert(r@ =~= seq![dec_digit(d as int)]);
    }
    r
}

/// The decimal string of a natural number.
fn u32_to_decimal(n: u32) -> (r: String)
    ensures
        r@ == dec_nat(n as nat),
    decreases n,
{
    if n < 10 {
        digit_str(n).to_owned()
    } else {
        let mut s = u32_to_decimal(n / 10);
        s.append(digit_str(n % 10));
        s
    }
}

/// The decimal string of an integer, sign included.
fn i32_to_decimal(n: i32) -> (r: String)
    ensures
        r@ == dec_int(n as int),
{
    if n >= 0 {
        u32_to_decimal(n as u32)
    } else {
        let magnitude: u32 = if n == i32::MIN {
            2147483648u32
        } else {
            (0 - n) as u32
        };
        let mut s = "-".to_owned();
        s.append(u32_to_decimal(magnitude).as_str());
        proof {
            reveal_strlit("-");
            assert(magnitude as nat == (-(n as int)) as nat);
            assert(s@ =~= dec_int(n as int));
        }
        s
    }
}

/// The full sheet rendering of a character: race, background, attributes,
/// expertise and points, with the casting line only for a Mystic background.
pub open spec fn sheet_text(c: CharV) -> Seq<char> {
    "\nRace: "@ + race_label(c.race) + "\nBackground: "@ + background_label(c.background)
        + "\nATTRIBUTES\nAgility: "@ + dec_int(c.agility) + ",\nSpeed: "@ + dec_int(c.speed.0)
        + "\" / +"@ + dec_int(c.speed.1) + "\"\nCombat Skill: "@ + dec_int(c.combat_skill)
        + ",\nToughness: "@ + dec_int(c.toughness) + (if c.background == Background::MYSTIC {
        ",\nCasting: "@ + dec_int(c.casting)
    } else {
        Seq::empty()
    }) + "\nExpertise: "@ + skill_label(c.skill_expertise) + "\nPOINTS\nExperience: "@ + dec_int(
        c.xp,
    ) + ",\nLuck: "@ + dec_int(c.luck) + ",\nWill: "@ + dec_int(c.will)
}

impl Character {
    /// Renders this character as the display sheet: a pure projection of the
    /// record with no decision logic.
    pub fn display_string(&self) -> (r: String)
        ensures
            r@ == sheet_text(self@),
    {
        let mut s = "\nRace: ".to_owned();
        s.append(self.race.as_string());
        s.append("\nBackground: ");
        s.append(self.background.as_string());
        s.append("\nATTRIBUTES\nAgility: ");
        s.append(i32_to_decimal(self.agility).as_str());
        s.append(",\nSpeed: ");
        s.append(i32_to_decimal(self.speed.0).as_str());
        s.append("\" / +");
        s.append(i32_to_decimal(self.speed.1).as_str());
        s.append("\"\nCombat Skill: ");
        s.append(i32_to_decimal(self.combat_skill).as_str());
        s.append(",\nToughness: ");
        s.append(i32_to_decimal(self.toughness).as_str());
        if self.background == Background::MYSTIC {
            let mut casting_piece = ",\nCasting: ".to_owned();
            casting_piece.append(i32_to_decimal(self.casting).as_str());
            s.append(casting_piece.as_str());
        }
        s.append("\nExpertise: ");
        s.append(self.skill_expertise.as_string());
        s.append("\nPOINTS\nExperience: ");
        s.append(i32_to_decimal(self.xp).as_str());
        s.append(",\nLuck: ");
        s.append(i32_to_decimal(self.luck).as_str());
        s.append(",\nWill: ");
        s.append(i32_to_decimal(self.will).as_str());
        proof {
            assert(s@ =~= sheet_text(self@));
        }
        s
    }
}

} // verus!
