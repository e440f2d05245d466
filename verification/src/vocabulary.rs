//! The closed vocabularies of the site: game mode, region, player class, membership role
//! and transaction action, each with the spellings that the site has used for it.

use crate::text::{skip_leading, skip_trailing, str_eq, trim, trim_end_of, trim_start_of, trimmed, CharSet};
use vstd::prelude::*;
use vstd::string::*;

verus! {

/// The format that a team plays in.
#[derive(Debug, Clone, Copy, PartialEq, Eq, Hash)]
pub enum GameMode {
    Highlander,
    Eights,
    Sixes,
    Fours,
    Ultiduo,
    Ones,
    FFFours,
    Classic,
    Left4Dead,
    Overwatch,
}

/// Text that spells no game mode.
#[derive(Debug, Clone, PartialEq, Eq)]
pub struct InvalidGameMode {
    pub text: String,
}

impl InvalidGameMode {
    /// The error in words.
    pub fn message(&self) -> (r: String)
        ensures
            r@ == "Invalid game mode "@ + self.text@,
    {
        let mut out = "Invalid game mode ".to_owned();
        out.append(self.text.as_str());
        out
    }
}

impl GameMode {
    /// Whether `s` is one of the spellings of `self`.
    pub open spec fn is_alias(self, s: Seq<char>) -> bool {
        match self {
            GameMode::Highlander => s == "9v9"@ || s == "Highlander"@ || s == "TF2 Highlander"@ || s == "ASIA TF2-H"@,
            GameMode::Eights => s == "8v8"@ || s == "TF2 8vs8"@ || s == "8vs8"@,
            GameMode::Sixes => s == "6v6"@ || s == "ASIA TF2-6"@ || s == "TF2 6vs6"@ || s == "6vs6"@,
            GameMode::Fours => s == "4v4"@ || s == "ASIA TF2-4"@ || s == "TF2 4vs4"@ || s == "4vs4"@,
            GameMode::Ultiduo => s == "2v2"@ || s == "TF2 2vs2"@ || s == "2vs2"@,
            GameMode::Ones => s == "1v1"@ || s == "TF2 Sol 1vs1"@ || s == "Team Fortress 2 Soldier 1 vs 1 Tournament"@,
            GameMode::FFFours => s == "ff4v4"@ || s == "FF 4vs4 OvsD"@ || s == "Fortress Forever 4vs4 OvsD"@,
            GameMode::Classic => s == "Team Fortress Classic ADL"@ || s == "TeamFortressClassic"@ || s == "classic"@,
            GameMode::Left4Dead => s == "Left For Dead"@ || s == "Left 4 Dead 2 Versus League"@ || s == "l4d"@,
            GameMode::Overwatch => s == "Overwatch"@ || s == "overwatch"@,
        }
    }

    /// The game mode that `s` spells, if it spells one.
    pub open spec fn spelled_by(s: Seq<char>) -> Option<GameMode> {
        if GameMode::Highlander.is_alias(s) {
            Some(GameMode::Highlander)
        } else if GameMode::Eights.is_alias(s) {
            Some(GameMode::Eights)
        } else if GameMode::Sixes.is_alias(s) {
            Some(GameMode::Sixes)
        } else if GameMode::Fours.is_alias(s) {
            Some(GameMode::Fours)
        } else if GameMode::Ultiduo.is_alias(s) {
            Some(GameMode::Ultiduo)
        } else if GameMode::Ones.is_alias(s) {
            Some(GameMode::Ones)
        } else if GameMode::FFFours.is_alias(s) {
            Some(GameMode::FFFours)
        } else if GameMode::Classic.is_alias(s) {
            Some(GameMode::Classic)
        } else if GameMode::Left4Dead.is_alias(s) {
            Some(GameMode::Left4Dead)
        } else if GameMode::Overwatch.is_alias(s) {
            Some(GameMode::Overwatch)
        } else {
            None
        }
    }

    /// No text spells two different game modes.
    pub proof fn lemma_spelling_is_of_one(s: Seq<char>, a: GameMode, b: GameMode)
        requires
            a.is_alias(s),
            b.is_alias(s),
        ensures
            a == b,
    {
        reveal_strlit("9v9");
        {
            let t = "9v9"@;
            assert(t.len() == 3 && t[0] == '9' && t[1] == 'v' && t[2] == '9');
        }
        reveal_strlit("Highlander");
        {
            let t = "Highlander"@;
            assert(t.len() == 10 && t[0] == 'H' && t[1] == 'i' && t[2] == 'g' && t[3] == 'h'
                && t[4] == 'l' && t[5] == 'a' && t[6] == 'n' && t[7] == 'd' && t[8] == 'e'
                && t[9] == 'r');
        }
        reveal_strlit("TF2 Highlander");
        {
            let t = "TF2 Highlander"@;
            assert(t.len() == 14 && t[0] == 'T' && t[1] == 'F' && t[2] == '2' && t[3] == ' '
                && t[4] == 'H' && t[5] == 'i' && t[6] == 'g' && t[7] == 'h' && t[8] == 'l'
                && t[9] == 'a' && t[10] == 'n' && t[11] == 'd' && t[12] == 'e' && t[13] == 'r');
        }
        reveal_strlit("ASIA TF2-H");
        {
            let t = "ASIA TF2-H"@;
            assert(t.len() == 10 && t[0] == 'A' && t[1] == 'S' && t[2] == 'I' && t[3] == 'A'
                && t[4] == ' ' && t[5] == 'T' && t[6] == 'F' && t[7] == '2' && t[8] == '-'
                && t[9] == 'H');
        }
        reveal_strlit("8v8");
        {
            let t = "8v8"@;
            assert(t.len() == 3 && t[0] == '8' && t[1] == 'v' && t[2] == '8');
        }
        reveal_strlit("TF2 8vs8");
        {
            let t = "TF2 8vs8"@;
            assert(t.len() == 8 && t[0] == 'T' && t[1] == 'F' && t[2] == '2' && t[3] == ' '
                && t[4] == '8' && t[5] == 'v' && t[6] == 's' && t[7] == '8');
        }
        reveal_strlit("8vs8");
        {
            let t = "8vs8"@;
            assert(t.len() == 4 && t[0] == '8' && t[1] == 'v' && t[2] == 's' && t[3] == '8');
        }
        reveal_strlit("6v6");
        {
            let t = "6v6"@;
            assert(t.len() == 3 && t[0] == '6' && t[1] == 'v' && t[2] == '6');
        }
        reveal_strlit("ASIA TF2-6");
        {
            let t = "ASIA TF2-6"@;
            assert(t.len() == 10 && t[0] == 'A' && t[1] == 'S' && t[2] == 'I' && t[3] == 'A'
                && t[4] == ' ' && t[5] == 'T' && t[6] == 'F' && t[7] == '2' && t[8] == '-'
                && t[9] == '6');
        }
        reveal_strlit("TF2 6vs6");
        {
            let t = "TF2 6vs6"@;
            assert(t.len() == 8 && t[0] == 'T' && t[1] == 'F' && t[2] == '2' && t[3] == ' '
                && t[4] == '6' && t[5] == 'v' && t[6] == 's' && t[7] == '6');
        }
        reveal_strlit("6vs6");
        {
            let t = "6vs6"@;
            assert(t.len() == 4 && t[0] == '6' && t[1] == 'v' && t[2] == 's' && t[3] == '6');
        }
        reveal_strlit("4v4");
        {
            let t = "4v4"@;
            assert(t.len() == 3 && t[0] == '4' && t[1] == 'v' && t[2] == '4');
        }
        reveal_strlit("ASIA TF2-4");
        {
            let t = "ASIA TF2-4"@;
            assert(t.len() == 10 && t[0] == 'A' && t[1] == 'S' && t[2] == 'I' && t[3] == 'A'
                && t[4] == ' ' && t[5] == 'T' && t[6] == 'F' && t[7] == '2' && t[8] == '-'
                && t[9] == '4');
        }
        reveal_strlit("TF2 4vs4");
        {
            let t = "TF2 4vs4"@;
            assert(t.len() == 8 && t[0] == 'T' && t[1] == 'F' && t[2] == '2' && t[3] == ' '
                && t[4] == '4' && t[5] == 'v' && t[6] == 's' && t[7] == '4');
        }
        reveal_strlit("4vs4");
        {
            let t = "4vs4"@;
            assert(t.len() == 4 && t[0] == '4' && t[1] == 'v' && t[2] == 's' && t[3] == '4');
        }
        reveal_strlit("2v2");
        {
            let t = "2v2"@;
            assert(t.len() == 3 && t[0] == '2' && t[1] == 'v' && t[2] == '2');
        }
        reveal_strlit("TF2 2vs2");
        {
            let t = "TF2 2vs2"@;
            assert(t.len() == 8 && t[0] == 'T' && t[1] == 'F' && t[2] == '2' && t[3] == ' '
                && t[4] == '2' && t[5] == 'v' && t[6] == 's' && t[7] == '2');
        }
        reveal_strlit("2vs2");
        {
            let t = "2vs2"@;
            assert(t.len() == 4 && t[0] == '2' && t[1] == 'v' && t[2] == 's' && t[3] == '2');
        }
        reveal_strlit("1v1");
        {
            let t = "1v1"@;
            assert(t.len() == 3 && t[0] == '1' && t[1] == 'v' && t[2] == '1');
        }
        reveal_strlit("TF2 Sol 1vs1");
        {
            let t = "TF2 Sol 1vs1"@;
            assert(t.len() == 12 && t[0] == 'T' && t[1] == 'F' && t[2] == '2' && t[3] == ' '
                && t[4] == 'S' && t[5] == 'o' && t[6] == 'l' && t[7] == ' ' && t[8] == '1'
                && t[9] == 'v' && t[10] == 's' && t[11] == '1');
        }
        reveal_strlit("Team Fortress 2 Soldier 1 vs 1 Tournament");
        {
            let t = "Team Fortress 2 Soldier 1 vs 1 Tournament"@;
            assert(t.len() == 41 && t[0] == 'T' && t[1] == 'e' && t[2] == 'a' && t[3] == 'm'
                && t[4] == ' ' && t[5] == 'F' && t[6] == 'o' && t[7] == 'r' && t[8] == 't'
                && t[9] == 'r' && t[10] == 'e' && t[11] == 's' && t[12] == 's' && t[13] == ' '
                && t[14] == '2' && t[15] == ' ' && t[16] == 'S' && t[17] == 'o' && t[18] == 'l'
                && t[19] == 'd' && t[20] == 'i' && t[21] == 'e' && t[22] == 'r' && t[23] == ' '
                && t[24] == '1' && t[25] == ' ' && t[26] == 'v' && t[27] == 's' && t[28] == ' '
                && t[29] == '1' && t[30] == ' ' && t[31] == 'T' && t[32] == 'o' && t[33] == 'u'
                && t[34] == 'r' && t[35] == 'n' && t[36] == 'a' && t[37] == 'm' && t[38] == 'e'
                && t[39] == 'n' && t[40] == 't');
        }
        reveal_strlit("ff4v4");
        {
            let t = "ff4v4"@;
            assert(t.len() == 5 && t[0] == 'f' && t[1] == 'f' && t[2] == '4' && t[3] == 'v'
                && t[4] == '4');
        }
        reveal_strlit("FF 4vs4 OvsD");
        {
            let t = "FF 4vs4 OvsD"@;
            assert(t.len() == 12 && t[0] == 'F' && t[1] == 'F' && t[2] == ' ' && t[3] == '4'
                && t[4] == 'v' && t[5] == 's' && t[6] == '4' && t[7] == ' ' && t[8] == 'O'
                && t[9] == 'v' && t[10] == 's' && t[11] == 'D');
        }
        reveal_strlit("Fortress Forever 4vs4 OvsD");
        {
            let t = "Fortress Forever 4vs4 OvsD"@;
            assert(t.len() == 26 && t[0] == 'F' && t[1] == 'o' && t[2] == 'r' && t[3] == 't'
                && t[4] == 'r' && t[5] == 'e' && t[6] == 's' && t[7] == 's' && t[8] == ' '
                && t[9] == 'F' && t[10] == 'o' && t[11] == 'r' && t[12] == 'e' && t[13] == 'v'
                && t[14] == 'e' && t[15] == 'r' && t[16] == ' ' && t[17] == '4' && t[18] == 'v'
                && t[19] == 's' && t[20] == '4' && t[21] == ' ' && t[22] == 'O' && t[23] == 'v'
                && t[24] == 's' && t[25] == 'D');
        }
        reveal_strlit("Team Fortress Classic ADL");
        {
            let t = "Team Fortress Classic ADL"@;
            assert(t.len() == 25 && t[0] == 'T' && t[1] == 'e' && t[2] == 'a' && t[3] == 'm'
                && t[4] == ' ' && t[5] == 'F' && t[6] == 'o' && t[7] == 'r' && t[8] == 't'
                && t[9] == 'r' && t[10] == 'e' && t[11] == 's' && t[12] == 's' && t[13] == ' '
                && t[14] == 'C' && t[15] == 'l' && t[16] == 'a' && t[17] == 's' && t[18] == 's'
                && t[19] == 'i' && t[20] == 'c' && t[21] == ' ' && t[22] == 'A' && t[23] == 'D'
                && t[24] == 'L');
        }
        reveal_strlit("TeamFortressClassic");
        {
            let t = "TeamFortressClassic"@;
            assert(t.len() == 19 && t[0] == 'T' && t[1] == 'e' && t[2] == 'a' && t[3] == 'm'
                && t[4] == 'F' && t[5] == 'o' && t[6] == 'r' && t[7] == 't' && t[8] == 'r'
                && t[9] == 'e' && t[10] == 's' && t[11] == 's' && t[12] == 'C' && t[13] == 'l'
                && t[14] == 'a' && t[15] == 's' && t[16] == 's' && t[17] == 'i' && t[18] == 'c');
        }
        reveal_strlit("classic");
        {
            let t = "classic"@;
            assert(t.len() == 7 && t[0] == 'c' && t[1] == 'l' && t[2] == 'a' && t[3] == 's'
                && t[4] == 's' && t[5] == 'i' && t[6] == 'c');
        }
        reveal_strlit("Left For Dead");
        {
            let t = "Left For Dead"@;
            assert(t.len() == 13 && t[0] == 'L' && t[1] == 'e' && t[2] == 'f' && t[3] == 't'
                && t[4] == ' ' && t[5] == 'F' && t[6] == 'o' && t[7] == 'r' && t[8] == ' '
                && t[9] == 'D' && t[10] == 'e' && t[11] == 'a' && t[12] == 'd');
        }
        reveal_strlit("Left 4 Dead 2 Versus League");
        {
            let t = "Left 4 Dead 2 Versus League"@;
            assert(t.len() == 27 && t[0] == 'L' && t[1] == 'e' && t[2] == 'f' && t[3] == 't'
                && t[4] == ' ' && t[5] == '4' && t[6] == ' ' && t[7] == 'D' && t[8] == 'e'
                && t[9] == 'a' && t[10] == 'd' && t[11] == ' ' && t[12] == '2' && t[13] == ' '
                && t[14] == 'V' && t[15] == 'e' && t[16] == 'r' && t[17] == 's' && t[18] == 'u'
                && t[19] == 's' && t[20] == ' ' && t[21] == 'L' && t[22] == 'e' && t[23] == 'a'
                && t[24] == 'g' && t[25] == 'u' && t[26] == 'e');
        }
        reveal_strlit("l4d");
        {
            let t = "l4d"@;
            assert(t.len() == 3 && t[0] == 'l' && t[1] == '4' && t[2] == 'd');
        }
        reveal_strlit("Overwatch");
        {
            let t = "Overwatch"@;
            assert(t.len() == 9 && t[0] == 'O' && t[1] == 'v' && t[2] == 'e' && t[3] == 'r'
                && t[4] == 'w' && t[5] == 'a' && t[6] == 't' && t[7] == 'c' && t[8] == 'h');
        }
        reveal_strlit("overwatch");
        {
            let t = "overwatch"@;
            assert(t.len() == 9 && t[0] == 'o' && t[1] == 'v' && t[2] == 'e' && t[3] == 'r'
                && t[4] == 'w' && t[5] == 'a' && t[6] == 't' && t[7] == 'c' && t[8] == 'h');
        }
    }

    /// `spelled_by` gives the game mode of which the text is a spelling, and nothing where it is a
    /// spelling of none.
    pub proof fn lemma_spelled_by(s: Seq<char>, m: GameMode)
        ensures
            GameMode::spelled_by(s) == Some(m) <==> m.is_alias(s),
            GameMode::spelled_by(s) is None <==> forall|other: GameMode| !other.is_alias(s),
    {
        if m.is_alias(s) {
            match GameMode::spelled_by(s) {
                Some(found) => {
                    Self::lemma_spelling_is_of_one(s, found, m);
                },
                None => {},
            }
        }
        if GameMode::spelled_by(s) is None {
            assert forall|other: GameMode| !other.is_alias(s) by {
                match other {
                    GameMode::Highlander => {},
                    GameMode::Eights => {},
                    GameMode::Sixes => {},
                    GameMode::Fours => {},
                    GameMode::Ultiduo => {},
                    GameMode::Ones => {},
                    GameMode::FFFours => {},
                    GameMode::Classic => {},
                    GameMode::Left4Dead => {},
                    GameMode::Overwatch => {},
                }
            }
        } else {
            assert(GameMode::spelled_by(s)->0.is_alias(s));
        }
    }

    /// The game mode that `s` spells, or the text that spells none.
    pub fn from_str(s: &str) -> (r: Result<GameMode, InvalidGameMode>)
        ensures
            match GameMode::spelled_by(s@) {
                Some(mode) => r == Ok::<GameMode, InvalidGameMode>(mode),
                None => r is Err && r->Err_0.text@ == s@,
            },
    {
        match Self::find(s) {
            Some(mode) => Ok(mode),
            None => Err(InvalidGameMode { text: s.to_owned() }),
        }
    }

    fn find(s: &str) -> (r: Option<GameMode>)
        ensures
            r == GameMode::spelled_by(s@),
    {
        if str_eq(s, "9v9") || str_eq(s, "Highlander") || str_eq(s, "TF2 Highlander") || str_eq(s, "ASIA TF2-H") {
            Some(GameMode::Highlander)
        } else if str_eq(s, "8v8") || str_eq(s, "TF2 8vs8") || str_eq(s, "8vs8") {
            Some(GameMode::Eights)
        } else if str_eq(s, "6v6") || str_eq(s, "ASIA TF2-6") || str_eq(s, "TF2 6vs6") || str_eq(s, "6vs6") {
            Some(GameMode::Sixes)
        } else if str_eq(s, "4v4") || str_eq(s, "ASIA TF2-4") || str_eq(s, "TF2 4vs4") || str_eq(s, "4vs4") {
            Some(GameMode::Fours)
        } else if str_eq(s, "2v2") || str_eq(s, "TF2 2vs2") || str_eq(s, "2vs2") {
            Some(GameMode::Ultiduo)
        } else if str_eq(s, "1v1") || str_eq(s, "TF2 Sol 1vs1") || str_eq(s, "Team Fortress 2 Soldier 1 vs 1 Tournament") {
            Some(GameMode::Ones)
        } else if str_eq(s, "ff4v4") || str_eq(s, "FF 4vs4 OvsD") || str_eq(s, "Fortress Forever 4vs4 OvsD") {
            Some(GameMode::FFFours)
        } else if str_eq(s, "Team Fortress Classic ADL") || str_eq(s, "TeamFortressClassic") || str_eq(s, "classic") {
            Some(GameMode::Classic)
        } else if str_eq(s, "Left For Dead") || str_eq(s, "Left 4 Dead 2 Versus League") || str_eq(s, "l4d") {
            Some(GameMode::Left4Dead)
        } else if str_eq(s, "Overwatch") || str_eq(s, "overwatch") {
            Some(GameMode::Overwatch)
        } else {
            None
        }
    }

    /// The part of a page's address that stands for the mode.
    pub open spec fn letter_of(self) -> Seq<char> {
        match self {
            GameMode::Highlander => "h"@,
            GameMode::Eights => "8"@,
            GameMode::Sixes => "6"@,
            GameMode::Fours => "4"@,
            GameMode::Ultiduo => "2"@,
            GameMode::Ones => "1"@,
            GameMode::FFFours => "ff4"@,
            GameMode::Classic => "classic"@,
            GameMode::Left4Dead => "l4d"@,
            GameMode::Overwatch => "overwatch"@,
        }
    }

    /// The short name of the mode.
    pub open spec fn name_of(self) -> Seq<char> {
        match self {
            GameMode::Highlander => "9v9"@,
            GameMode::Eights => "8v8"@,
            GameMode::Sixes => "6v6"@,
            GameMode::Fours => "4v4"@,
            GameMode::Ultiduo => "2v2"@,
            GameMode::Ones => "1v1"@,
            GameMode::FFFours => "ff4v4"@,
            GameMode::Classic => "classic"@,
            GameMode::Left4Dead => "l4d"@,
            GameMode::Overwatch => "overwatch"@,
        }
    }

    /// The part of a page's address that stands for the mode.
    pub fn letter(&self) -> (r: &'static str)
        ensures
            r@ == self.letter_of(),
    {
        match self {
            GameMode::Highlander => "h",
            GameMode::Eights => "8",
            GameMode::Sixes => "6",
            GameMode::Fours => "4",
            GameMode::Ultiduo => "2",
            GameMode::Ones => "1",
            GameMode::FFFours => "ff4",
            GameMode::Classic => "classic",
            GameMode::Left4Dead => "l4d",
            GameMode::Overwatch => "overwatch",
        }
    }

    /// The short name of the mode, which `from_str` reads back.
    pub fn as_str(&self) -> (r: &'static str)
        ensures
            r@ == self.name_of(),
            self.is_alias(r@),
    {
        match self {
            GameMode::Highlander => "9v9",
            GameMode::Eights => "8v8",
            GameMode::Sixes => "6v6",
            GameMode::Fours => "4v4",
            GameMode::Ultiduo => "2v2",
            GameMode::Ones => "1v1",
            GameMode::FFFours => "ff4v4",
            GameMode::Classic => "classic",
            GameMode::Left4Dead => "l4d",
            GameMode::Overwatch => "overwatch",
        }
    }

    /// Whether the mode is one of Team Fortress 2 with teams of two and more.
    pub fn is_tf2(&self) -> (r: bool)
        ensures
            r == (*self is Highlander || *self is Eights || *self is Sixes || *self is Fours
                || *self is Ultiduo),
    {
        match self {
            GameMode::Highlander
            | GameMode::Eights
            | GameMode::Sixes
            | GameMode::Fours
            | GameMode::Ultiduo => true,
            _ => false,
        }
    }
}

/// The part of the world that a team plays in.
#[derive(Debug, Clone, Copy, PartialEq, Eq, Hash)]
pub enum Region {
    Europe,
    NorthAmerica,
    SouthAmerica,
    Asia,
    Australia,
}

/// Text that spells no region.
#[derive(Debug, Clone, PartialEq, Eq)]
pub struct InvalidRegion {
    pub text: String,
}

impl InvalidRegion {
    /// The error in words.
    pub fn message(&self) -> (r: String)
        ensures
            r@ == "Invalid team region: "@ + self.text@,
    {
        let mut out = "Invalid team region: ".to_owned();
        out.append(self.text.as_str());
        out
    }
}

/// The marks that the site has wrapped a region in.
pub open spec fn region_marks() -> CharSet {
    CharSet::Three('*', '(', ')')
}

/// `s` without the marks that wrap a region.
pub open spec fn unwrapped(s: Seq<char>) -> Seq<char> {
    skip_trailing(skip_leading(s, region_marks()), region_marks())
}

impl Region {
    /// Whether `s` is one of the spellings of `self`.
    pub open spec fn is_alias(self, s: Seq<char>) -> bool {
        match self {
            Region::Europe => s == "Euro"@ || s == "Europe"@ || s == "European"@ || s == "EU"@ || s == "E.U."@,
            Region::Asia => s == "Asia"@ || s == "ASIA"@,
            Region::NorthAmerica => s == "NA"@ || s == "N.A."@ || s == "North America"@ || s == "N.America"@ || s == "N. America"@ || s == "N.Amer"@,
            Region::SouthAmerica => s == "S.Amer"@ || s == "South American"@ || s == "South America"@ || s == "S.America"@ || s == "S. America"@ || s == "SA"@ || s == "S.A."@,
            Region::Australia => s == "AUS"@ || s == "AUS/NZ"@ || s == "AUS-NZ"@,
        }
    }

    /// The region that `s` spells, if it spells one.
    pub open spec fn spelled_by(s: Seq<char>) -> Option<Region> {
        if Region::Europe.is_alias(s) {
            Some(Region::Europe)
        } else if Region::Asia.is_alias(s) {
            Some(Region::Asia)
        } else if Region::NorthAmerica.is_alias(s) {
            Some(Region::NorthAmerica)
        } else if Region::SouthAmerica.is_alias(s) {
            Some(Region::SouthAmerica)
        } else if Region::Australia.is_alias(s) {
            Some(Region::Australia)
        } else {
            None
        }
    }

    /// No text spells two different regions.
    pub proof fn lemma_spelling_is_of_one(s: Seq<char>, a: Region, b: Region)
        requires
            a.is_alias(s),
            b.is_alias(s),
        ensures
            a == b,
    {
        reveal_strlit("Euro");
        {
            let t = "Euro"@;
            assert(t.len() == 4 && t[0] == 'E' && t[1] == 'u' && t[2] == 'r' && t[3] == 'o');
        }
        reveal_strlit("Europe");
        {
            let t = "Europe"@;
            assert(t.len() == 6 && t[0] == 'E' && t[1] == 'u' && t[2] == 'r' && t[3] == 'o'
                && t[4] == 'p' && t[5] == 'e');
        }
        reveal_strlit("European");
        {
            let t = "European"@;
            assert(t.len() == 8 && t[0] == 'E' && t[1] == 'u' && t[2] == 'r' && t[3] == 'o'
                && t[4] == 'p' && t[5] == 'e' && t[6] == 'a' && t[7] == 'n');
        }
        reveal_strlit("EU");
        {
            let t = "EU"@;
            assert(t.len() == 2 && t[0] == 'E' && t[1] == 'U');
        }
        reveal_strlit("E.U.");
        {
            let t = "E.U."@;
            assert(t.len() == 4 && t[0] == 'E' && t[1] == '.' && t[2] == 'U' && t[3] == '.');
        }
        reveal_strlit("Asia");
        {
            let t = "Asia"@;
            assert(t.len() == 4 && t[0] == 'A' && t[1] == 's' && t[2] == 'i' && t[3] == 'a');
        }
        reveal_strlit("ASIA");
        {
            let t = "ASIA"@;
            assert(t.len() == 4 && t[0] == 'A' && t[1] == 'S' && t[2] == 'I' && t[3] == 'A');
        }
        reveal_strlit("NA");
        {
            let t = "NA"@;
            assert(t.len() == 2 && t[0] == 'N' && t[1] == 'A');
        }
        reveal_strlit("N.A.");
        {
            let t = "N.A."@;
            assert(t.len() == 4 && t[0] == 'N' && t[1] == '.' && t[2] == 'A' && t[3] == '.');
        }
        reveal_strlit("North America");
        {
            let t = "North America"@;
            assert(t.len() == 13 && t[0] == 'N' && t[1] == 'o' && t[2] == 'r' && t[3] == 't'
                && t[4] == 'h' && t[5] == ' ' && t[6] == 'A' && t[7] == 'm' && t[8] == 'e'
                && t[9] == 'r' && t[10] == 'i' && t[11] == 'c' && t[12] == 'a');
        }
        reveal_strlit("N.America");
        {
            let t = "N.America"@;
            assert(t.len() == 9 && t[0] == 'N' && t[1] == '.' && t[2] == 'A' && t[3] == 'm'
                && t[4] == 'e' && t[5] == 'r' && t[6] == 'i' && t[7] == 'c' && t[8] == 'a');
        }
        reveal_strlit("N. America");
        {
            let t = "N. America"@;
            assert(t.len() == 10 && t[0] == 'N' && t[1] == '.' && t[2] == ' ' && t[3] == 'A'
                && t[4] == 'm' && t[5] == 'e' && t[6] == 'r' && t[7] == 'i' && t[8] == 'c'
                && t[9] == 'a');
        }
        reveal_strlit("N.Amer");
        {
            let t = "N.Amer"@;
            assert(t.len() == 6 && t[0] == 'N' && t[1] == '.' && t[2] == 'A' && t[3] == 'm'
                && t[4] == 'e' && t[5] == 'r');
        }
        reveal_strlit("S.Amer");
        {
            let t = "S.Amer"@;
            assert(t.len() == 6 && t[0] == 'S' && t[1] == '.' && t[2] == 'A' && t[3] == 'm'
                && t[4] == 'e' && t[5] == 'r');
        }
        reveal_strlit("South American");
        {
            let t = "South American"@;
            assert(t.len() == 14 && t[0] == 'S' && t[1] == 'o' && t[2] == 'u' && t[3] == 't'
                && t[4] == 'h' && t[5] == ' ' && t[6] == 'A' && t[7] == 'm' && t[8] == 'e'
                && t[9] == 'r' && t[10] == 'i' && t[11] == 'c' && t[12] == 'a' && t[13] == 'n');
        }
        reveal_strlit("South America");
        {
            let t = "South America"@;
            assert(t.len() == 13 && t[0] == 'S' && t[1] == 'o' && t[2] == 'u' && t[3] == 't'
                && t[4] == 'h' && t[5] == ' ' && t[6] == 'A' && t[7] == 'm' && t[8] == 'e'
                && t[9] == 'r' && t[10] == 'i' && t[11] == 'c' && t[12] == 'a');
        }
        reveal_strlit("S.America");
        {
            let t = "S.America"@;
            assert(t.len() == 9 && t[0] == 'S' && t[1] == '.' && t[2] == 'A' && t[3] == 'm'
                && t[4] == 'e' && t[5] == 'r' && t[6] == 'i' && t[7] == 'c' && t[8] == 'a');
        }
        reveal_strlit("S. America");
        {
            let t = "S. America"@;
            assert(t.len() == 10 && t[0] == 'S' && t[1] == '.' && t[2] == ' ' && t[3] == 'A'
                && t[4] == 'm' && t[5] == 'e' && t[6] == 'r' && t[7] == 'i' && t[8] == 'c'
                && t[9] == 'a');
        }
        reveal_strlit("SA");
        {
            let t = "SA"@;
            assert(t.len() == 2 && t[0] == 'S' && t[1] == 'A');
        }
        reveal_strlit("S.A.");
        {
            let t = "S.A."@;
            assert(t.len() == 4 && t[0] == 'S' && t[1] == '.' && t[2] == 'A' && t[3] == '.');
        }
        reveal_strlit("AUS");
        {
            let t = "AUS"@;
            assert(t.len() == 3 && t[0] == 'A' && t[1] == 'U' && t[2] == 'S');
        }
        reveal_strlit("AUS/NZ");
        {
            let t = "AUS/NZ"@;
            assert(t.len() == 6 && t[0] == 'A' && t[1] == 'U' && t[2] == 'S' && t[3] == '/'
                && t[4] == 'N' && t[5] == 'Z');
        }
        reveal_strlit("AUS-NZ");
        {
            let t = "AUS-NZ"@;
            assert(t.len() == 6 && t[0] == 'A' && t[1] == 'U' && t[2] == 'S' && t[3] == '-'
                && t[4] == 'N' && t[5] == 'Z');
        }
    }

    /// `spelled_by` gives the region of which the text is a spelling, and nothing where it is a
    /// spelling of none.
    pub proof fn lemma_spelled_by(s: Seq<char>, m: Region)
        ensures
            Region::spelled_by(s) == Some(m) <==> m.is_alias(s),
            Region::spelled_by(s) is None <==> forall|other: Region| !other.is_alias(s),
    {
        if m.is_alias(s) {
            match Region::spelled_by(s) {
                Some(found) => {
                    Self::lemma_spelling_is_of_one(s, found, m);
                },
                None => {},
            }
        }
        if Region::spelled_by(s) is None {
            assert forall|other: Region| !other.is_alias(s) by {
                match other {
                    Region::Europe => {},
                    Region::Asia => {},
                    Region::NorthAmerica => {},
                    Region::SouthAmerica => {},
                    Region::Australia => {},
                }
            }
        } else {
            assert(Region::spelled_by(s)->0.is_alias(s));
        }
    }

    /// The region that `s` spells once the marks `*`, `(` and `)` are taken from its ends, or
    /// the text so stripped, where it spells none.
    pub fn from_str(s: &str) -> (r: Result<Region, InvalidRegion>)
        ensures
            match Region::spelled_by(unwrapped(s@)) {
                Some(region) => r == Ok::<Region, InvalidRegion>(region),
                None => r is Err && r->Err_0.text@ == unwrapped(s@),
            },
    {
        let marks = CharSet::Three('*', '(', ')');
        let s = trim_end_of(trim_start_of(s, marks), marks);
        match Self::find(s) {
            Some(region) => Ok(region),
            None => Err(InvalidRegion { text: s.to_owned() }),
        }
    }

    fn find(s: &str) -> (r: Option<Region>)
        ensures
            r == Region::spelled_by(s@),
    {
        if str_eq(s, "Euro") || str_eq(s, "Europe") || str_eq(s, "European") || str_eq(s, "EU") || str_eq(s, "E.U.") {
            Some(Region::Europe)
        } else if str_eq(s, "Asia") || str_eq(s, "ASIA") {
            Some(Region::Asia)
        } else if str_eq(s, "NA") || str_eq(s, "N.A.") || str_eq(s, "North America") || str_eq(s, "N.America") || str_eq(s, "N. America") || str_eq(s, "N.Amer") {
            Some(Region::NorthAmerica)
        } else if str_eq(s, "S.Amer") || str_eq(s, "South American") || str_eq(s, "South America") || str_eq(s, "S.America") || str_eq(s, "S. America") || str_eq(s, "SA") || str_eq(s, "S.A.") {
            Some(Region::SouthAmerica)
        } else if str_eq(s, "AUS") || str_eq(s, "AUS/NZ") || str_eq(s, "AUS-NZ") {
            Some(Region::Australia)
        } else {
            None
        }
    }
}

/// The class that a player plays.
#[derive(Debug, Clone, Copy, PartialEq, Eq, Hash, Structural)]
pub enum Class {
    Scout,
    Soldier,
    Pyro,
    Demoman,
    Engineer,
    Heavy,
    Medic,
    Sniper,
    Spy,
}

/// Text that spells no class.
#[derive(Debug, Clone, PartialEq, Eq)]
pub struct InvalidClass {
    pub text: String,
}

impl InvalidClass {
    /// The error in words.
    pub fn message(&self) -> (r: String)
        ensures
            r@ == "Invalid class "@ + self.text@,
    {
        let mut out = "Invalid class ".to_owned();
        out.append(self.text.as_str());
        out
    }
}

impl Class {
    /// Whether `s` is one of the spellings of `self`.
    pub open spec fn is_alias(self, s: Seq<char>) -> bool {
        match self {
            Class::Scout => s == "scout"@,
            Class::Soldier => s == "soldier"@,
            Class::Pyro => s == "pyro"@,
            Class::Demoman => s == "demoman"@,
            Class::Engineer => s == "engineer"@,
            Class::Heavy => s == "heavy"@,
            Class::Medic => s == "medic"@,
            Class::Sniper => s == "sniper"@,
            Class::Spy => s == "spy"@,
        }
    }

    /// The class that `s` spells, if it spells one.
    pub open spec fn spelled_by(s: Seq<char>) -> Option<Class> {
        if Class::Scout.is_alias(s) {
            Some(Class::Scout)
        } else if Class::Soldier.is_alias(s) {
            Some(Class::Soldier)
        } else if Class::Pyro.is_alias(s) {
            Some(Class::Pyro)
        } else if Class::Demoman.is_alias(s) {
            Some(Class::Demoman)
        } else if Class::Engineer.is_alias(s) {
            Some(Class::Engineer)
        } else if Class::Heavy.is_alias(s) {
            Some(Class::Heavy)
        } else if Class::Medic.is_alias(s) {
            Some(Class::Medic)
        } else if Class::Sniper.is_alias(s) {
            Some(Class::Sniper)
        } else if Class::Spy.is_alias(s) {
            Some(Class::Spy)
        } else {
            None
        }
    }

    /// No text spells two different classs.
    pub proof fn lemma_spelling_is_of_one(s: Seq<char>, a: Class, b: Class)
        requires
            a.is_alias(s),
            b.is_alias(s),
        ensures
            a == b,
    {
        reveal_strlit("scout");
        {
            let t = "scout"@;
            assert(t.len() == 5 && t[0] == 's' && t[1] == 'c' && t[2] == 'o' && t[3] == 'u'
                && t[4] == 't');
        }
        reveal_strlit("soldier");
        {
            let t = "soldier"@;
            assert(t.len() == 7 && t[0] == 's' && t[1] == 'o' && t[2] == 'l' && t[3] == 'd'
                && t[4] == 'i' && t[5] == 'e' && t[6] == 'r');
        }
        reveal_strlit("pyro");
        {
            let t = "pyro"@;
            assert(t.len() == 4 && t[0] == 'p' && t[1] == 'y' && t[2] == 'r' && t[3] == 'o');
        }
        reveal_strlit("demoman");
        {
            let t = "demoman"@;
            assert(t.len() == 7 && t[0] == 'd' && t[1] == 'e' && t[2] == 'm' && t[3] == 'o'
                && t[4] == 'm' && t[5] == 'a' && t[6] == 'n');
        }
        reveal_strlit("engineer");
        {
            let t = "engineer"@;
            assert(t.len() == 8 && t[0] == 'e' && t[1] == 'n' && t[2] == 'g' && t[3] == 'i'
                && t[4] == 'n' && t[5] == 'e' && t[6] == 'e' && t[7] == 'r');
        }
        reveal_strlit("heavy");
        {
            let t = "heavy"@;
            assert(t.len() == 5 && t[0] == 'h' && t[1] == 'e' && t[2] == 'a' && t[3] == 'v'
                && t[4] == 'y');
        }
        reveal_strlit("medic");
        {
            let t = "medic"@;
            assert(t.len() == 5 && t[0] == 'm' && t[1] == 'e' && t[2] == 'd' && t[3] == 'i'
                && t[4] == 'c');
        }
        reveal_strlit("sniper");
        {
            let t = "sniper"@;
            assert(t.len() == 6 && t[0] == 's' && t[1] == 'n' && t[2] == 'i' && t[3] == 'p'
                && t[4] == 'e' && t[5] == 'r');
        }
        reveal_strlit("spy");
        {
            let t = "spy"@;
            assert(t.len() == 3 && t[0] == 's' && t[1] == 'p' && t[2] == 'y');
        }
    }

    /// `spelled_by` gives the class of which the text is a spelling, and nothing where it is a
    /// spelling of none.
    pub proof fn lemma_spelled_by(s: Seq<char>, m: Class)
        ensures
            Class::spelled_by(s) == Some(m) <==> m.is_alias(s),
            Class::spelled_by(s) is None <==> forall|other: Class| !other.is_alias(s),
    {
        if m.is_alias(s) {
            match Class::spelled_by(s) {
                Some(found) => {
                    Self::lemma_spelling_is_of_one(s, found, m);
                },
                None => {},
            }
        }
        if Class::spelled_by(s) is None {
            assert forall|other: Class| !other.is_alias(s) by {
                match other {
                    Class::Scout => {},
                    Class::Soldier => {},
                    Class::Pyro => {},
                    Class::Demoman => {},
                    Class::Engineer => {},
                    Class::Heavy => {},
                    Class::Medic => {},
                    Class::Sniper => {},
                    Class::Spy => {},
                }
            }
        } else {
            assert(Class::spelled_by(s)->0.is_alias(s));
        }
    }

    /// The class that `s` spells, or the text that spells none.
    pub fn from_str(s: &str) -> (r: Result<Class, InvalidClass>)
        ensures
            match Class::spelled_by(s@) {
                Some(class) => r == Ok::<Class, InvalidClass>(class),
                None => r is Err && r->Err_0.text@ == s@,
            },
    {
        match Self::find(s) {
            Some(class) => Ok(class),
            None => Err(InvalidClass { text: s.to_owned() }),
        }
    }

    fn find(s: &str) -> (r: Option<Class>)
        ensures
            r == Class::spelled_by(s@),
    {
        if str_eq(s, "scout") {
            Some(Class::Scout)
        } else if str_eq(s, "soldier") {
            Some(Class::Soldier)
        } else if str_eq(s, "pyro") {
            Some(Class::Pyro)
        } else if str_eq(s, "demoman") {
            Some(Class::Demoman)
        } else if str_eq(s, "engineer") {
            Some(Class::Engineer)
        } else if str_eq(s, "heavy") {
            Some(Class::Heavy)
        } else if str_eq(s, "medic") {
            Some(Class::Medic)
        } else if str_eq(s, "sniper") {
            Some(Class::Sniper)
        } else if str_eq(s, "spy") {
            Some(Class::Spy)
        } else {
            None
        }
    }
}

/// What a member is in a team.
#[derive(Debug, Clone, Copy, PartialEq, Eq, Hash)]
pub enum MembershipRole {
    Leader,
    Member,
}

/// Text that spells no role.
#[derive(Debug, Clone, PartialEq, Eq)]
pub struct InvalidMembershipRole {
    pub text: String,
}

impl InvalidMembershipRole {
    /// The error in words.
    pub fn message(&self) -> (r: String)
        ensures
            r@ == "Invalid membership role "@ + self.text@,
    {
        let mut out = "Invalid membership role ".to_owned();
        out.append(self.text.as_str());
        out
    }
}

impl MembershipRole {
    /// Whether `s` is one of the spellings of `self`.
    pub open spec fn is_alias(self, s: Seq<char>) -> bool {
        match self {
            MembershipRole::Leader => s == "leader"@ || s == "Leader"@,
            MembershipRole::Member => s == "member"@ || s == "-"@ || s == "Member"@,
        }
    }

    /// The role that `s` spells, if it spells one.
    pub open spec fn spelled_by(s: Seq<char>) -> Option<MembershipRole> {
        if MembershipRole::Leader.is_alias(s) {
            Some(MembershipRole::Leader)
        } else if MembershipRole::Member.is_alias(s) {
            Some(MembershipRole::Member)
        } else {
            None
        }
    }

    /// No text spells two different roles.
    pub proof fn lemma_spelling_is_of_one(s: Seq<char>, a: MembershipRole, b: MembershipRole)
        requires
            a.is_alias(s),
            b.is_alias(s),
        ensures
            a == b,
    {
        reveal_strlit("leader");
        {
            let t = "leader"@;
            assert(t.len() == 6 && t[0] == 'l' && t[1] == 'e' && t[2] == 'a' && t[3] == 'd'
                && t[4] == 'e' && t[5] == 'r');
        }
        reveal_strlit("Leader");
        {
            let t = "Leader"@;
            assert(t.len() == 6 && t[0] == 'L' && t[1] == 'e' && t[2] == 'a' && t[3] == 'd'
                && t[4] == 'e' && t[5] == 'r');
        }
        reveal_strlit("member");
        {
            let t = "member"@;
            assert(t.len() == 6 && t[0] == 'm' && t[1] == 'e' && t[2] == 'm' && t[3] == 'b'
                && t[4] == 'e' && t[5] == 'r');
        }
        reveal_strlit("-");
        {
            let t = "-"@;
            assert(t.len() == 1 && t[0] == '-');
        }
        reveal_strlit("Member");
        {
            let t = "Member"@;
            assert(t.len() == 6 && t[0] == 'M' && t[1] == 'e' && t[2] == 'm' && t[3] == 'b'
                && t[4] == 'e' && t[5] == 'r');
        }
    }

    /// `spelled_by` gives the role of which the text is a spelling, and nothing where it is a
    /// spelling of none.
    pub proof fn lemma_spelled_by(s: Seq<char>, m: MembershipRole)
        ensures
            MembershipRole::spelled_by(s) == Some(m) <==> m.is_alias(s),
            MembershipRole::spelled_by(s) is None <==> forall|other: MembershipRole| !other.is_alias(s),
    {
        if m.is_alias(s) {
            match MembershipRole::spelled_by(s) {
                Some(found) => {
                    Self::lemma_spelling_is_of_one(s, found, m);
                },
                None => {},
            }
        }
        if MembershipRole::spelled_by(s) is None {
            assert forall|other: MembershipRole| !other.is_alias(s) by {
                match other {
                    MembershipRole::Leader => {},
                    MembershipRole::Member => {},
                }
            }
        } else {
            assert(MembershipRole::spelled_by(s)->0.is_alias(s));
        }
    }

    /// The role that `s` spells once white space is taken from its ends, or `s` as it came,
    /// where it spells none.
    pub fn from_str(s: &str) -> (r: Result<MembershipRole, InvalidMembershipRole>)
        ensures
            match MembershipRole::spelled_by(trimmed(s@)) {
                Some(role) => r == Ok::<MembershipRole, InvalidMembershipRole>(role),
                None => r is Err && r->Err_0.text@ == s@,
            },
    {
        match Self::find(trim(s)) {
            Some(role) => Ok(role),
            None => Err(InvalidMembershipRole { text: s.to_owned() }),
        }
    }

    fn find(s: &str) -> (r: Option<MembershipRole>)
        ensures
            r == MembershipRole::spelled_by(s@),
    {
        if str_eq(s, "leader") || str_eq(s, "Leader") {
            Some(MembershipRole::Leader)
        } else if str_eq(s, "member") || str_eq(s, "-") || str_eq(s, "Member") {
            Some(MembershipRole::Member)
        } else {
            None
        }
    }

    /// The role that `s` spells, and `Member` where it spells none.
    pub open spec fn lenient(s: Seq<char>) -> MembershipRole {
        match MembershipRole::spelled_by(trimmed(s)) {
            Some(role) => role,
            None => MembershipRole::Member,
        }
    }

    /// The role that `s` spells, and `Member` where it spells none: a roster entry is kept
    /// whatever its role reads.
    pub fn from_str_or_member(s: &str) -> (r: MembershipRole)
        ensures
            r == MembershipRole::lenient(s@),
    {
        match Self::from_str(s) {
            Ok(role) => role,
            Err(_) => MembershipRole::Member,
        }
    }
}

/// What a player did to a roster.
#[derive(Debug, Clone, Copy, PartialEq, Eq, Hash)]
pub enum TransactionAction {
    Joined,
    Left,
}

/// Text that spells no transaction.
#[derive(Debug, Clone, PartialEq, Eq)]
pub struct MallFormedTransaction {
    pub text: String,
}

impl MallFormedTransaction {
    /// The error in words.
    pub fn message(&self) -> (r: String)
        ensures
            r@ == "Invalid transaction "@ + self.text@,
    {
        let mut out = "Invalid transaction ".to_owned();
        out.append(self.text.as_str());
        out
    }
}

impl TransactionAction {
    /// Whether `s` is one of the spellings of `self`.
    pub open spec fn is_alias(self, s: Seq<char>) -> bool {
        match self {
            TransactionAction::Joined => s == "Joined"@,
            TransactionAction::Left => s == "Left"@,
        }
    }

    /// The action that `s` spells, if it spells one.
    pub open spec fn spelled_by(s: Seq<char>) -> Option<TransactionAction> {
        if TransactionAction::Joined.is_alias(s) {
            Some(TransactionAction::Joined)
        } else if TransactionAction::Left.is_alias(s) {
            Some(TransactionAction::Left)
        } else {
            None
        }
    }

    /// No text spells two different actions.
    pub proof fn lemma_spelling_is_of_one(s: Seq<char>, a: TransactionAction, b: TransactionAction)
        requires
            a.is_alias(s),
            b.is_alias(s),
        ensures
            a == b,
    {
        reveal_strlit("Joined");
        {
            let t = "Joined"@;
            assert(t.len() == 6 && t[0] == 'J' && t[1] == 'o' && t[2] == 'i' && t[3] == 'n'
                && t[4] == 'e' && t[5] == 'd');
        }
        reveal_strlit("Left");
        {
            let t = "Left"@;
            assert(t.len() == 4 && t[0] == 'L' && t[1] == 'e' && t[2] == 'f' && t[3] == 't');
        }
    }

    /// `spelled_by` gives the action of which the text is a spelling, and nothing where it is a
    /// spelling of none.
    pub proof fn lemma_spelled_by(s: Seq<char>, m: TransactionAction)
        ensures
            TransactionAction::spelled_by(s) == Some(m) <==> m.is_alias(s),
            TransactionAction::spelled_by(s) is None <==> forall|other: TransactionAction| !other.is_alias(s),
    {
        if m.is_alias(s) {
            match TransactionAction::spelled_by(s) {
                Some(found) => {
                    Self::lemma_spelling_is_of_one(s, found, m);
                },
                None => {},
            }
        }
        if TransactionAction::spelled_by(s) is None {
            assert forall|other: TransactionAction| !other.is_alias(s) by {
                match other {
                    TransactionAction::Joined => {},
                    TransactionAction::Left => {},
                }
            }
        } else {
            assert(TransactionAction::spelled_by(s)->0.is_alias(s));
        }
    }

    /// The action that `s` spells, or the text that spells none.
    pub fn from_str(s: &str) -> (r: Result<TransactionAction, MallFormedTransaction>)
        ensures
            match TransactionAction::spelled_by(s@) {
                Some(action) => r == Ok::<TransactionAction, MallFormedTransaction>(action),
                None => r is Err && r->Err_0.text@ == s@,
            },
    {
        match Self::find(s) {
            Some(action) => Ok(action),
            None => Err(MallFormedTransaction { text: s.to_owned() }),
        }
    }

    fn find(s: &str) -> (r: Option<TransactionAction>)
        ensures
            r == TransactionAction::spelled_by(s@),
    {
        if str_eq(s, "Joined") {
            Some(TransactionAction::Joined)
        } else if str_eq(s, "Left") {
            Some(TransactionAction::Left)
        } else {
            None
        }
    }
}

impl DeepView for GameMode {
    type V = GameMode;

    open spec fn deep_view(&self) -> GameMode {
        *self
    }
}

impl DeepView for Region {
    type V = Region;

    open spec fn deep_view(&self) -> Region {
        *self
    }
}

impl DeepView for Class {
    type V = Class;

    open spec fn deep_view(&self) -> Class {
        *self
    }
}

impl DeepView for MembershipRole {
    type V = MembershipRole;

    open spec fn deep_view(&self) -> MembershipRole {
        *self
    }
}

impl DeepView for TransactionAction {
    type V = TransactionAction;

    open spec fn deep_view(&self) -> TransactionAction {
        *self
    }
}

impl std::str::FromStr for GameMode {
    type Err = InvalidGameMode;

    /// Reads a game mode as `GameMode::from_str` does, for those who write `parse`: the mode
    /// that `s` spells, or the text that spells none.
    fn from_str(s: &str) -> (r: Result<GameMode, InvalidGameMode>)
        ensures
            match GameMode::spelled_by(s@) {
                Some(mode) => r == Ok::<GameMode, InvalidGameMode>(mode),
                None => r is Err && r->Err_0.text@ == s@,
            },
    {
        GameMode::from_str(s)
    }
}

impl Region {
    /// The name of the region in records that leave the library: small letters, with `-` between words.
    pub open spec fn name_of(self) -> Seq<char> {
        match self {
            Region::Europe => "europe"@,
            Region::NorthAmerica => "north-america"@,
            Region::SouthAmerica => "south-america"@,
            Region::Asia => "asia"@,
            Region::Australia => "australia"@,
        }
    }

    /// The name of the region in records that leave the library: small letters, with `-` between words.
    pub fn as_str(&self) -> (r: &'static str)
        ensures
            r@ == self.name_of(),
    {
        match self {
            Region::Europe => "europe",
            Region::NorthAmerica => "north-america",
            Region::SouthAmerica => "south-america",
            Region::Asia => "asia",
            Region::Australia => "australia",
        }
    }
}

impl std::str::FromStr for Region {
    type Err = InvalidRegion;

    /// Reads a region as `Region::from_str` does, for those who write `parse`: the region that
    /// `s` spells once the marks `*`, `(` and `)` are taken from its ends, or the text so
    /// stripped, where it spells none.
    fn from_str(s: &str) -> (r: Result<Region, InvalidRegion>)
        ensures
            match Region::spelled_by(unwrapped(s@)) {
                Some(region) => r == Ok::<Region, InvalidRegion>(region),
                None => r is Err && r->Err_0.text@ == unwrapped(s@),
            },
    {
        Region::from_str(s)
    }
}

impl Class {
    /// The short name of the class, which `from_str` reads back.
    pub open spec fn name_of(self) -> Seq<char> {
        match self {
            Class::Scout => "scout"@,
            Class::Soldier => "soldier"@,
            Class::Pyro => "pyro"@,
            Class::Demoman => "demoman"@,
            Class::Engineer => "engineer"@,
            Class::Heavy => "heavy"@,
            Class::Medic => "medic"@,
            Class::Sniper => "sniper"@,
            Class::Spy => "spy"@,
        }
    }

    /// The short name of the class, which `from_str` reads back.
    pub fn as_str(&self) -> (r: &'static str)
        ensures
            r@ == self.name_of(),
            self.is_alias(r@),
    {
        match self {
            Class::Scout => "scout",
            Class::Soldier => "soldier",
            Class::Pyro => "pyro",
            Class::Demoman => "demoman",
            Class::Engineer => "engineer",
            Class::Heavy => "heavy",
            Class::Medic => "medic",
            Class::Sniper => "sniper",
            Class::Spy => "spy",
        }
    }
}

impl std::str::FromStr for Class {
    type Err = InvalidClass;

    /// Reads a class as `Class::from_str` does, for those who write `parse`: the class that `s`
    /// spells, or the text that spells none.
    fn from_str(s: &str) -> (r: Result<Class, InvalidClass>)
        ensures
            match Class::spelled_by(s@) {
                Some(class) => r == Ok::<Class, InvalidClass>(class),
                None => r is Err && r->Err_0.text@ == s@,
            },
    {
        Class::from_str(s)
    }
}

impl MembershipRole {
    /// The short name of the role, which `from_str` reads back.
    pub open spec fn name_of(self) -> Seq<char> {
        match self {
            MembershipRole::Leader => "leader"@,
            MembershipRole::Member => "member"@,
        }
    }

    /// The short name of the role, which `from_str` reads back.
    pub fn as_str(&self) -> (r: &'static str)
        ensures
            r@ == self.name_of(),
            self.is_alias(r@),
    {
        match self {
            MembershipRole::Leader => "leader",
            MembershipRole::Member => "member",
        }
    }
}

impl std::str::FromStr for MembershipRole {
    type Err = InvalidMembershipRole;

    /// Reads a role as `MembershipRole::from_str` does, for those who write `parse`: the role
    /// that `s` spells once white space is taken from its ends, or `s` as it came, where it
    /// spells none.
    fn from_str(s: &str) -> (r: Result<MembershipRole, InvalidMembershipRole>)
        ensures
            match MembershipRole::spelled_by(trimmed(s@)) {
                Some(role) => r == Ok::<MembershipRole, InvalidMembershipRole>(role),
                None => r is Err && r->Err_0.text@ == s@,
            },
    {
        MembershipRole::from_str(s)
    }
}

impl TransactionAction {
    /// The short name of the action, which `from_str` reads back.
    pub open spec fn name_of(self) -> Seq<char> {
        match self {
            TransactionAction::Joined => "Joined"@,
            TransactionAction::Left => "Left"@,
        }
    }

    /// The short name of the action, which `from_str` reads back.
    pub fn as_str(&self) -> (r: &'static str)
        ensures
            r@ == self.name_of(),
            self.is_alias(r@),
    {
        match self {
            TransactionAction::Joined => "Joined",
            TransactionAction::Left => "Left",
        }
    }
}

impl std::str::FromStr for TransactionAction {
    type Err = MallFormedTransaction;

    /// Reads an action as `TransactionAction::from_str` does, for those who write `parse`: the
    /// action that `s` spells, or the text that spells none.
    fn from_str(s: &str) -> (r: Result<TransactionAction, MallFormedTransaction>)
        ensures
            match TransactionAction::spelled_by(s@) {
                Some(action) => r == Ok::<TransactionAction, MallFormedTransaction>(action),
                None => r is Err && r->Err_0.text@ == s@,
            },
    {
        TransactionAction::from_str(s)
    }
}

} // verus!
