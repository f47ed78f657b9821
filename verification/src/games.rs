//! A game of the catalog, with the help it needs to run given as one layer.

use crate::grade::{repeat_text, repeated_letter};
use vstd::prelude::*;

verus! {

#[derive(Clone, Copy, Debug, PartialEq, Eq, Structural)]
pub enum SupportLevel {
    PERFECT,
    GREAT,
    GOOD,
    BAD,
    FAIL,
}

#[derive(Clone, Copy, Debug, PartialEq, Eq, Structural)]
pub enum TranslationLayer {
    LATX,
    BOX64,
    LATA,
}

#[derive(Clone, Copy, Debug, PartialEq, Eq, Structural)]
pub enum CompatibilityLayer {
    NONE,
    TRANSLATE(TranslationLayer),
    WINE,
    BOTH(TranslationLayer),
}

pub struct Game {
    pub name: String,
    pub id: u64,
    pub supportlevel: SupportLevel,
    pub compatlayer: CompatibilityLayer,
}

impl SupportLevel {
    /// The letter of a grade: `S` for the best level, then `A` to `D`.
    pub open spec fn letter(self) -> char {
        match self {
            SupportLevel::PERFECT => 'S',
            SupportLevel::GREAT => 'A',
            SupportLevel::GOOD => 'B',
            SupportLevel::BAD => 'C',
            SupportLevel::FAIL => 'D',
        }
    }

    /// The letter as a text of one character.
    pub fn letter_text(self) -> (text: &'static str)
        ensures
            text@ == seq![self.letter()],
    {
        proof {
            reveal_strlit("S");
            reveal_strlit("A");
            reveal_strlit("B");
            reveal_strlit("C");
            reveal_strlit("D");
        }
        let text = match self {
            SupportLevel::PERFECT => "S",
            SupportLevel::GREAT => "A",
            SupportLevel::GOOD => "B",
            SupportLevel::BAD => "C",
            SupportLevel::FAIL => "D",
        };
        assert(text@ =~= seq![self.letter()]);
        text
    }
}

impl CompatibilityLayer {
    /// How often the letter is written: three times for a game that needs no
    /// layer, twice for one that needs a single layer, once for one that
    /// needs both.
    pub open spec fn copies(self) -> nat {
        match self {
            CompatibilityLayer::NONE => 3,
            CompatibilityLayer::TRANSLATE(_) => 2,
            CompatibilityLayer::WINE => 2,
            CompatibilityLayer::BOTH(_) => 1,
        }
    }

    pub fn copy_count(self) -> (count: usize)
        ensures
            count == self.copies(),
    {
        match self {
            CompatibilityLayer::BOTH(_) => 1,
            CompatibilityLayer::NONE => 3,
            _ => 2,
        }
    }
}

impl Game {
    /// The grade: the level's letter, once for each copy that the layer gives.
    pub open spec fn grade(self) -> Seq<char> {
        Seq::new(self.compatlayer.copies(), |i: int| self.supportlevel.letter())
    }

    /// Creates a new [`Game`].
    pub fn new(
        name: String,
        id: u64,
        support_level: SupportLevel,
        compatibility_layer: CompatibilityLayer,
    ) -> (game: Game)
        ensures
            game.name == name,
            game.id == id,
            game.supportlevel == support_level,
            game.compatlayer == compatibility_layer,
    {
        Game { name, id, supportlevel: support_level, compatlayer: compatibility_layer }
    }

    pub fn grading(self) -> (grade: String)
        ensures
            grade@ == self.grade(),
    {
        let letter = self.supportlevel.letter_text();
        let count = self.compatlayer.copy_count();
        proof {
            repeated_letter(self.supportlevel.letter(), count as nat);
        }
        repeat_text(letter, count)
    }
}

} // verus!
