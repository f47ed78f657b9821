//! A game as the catalog stores it: a name, an id, how well it runs, and the
//! set of compatibility layers it needs.

use crate::grade::{repeat_text, repeated_letter};
use vstd::prelude::*;

verus! {

#[derive(Clone, Copy, Debug, PartialEq, Eq, Structural)]
pub enum SupportLevel {
    PERFECT,
    GREAT,
    GOOD,
    BAD,
    FAIL,
}

#[derive(Clone, Copy, Debug, PartialEq, Eq, Structural)]
pub enum CompatibilityLayerItem {
    WINE,
    LATX,
    LATA,
    BOX64,
}

/// The set of layers that a game needs, one flag for each layer.
#[derive(Clone, Copy, Debug, PartialEq, Eq, Structural)]
pub struct Compatibility {
    pub wine: bool,
    pub latx: bool,
    pub lata: bool,
    pub box64: bool,
}

#[derive(Debug)]
pub struct Model {
    pub name: String,
    pub id: u32,
    pub supportlevel: SupportLevel,
    pub compat: Compatibility,
}

impl SupportLevel {
    /// The number under which the level is stored.
    pub open spec fn number(self) -> u8 {
        match self {
            SupportLevel::PERFECT => 0,
            SupportLevel::GREAT => 1,
            SupportLevel::GOOD => 2,
            SupportLevel::BAD => 3,
            SupportLevel::FAIL => 4,
        }
    }

    /// The letter of a grade: `S` for the best level, then `A` to `D`.
    pub open spec fn letter(self) -> char {
        match self {
            SupportLevel::PERFECT => 'S',
            SupportLevel::GREAT => 'A',
            SupportLevel::GOOD => 'B',
            SupportLevel::BAD => 'C',
            SupportLevel::FAIL => 'D',
        }
    }

    pub fn to_number(self) -> (n: u8)
        ensures
            n == self.number(),
    {
        match self {
            SupportLevel::PERFECT => 0,
            SupportLevel::GREAT => 1,
            SupportLevel::GOOD => 2,
            SupportLevel::BAD => 3,
            SupportLevel::FAIL => 4,
        }
    }

    /// The level stored under a number, if there is one.
    pub fn from_number(n: u8) -> (r: Option<SupportLevel>)
        ensures
            r.is_some() == (n <= 4),
            r matches Some(level) ==> level.number() == n,
    {
        if n == 0 {
            Some(SupportLevel::PERFECT)
        } else if n == 1 {
            Some(SupportLevel::GREAT)
        } else if n == 2 {
            Some(SupportLevel::GOOD)
        } else if n == 3 {
            Some(SupportLevel::BAD)
        } else if n == 4 {
            Some(SupportLevel::FAIL)
        } else {
            None
        }
    }

    /// The letter as a text of one character.
    pub fn letter_text(self) -> (text: &'static str)
        ensures
            text@ == seq![self.letter()],
    {
        proof {
            reveal_strlit("S");
            reveal_strlit("A");
            reveal_strlit("B");
            reveal_strlit("C");
            reveal_strlit("D");
        }
        let text = match self {
            SupportLevel::PERFECT => "S",
            SupportLevel::GREAT => "A",
            SupportLevel::GOOD => "B",
            SupportLevel::BAD => "C",
            SupportLevel::FAIL => "D",
        };
        assert(text@ =~= seq![self.letter()]);
        text
    }
}

impl CompatibilityLayerItem {
    /// The bit that stands for the layer in a stored set.
    pub open spec fn bit(self) -> u32 {
        match self {
            CompatibilityLayerItem::WINE => 1,
            CompatibilityLayerItem::LATX => 2,
            CompatibilityLayerItem::LATA => 4,
            CompatibilityLayerItem::BOX64 => 8,
        }
    }

    pub fn to_bit(self) -> (bit: u32)
        ensures
            bit == self.bit(),
    {
        match self {
            CompatibilityLayerItem::WINE => 1,
            CompatibilityLayerItem::LATX => 2,
            CompatibilityLayerItem::LATA => 4,
            CompatibilityLayerItem::BOX64 => 8,
        }
    }
}

/// One if the flag is set, else zero.
pub open spec fn flag(set: bool) -> int {
    if set {
        1
    } else {
        0
    }
}

impl View for Compatibility {
    type V = Set<CompatibilityLayerItem>;

    open spec fn view(&self) -> Set<CompatibilityLayerItem> {
        Set::new(|item: CompatibilityLayerItem| self.has(item))
    }
}

impl Compatibility {
    /// Whether the set holds the layer.
    pub open spec fn has(self, item: CompatibilityLayerItem) -> bool {
        match item {
            CompatibilityLayerItem::WINE => self.wine,
            CompatibilityLayerItem::LATX => self.latx,
            CompatibilityLayerItem::LATA => self.lata,
            CompatibilityLayerItem::BOX64 => self.box64,
        }
    }

    /// Whether the set holds no layer.
    pub open spec fn none(self) -> bool {
        !self.wine && !self.latx && !self.lata && !self.box64
    }

    /// The number under which the set is stored: the sum of its layers' bits.
    pub open spec fn stored(self) -> int {
        flag(self.wine) + 2 * flag(self.latx) + 4 * flag(self.lata) + 8 * flag(self.box64)
    }

    /// How often a grade's letter is written: three times for a game that
    /// needs no layer, twice for one that needs WINE alone or gets by
    /// without WINE, once for one that needs WINE together with another
    /// layer.
    pub open spec fn copies(self) -> nat {
        if self.none() {
            3
        } else if self.wine && (self.latx || self.lata || self.box64) {
            1
        } else {
            2
        }
    }

    /// The set without any layer.
    pub fn empty() -> (r: Compatibility)
        ensures
            r.none(),
            r@ == Set::<CompatibilityLayerItem>::empty(),
    {
        let r = Compatibility { wine: false, latx: false, lata: false, box64: false };
        assert(r@ =~= Set::<CompatibilityLayerItem>::empty());
        r
    }

    /// The set with one more layer.
    pub fn with(self, item: CompatibilityLayerItem) -> (r: Compatibility)
        ensures
            r@ == self@.insert(item),
            forall|other: CompatibilityLayerItem| r.has(other) == (other == item || self.has(other)),
    {
        let r = match item {
            CompatibilityLayerItem::WINE => Compatibility { wine: true, ..self },
            CompatibilityLayerItem::LATX => Compatibility { latx: true, ..self },
            CompatibilityLayerItem::LATA => Compatibility { lata: true, ..self },
            CompatibilityLayerItem::BOX64 => Compatibility { box64: true, ..self },
        };
        assert(r@ =~= self@.insert(item));
        r
    }

    pub fn is_empty(&self) -> (r: bool)
        ensures
            r == self.none(),
            r == (self@ == Set::<CompatibilityLayerItem>::empty()),
    {
        proof {
            if self.none() {
                assert(self@ =~= Set::<CompatibilityLayerItem>::empty());
            } else {
                let item = if self.wine {
                    CompatibilityLayerItem::WINE
                } else if self.latx {
                    CompatibilityLayerItem::LATX
                } else if self.lata {
                    CompatibilityLayerItem::LATA
                } else {
                    CompatibilityLayerItem::BOX64
                };
                assert(self@.contains(item));
            }
        }
        !self.wine && !self.latx && !self.lata && !self.box64
    }

    pub fn contains(&self, item: CompatibilityLayerItem) -> (r: bool)
        ensures
            r == self.has(item),
            r == self@.contains(item),
    {
        match item {
            CompatibilityLayerItem::WINE => self.wine,
            CompatibilityLayerItem::LATX => self.latx,
            CompatibilityLayerItem::LATA => self.lata,
            CompatibilityLayerItem::BOX64 => self.box64,
        }
    }

    /// The number under which the set is stored.
    pub fn bits(&self) -> (r: u32)
        ensures
            r == self.stored(),
            r <= 15,
    {
        let mut r: u32 = 0;
        if self.wine {
            r = r + 1;
        }
        if self.latx {
            r = r + 2;
        }
        if self.lata {
            r = r + 4;
        }
        if self.box64 {
            r = r + 8;
        }
        r
    }

    /// The set stored under a number; `None` for a number with a bit that
    /// stands for no layer.
    pub fn from_bits(bits: u32) -> (r: Option<Compatibility>)
        ensures
            r.is_some() == (bits <= 15),
            r matches Some(set) ==> set.stored() == bits,
    {
        if bits > 15 {
            None
        } else {
            Some(
                Compatibility {
                    wine: bits % 2 == 1,
                    latx: (bits / 2) % 2 == 1,
                    lata: (bits / 4) % 2 == 1,
                    box64: bits / 8 == 1,
                },
            )
        }
    }

    /// Two sets stored under the same number hold the same layers.
    pub proof fn stored_is_injective(a: Compatibility, b: Compatibility)
        requires
            a.stored() == b.stored(),
        ensures
            a == b,
    {
    }

    pub fn copy_count(&self) -> (count: usize)
        ensures
            count == self.copies(),
    {
        if self.is_empty() {
            3
        } else if self.wine && (self.latx || self.lata || self.box64) {
            1
        } else {
            2
        }
    }
}

impl Model {
    /// The grade: the level's letter, once for each copy that the set of
    /// layers gives.
    pub open spec fn grade(self) -> Seq<char> {
        Seq::new(self.compat.copies(), |i: int| self.supportlevel.letter())
    }

    /// Creates a new [`Model`].
    pub fn new(
        name: String,
        id: u32,
        support_level: SupportLevel,
        compatibility: Compatibility,
    ) -> (model: Model)
        ensures
            model.name == name,
            model.id == id,
            model.supportlevel == support_level,
            model.compat == compatibility,
    {
        Model { name, id, supportlevel: support_level, compat: compatibility }
    }

    pub fn grading(self) -> (grade: String)
        ensures
            grade@ == self.grade(),
    {
        let letter = self.supportlevel.letter_text();
        let count = self.compat.copy_count();
        proof {
            repeated_letter(self.supportlevel.letter(), count as nat);
        }
        repeat_text(letter, count)
    }
}

} // verus!
