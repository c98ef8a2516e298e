//! The catalog's data: card kinds and colors, stored rows, the aggregate view of
//! a card, and the payload that creates one.

use vstd::prelude::*;
use crate::assoc::{assoc_map, keys_distinct, lemma_assoc_domain, lemma_assoc_push, lemma_assoc_update, lemma_assoc_value};

verus! {

#[derive(Clone, Copy, Debug, PartialEq, Eq, Hash, Structural)]
pub enum CardType {
    Character,
    Live,
    Energy,
}

#[derive(Clone, Copy, Debug, PartialEq, Eq, Hash, Structural)]
pub enum RarityType {
    Regular,
    Parallel,
}

#[derive(Clone, Copy, Debug, PartialEq, Eq, Hash, Structural)]
pub enum HeartColor {
    Pink,
    Red,
    Yellow,
    Green,
    Blue,
    Purple,
    Gray,
}

impl View for HeartColor {
    type V = HeartColor;

    open spec fn view(&self) -> HeartColor {
        *self
    }
}

#[derive(Clone, Copy, Debug, PartialEq, Eq, Hash, Structural)]
pub enum BladeHeartColor {
    Pink,
    Red,
    Yellow,
    Green,
    Blue,
    Purple,
    All,
}

#[derive(Clone, Copy, Debug, PartialEq, Eq, Hash, Structural)]
pub enum SpecialHeart {
    Draw,
    Score,
}

/// No count of `m` is negative.
pub open spec fn counts_nonnegative(m: Map<HeartColor, i64>) -> bool {
    forall|c: HeartColor| m.contains_key(c) ==> m[c] >= 0
}

/// No pair of `s` holds a negative count.
pub open spec fn pairs_nonnegative(s: Seq<(HeartColor, i64)>) -> bool {
    forall|i: int| 0 <= i < s.len() ==> s[i].1 >= 0
}

/// Heart counts of a card, one count per color.
#[derive(Debug)]
pub struct Hearts {
    entries: Vec<(HeartColor, i64)>,
}

impl View for Hearts {
    type V = Map<HeartColor, i64>;

    closed spec fn view(&self) -> Map<HeartColor, i64> {
        assoc_map(self.entries@)
    }
}

impl Hearts {
    #[verifier::type_invariant]
    spec fn colors_distinct(self) -> bool {
        keys_distinct(self.entries@)
    }

    /// The `(color, count)` pairs in the order in which they are stored.
    pub closed spec fn pairs(&self) -> Seq<(HeartColor, i64)> {
        self.entries@
    }

    /// The counts are the map of the stored pairs.
    pub proof fn lemma_pairs(h: &Hearts)
        ensures
            assoc_map(h.pairs()) == h@,
    {
    }

    pub fn new() -> (r: Hearts)
        ensures
            r@ == Map::<HeartColor, i64>::empty(),
            r.pairs().len() == 0,
    {
        Hearts { entries: Vec::new() }
    }

    /// Sets the count of `color`, replacing an earlier one.
    pub fn insert(&mut self, color: HeartColor, count: i64)
        ensures
            final(self)@ == old(self)@.insert(color, count),
    {
        proof {
            use_type_invariant(&*self);
        }
        let mut entries: Vec<(HeartColor, i64)> = Vec::new();
        std::mem::swap(&mut entries, &mut self.entries);
        let ghost before = entries@;
        let mut i: usize = 0;
        while i < entries.len()
            invariant
                entries@ == before,
                assoc_map(before) == old(self)@,
                keys_distinct(before),
                0 <= i <= before.len(),
                forall|k: int| 0 <= k < i ==> before[k].0 != color,
            decreases before.len() - i,
        {
            if entries[i].0 == color {
                proof {
                    lemma_assoc_update(before, i as int, count);
                    assert(before[i as int].0 == color);
                }
                entries.set(i, (color, count));
                assert(entries@ == before.update(i as int, (before[i as int].0, count)));
                self.entries = entries;
                return;
            }
            i = i + 1;
        }
        proof {
            lemma_assoc_push(before, (color, count));
        }
        entries.push((color, count));
        self.entries = entries;
    }

    /// The count of `color`, if it has one.
    pub fn get(&self, color: HeartColor) -> (r: Option<i64>)
        ensures
            r == (if self@.contains_key(color) { Some(self@[color]) } else { None::<i64> }),
    {
        proof {
            use_type_invariant(self);
            lemma_assoc_domain(self.entries@, color);
        }
        let mut i: usize = 0;
        while i < self.entries.len()
            invariant
                0 <= i <= self.entries@.len(),
                keys_distinct(self.entries@),
                forall|k: int| 0 <= k < i ==> self.entries@[k].0 != color,
            decreases self.entries@.len() - i,
        {
            if self.entries[i].0 == color {
                proof {
                    lemma_assoc_value(self.entries@, i as int);
                }
                return Some(self.entries[i].1);
            }
            i = i + 1;
        }
        None
    }

    /// No count is negative.
    pub fn counts_nonnegative(&self) -> (r: bool)
        ensures
            r == counts_nonnegative(self@),
            r == pairs_nonnegative(self.pairs()),
            !self@.dom().is_empty() ==> self.pairs().len() > 0,
    {
        proof {
            use_type_invariant(self);
            if self.entries@.len() == 0 {
                assert(self@ == Map::<HeartColor, i64>::empty());
            }
        }
        let mut i: usize = 0;
        while i < self.entries.len()
            invariant
                0 <= i <= self.entries@.len(),
                keys_distinct(self.entries@),
                pairs_nonnegative(self.entries@.subrange(0, i as int)),
            decreases self.entries@.len() - i,
        {
            if self.entries[i].1 < 0 {
                proof {
                    lemma_assoc_value(self.entries@, i as int);
                }
                return false;
            }
            proof {
                assert(pairs_nonnegative(self.entries@.subrange(0, i + 1))) by {
                    assert forall|k: int| 0 <= k < i + 1 implies #[trigger] self.entries@.subrange(0, i + 1)[k].1 >= 0 by {
                        if k < i {
                            assert(self.entries@.subrange(0, i + 1)[k] == self.entries@.subrange(0, i as int)[k]);
                        }
                    }
                }
            }
            i = i + 1;
        }
        proof {
            assert(self.entries@.subrange(0, i as int) =~= self.entries@);
            assert forall|c: HeartColor| self@.contains_key(c) implies self@[c] >= 0 by {
                lemma_assoc_domain(self.entries@, c);
                let j = choose|j: int| 0 <= j < self.entries@.len() && self.entries@[j].0@ == c;
                lemma_assoc_value(self.entries@, j);
            }
        }
        true
    }

    /// No color has a count.
    pub fn is_empty(&self) -> (r: bool)
        ensures
            r <==> self@.dom().is_empty(),
    {
        proof {
            use_type_invariant(self);
            if self.entries@.len() > 0 {
                lemma_assoc_value(self.entries@, 0);
                assert(self@.dom().contains(self.entries@[0].0));
            } else {
                assert(self@.dom() =~= Set::<HeartColor>::empty());
            }
        }
        self.entries.len() == 0
    }

    /// The stored pairs, each color once.
    pub fn entries(&self) -> (r: &Vec<(HeartColor, i64)>)
        ensures
            r@ == self.pairs(),
            keys_distinct(r@),
    {
        proof {
            use_type_invariant(self);
        }
        &self.entries
    }

    /// Gathers read-back rows into counts; a later row for a color wins.
    pub fn from_rows(rows: &Vec<(HeartColor, i64)>) -> (r: Hearts)
        ensures
            r@ == assoc_map(rows@),
    {
        let mut h = Hearts::new();
        let mut i: usize = 0;
        while i < rows.len()
            invariant
                0 <= i <= rows@.len(),
                h@ == assoc_map(rows@.subrange(0, i as int)),
            decreases rows@.len() - i,
        {
            proof {
                lemma_assoc_push(rows@.subrange(0, i as int), rows@[i as int]);
                assert(rows@.subrange(0, i as int).push(rows@[i as int]) =~= rows@.subrange(0, i + 1));
            }
            h.insert(rows[i].0, rows[i].1);
            i = i + 1;
        }
        assert(rows@.subrange(0, rows@.len() as int) =~= rows@);
        h
    }
}

/// A set of cards, known by its code.
#[derive(Clone, Debug, PartialEq, Eq)]
pub struct CardSet {
    pub id: i64,
    pub set_code: String,
    pub name: String,
}

#[derive(Clone, Debug, PartialEq, Eq)]
pub struct Group {
    pub id: i64,
    pub name: String,
}

#[derive(Clone, Debug, PartialEq, Eq)]
pub struct Unit {
    pub id: i64,
    pub name: String,
}

/// The base row of a card, with its canonical name.
#[derive(Clone, Debug, PartialEq, Eq)]
pub struct Card {
    pub id: i64,
    pub series_code: String,
    pub set_code: String,
    pub number_in_set: String,
    pub name: String,
    pub card_type: CardType,
}

/// One physical printing of a card.
#[derive(Clone, Debug, PartialEq, Eq)]
pub struct Printing {
    pub id: i64,
    pub card_id: i64,
    pub rarity_code: String,
    pub rarity_type: RarityType,
    pub image_url: Option<String>,
}

/// One stored heart count of a card.
#[derive(Clone, Copy, Debug, PartialEq, Eq)]
pub struct CardHeart {
    pub card_id: i64,
    pub color: HeartColor,
    pub count: i64,
}

#[derive(Clone, Copy, Debug, PartialEq, Eq)]
pub struct CharacterCard {
    pub card_id: i64,
    pub cost: i64,
    pub blades: i64,
    pub blade_heart: Option<BladeHeartColor>,
}

#[derive(Clone, Copy, Debug, PartialEq, Eq)]
pub struct LiveCard {
    pub card_id: i64,
    pub score: i64,
    pub blade_heart: Option<BladeHeartColor>,
    pub special_heart: Option<SpecialHeart>,
}

/// The stored attributes that only one kind of card has.
#[derive(Clone, Copy, Debug, PartialEq, Eq)]
pub enum CardTypeSpecifics {
    Character(CharacterCard),
    Live(LiveCard),
}

/// Everything known of one card, gathered from all tables.
#[derive(Debug)]
pub struct FullCard {
    pub base: Card,
    pub set_name: String,
    pub groups: Vec<String>,
    pub units: Vec<String>,
    pub skills: Vec<String>,
    pub hearts: Hearts,
    pub printings: Vec<Printing>,
    pub type_specifics: Option<CardTypeSpecifics>,
}

/// Attributes of a Character card to be created.
#[derive(Debug)]
pub struct CreateCharacterCard {
    pub cost: i64,
    pub blades: i64,
    pub hearts: Hearts,
    pub blade_heart: Option<BladeHeartColor>,
}

/// Attributes of a Live card to be created.
#[derive(Debug)]
pub struct CreateLiveCard {
    pub score: i64,
    pub hearts: Hearts,
    pub blade_heart: Option<BladeHeartColor>,
    pub special_heart: Option<SpecialHeart>,
}

#[derive(Debug)]
pub enum CreateCardTypeSpecifics {
    Character(CreateCharacterCard),
    Live(CreateLiveCard),
}

/// A validated request to create a card: the identifier is split into its
/// segments and the specifics agree with the card type.
#[derive(Debug)]
pub struct CreateCard {
    pub name: String,
    pub card_type: CardType,
    pub groups: Vec<String>,
    pub units: Vec<String>,
    pub skills: Vec<String>,
    pub image_url: Option<String>,
    pub type_specifics: Option<CreateCardTypeSpecifics>,
    pub series_code: String,
    pub set_code: String,
    pub number_in_set: String,
    pub rarity_code: String,
}

/// A new rarity mapping.
#[derive(Clone, Debug, PartialEq, Eq)]
pub struct CreateRarity {
    pub rarity_code: String,
    pub rarity_type: RarityType,
}

/// A new spelling variant of a card name.
#[derive(Clone, Debug, PartialEq, Eq)]
pub struct CreateNameVariant {
    pub variant_name: String,
    pub canonical_name: String,
}

/// A new spelling variant of a group name.
#[derive(Clone, Debug, PartialEq, Eq)]
pub struct CreateGroupVariant {
    pub variant_name: String,
    pub canonical_name: String,
}

} // verus!
