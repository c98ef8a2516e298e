//! The card-creation unit of work.
//!
//! A batch of validated cards is written inside one transaction. The unit of
//! work decides, from the storage layer's reply to each request, the next
//! request, the commit, or the rollback; the caller performs them. Every card
//! is written in a fixed order: its canonical name, the base row, the
//! specifics, the printing, the heart counts, then the group, unit and skill
//! links. A missing group or unit, or any storage failure, rolls the whole
//! batch back.

use vstd::prelude::*;
use vstd::string::*;
use crate::cache::{canonical_of, lookup_canonical, lookup_rarity, rarity_of, KeyedCache};
use crate::errors::{DbError, StorageFailure};
use crate::models::{
    CardHeart, CardType, CharacterCard, CreateCard, CreateCardTypeSpecifics, HeartColor, LiveCard, RarityType,
};

verus! {

/// A card ready to be written: its request, with the name and group names in
/// canonical form and the rarity type resolved.
#[derive(Debug)]
pub struct CreationPlan {
    pub card: CreateCard,
    pub canonical_name: String,
    pub rarity_type: RarityType,
    pub groups: Vec<String>,
    /// `series-set-number`: the key named by a conflict on the base row.
    pub identity: String,
}

/// The identity of a card: its series, set and number joined by hyphens.
pub open spec fn identity_of(c: CreateCard) -> Seq<char> {
    c.series_code@ + "-"@ + c.set_code@ + "-"@ + c.number_in_set@
}

/// `plan` is what `card` becomes under the three mappings.
pub open spec fn planned(
    plan: CreationPlan,
    card: CreateCard,
    rarities: Map<Seq<char>, RarityType>,
    names: Map<Seq<char>, String>,
    group_names: Map<Seq<char>, String>,
) -> bool {
    &&& plan.card == card
    &&& plan.canonical_name@ == canonical_of(names, card.name@)
    &&& plan.rarity_type == rarity_of(rarities, card.rarity_code@)
    &&& plan.groups@.len() == card.groups@.len()
    &&& forall|i: int| 0 <= i < card.groups@.len() ==> #[trigger] plan.groups@[i]@ == canonical_of(group_names, card.groups@[i]@)
    &&& plan.identity@ == identity_of(card)
}

impl CreationPlan {
    /// Resolves the rarity type and canonicalizes the name and the group names.
    pub fn new(
        card: CreateCard,
        rarities: &KeyedCache<RarityType>,
        names: &KeyedCache<String>,
        group_names: &KeyedCache<String>,
    ) -> (r: CreationPlan)
        ensures
            planned(r, card, rarities@, names@, group_names@),
    {
        let rarity_type = lookup_rarity(rarities, &card.rarity_code);
        let canonical_name = lookup_canonical(names, &card.name);
        let mut groups: Vec<String> = Vec::new();
        let mut i: usize = 0;
        while i < card.groups.len()
            invariant
                0 <= i <= card.groups@.len(),
                groups@.len() == i,
                forall|k: int| 0 <= k < i ==> #[trigger] groups@[k]@ == canonical_of(group_names@, card.groups@[k]@),
            decreases card.groups@.len() - i,
        {
            let g = lookup_canonical(group_names, &card.groups[i]);
            groups.push(g);
            i = i + 1;
        }
        let identity = card.series_code.clone().concat("-").concat(card.set_code.as_str()).concat("-").concat(
            card.number_in_set.as_str(),
        );
        proof {
            reveal_strlit("-");
        }
        CreationPlan { card, canonical_name, rarity_type, groups, identity }
    }
}

/// Plans every card of a batch, in order.
pub fn plan_batch(
    cards: Vec<CreateCard>,
    rarities: &KeyedCache<RarityType>,
    names: &KeyedCache<String>,
    group_names: &KeyedCache<String>,
) -> (r: Vec<CreationPlan>)
    ensures
        r@.len() == cards@.len(),
        forall|i: int| 0 <= i < cards@.len() ==> #[trigger] planned(r@[i], cards@[i], rarities@, names@, group_names@),
{
    let ghost all = cards@;
    let mut plans: Vec<CreationPlan> = Vec::new();
    for card in it: cards.into_iter()
        invariant
            it.seq() == all,
            plans@.len() == it.index(),
            forall|i: int| 0 <= i < plans@.len() ==> #[trigger] planned(plans@[i], all[i], rarities@, names@, group_names@),
    {
        plans.push(CreationPlan::new(card, rarities, names, group_names));
    }
    plans
}

/// The counts that a plan writes, in order.
pub open spec fn heart_pairs(plan: CreationPlan) -> Seq<(HeartColor, i64)> {
    match plan.card.type_specifics {
        Some(CreateCardTypeSpecifics::Character(c)) => c.hearts.pairs(),
        Some(CreateCardTypeSpecifics::Live(l)) => l.hearts.pairs(),
        None => Seq::empty(),
    }
}

/// A place in the sequence of writes of one card.
#[derive(Clone, Copy, Debug, PartialEq, Eq, Structural)]
pub enum Cursor {
    Name,
    Card,
    Specifics,
    Printing,
    Heart(usize),
    Group(usize),
    Unit(usize),
    Skill(usize),
}

pub open spec fn cursor_rank(c: Cursor) -> nat {
    match c {
        Cursor::Name => 7,
        Cursor::Card => 6,
        Cursor::Specifics => 5,
        Cursor::Printing => 4,
        Cursor::Heart(_) => 3,
        Cursor::Group(_) => 2,
        Cursor::Unit(_) => 1,
        Cursor::Skill(_) => 0,
    }
}

/// The first write at or after `c` that the plan has, if any.
pub open spec fn settle(plan: CreationPlan, c: Cursor) -> Option<Cursor>
    decreases cursor_rank(c),
{
    match c {
        Cursor::Specifics => if plan.card.type_specifics is Some {
            Some(c)
        } else {
            Some(Cursor::Printing)
        },
        Cursor::Heart(i) => if i < heart_pairs(plan).len() {
            Some(c)
        } else {
            settle(plan, Cursor::Group(0))
        },
        Cursor::Group(i) => if i < plan.groups@.len() {
            Some(c)
        } else {
            settle(plan, Cursor::Unit(0))
        },
        Cursor::Unit(i) => if i < plan.card.units@.len() {
            Some(c)
        } else {
            settle(plan, Cursor::Skill(0))
        },
        Cursor::Skill(i) => if i < plan.card.skills@.len() {
            Some(c)
        } else {
            None
        },
        _ => Some(c),
    }
}

/// The write after `c`, if any.
pub open spec fn next_cursor(plan: CreationPlan, c: Cursor) -> Option<Cursor> {
    match c {
        Cursor::Name => settle(plan, Cursor::Card),
        Cursor::Card => settle(plan, Cursor::Specifics),
        Cursor::Specifics => settle(plan, Cursor::Printing),
        Cursor::Printing => settle(plan, Cursor::Heart(0)),
        Cursor::Heart(i) => settle(plan, Cursor::Heart((i + 1) as usize)),
        Cursor::Group(i) => settle(plan, Cursor::Group((i + 1) as usize)),
        Cursor::Unit(i) => settle(plan, Cursor::Unit((i + 1) as usize)),
        Cursor::Skill(i) => settle(plan, Cursor::Skill((i + 1) as usize)),
    }
}

/// `c` names a write that the plan has.
pub open spec fn cursor_valid(plan: CreationPlan, c: Cursor) -> bool {
    match c {
        Cursor::Specifics => plan.card.type_specifics is Some,
        Cursor::Heart(i) => i < heart_pairs(plan).len(),
        Cursor::Group(i) => i < plan.groups@.len(),
        Cursor::Unit(i) => i < plan.card.units@.len(),
        Cursor::Skill(i) => i < plan.card.skills@.len(),
        _ => true,
    }
}

pub proof fn lemma_settle_valid(plan: CreationPlan, c: Cursor)
    ensures
        settle(plan, c) matches Some(d) ==> cursor_valid(plan, d),
        cursor_valid(plan, c) ==> settle(plan, c) == Some(c),
    decreases cursor_rank(c),
{
    match c {
        Cursor::Heart(_) => lemma_settle_valid(plan, Cursor::Group(0)),
        Cursor::Group(_) => lemma_settle_valid(plan, Cursor::Unit(0)),
        Cursor::Unit(_) => lemma_settle_valid(plan, Cursor::Skill(0)),
        _ => {},
    }
}

/// One storage request of a unit of work.
#[derive(Debug, PartialEq, Eq)]
pub enum StoreRequest {
    /// Insert the name unless it is there; reply with its id.
    PutName { name: String },
    /// Insert the base row of a card; reply with its id.
    PutCard { series_code: String, set_code: String, number_in_set: String, name_id: i64, card_type: CardType },
    PutCharacter(CharacterCard),
    PutLive(LiveCard),
    PutPrinting { card_id: i64, rarity_code: String, rarity_type: RarityType, image_url: Option<String> },
    PutHeart(CardHeart),
    /// Link the card to the group of this name; reply `Missing` if there is none.
    LinkGroup { card_id: i64, group_name: String },
    /// Link the card to the unit of this name; reply `Missing` if there is none.
    LinkUnit { card_id: i64, unit_name: String },
    /// Insert the skill unless it is there, and link the card to it.
    LinkSkill { card_id: i64, skill_text: String },
}

/// The storage layer's answer to a request.
#[derive(Debug)]
pub enum StoreReply {
    Written,
    Id(i64),
    Missing,
    Failed(StorageFailure),
}

/// The request that a plan makes at `c`, given the ids received so far.
pub open spec fn request_at(plan: CreationPlan, c: Cursor, name_id: i64, card_id: i64) -> StoreRequest {
    match c {
        Cursor::Name => StoreRequest::PutName { name: plan.canonical_name },
        Cursor::Card => StoreRequest::PutCard {
            series_code: plan.card.series_code,
            set_code: plan.card.set_code,
            number_in_set: plan.card.number_in_set,
            name_id,
            card_type: plan.card.card_type,
        },
        Cursor::Specifics => match plan.card.type_specifics {
            Some(CreateCardTypeSpecifics::Live(l)) => StoreRequest::PutLive(
                LiveCard { card_id, score: l.score, blade_heart: l.blade_heart, special_heart: l.special_heart },
            ),
            Some(CreateCardTypeSpecifics::Character(ch)) => StoreRequest::PutCharacter(
                CharacterCard { card_id, cost: ch.cost, blades: ch.blades, blade_heart: ch.blade_heart },
            ),
            // Not a cursor of the plan: a card without specifics skips this write.
            None => StoreRequest::PutCharacter(CharacterCard { card_id, cost: 0, blades: 0, blade_heart: None }),
        },
        Cursor::Printing => StoreRequest::PutPrinting {
            card_id,
            rarity_code: plan.card.rarity_code,
            rarity_type: plan.rarity_type,
            image_url: plan.card.image_url,
        },
        Cursor::Heart(i) => StoreRequest::PutHeart(
            CardHeart { card_id, color: heart_pairs(plan)[i as int].0, count: heart_pairs(plan)[i as int].1 },
        ),
        Cursor::Group(i) => StoreRequest::LinkGroup { card_id, group_name: plan.groups@[i as int] },
        Cursor::Unit(i) => StoreRequest::LinkUnit { card_id, unit_name: plan.card.units@[i as int] },
        Cursor::Skill(i) => StoreRequest::LinkSkill { card_id, skill_text: plan.card.skills@[i as int] },
    }
}

impl CreationPlan {
    fn heart_count(&self) -> (r: usize)
        ensures
            r == heart_pairs(*self).len(),
    {
        match &self.card.type_specifics {
            Some(CreateCardTypeSpecifics::Character(c)) => c.hearts.entries().len(),
            Some(CreateCardTypeSpecifics::Live(l)) => l.hearts.entries().len(),
            None => 0,
        }
    }

    fn heart_at(&self, i: usize) -> (r: (HeartColor, i64))
        requires
            i < heart_pairs(*self).len(),
        ensures
            r == heart_pairs(*self)[i as int],
    {
        match &self.card.type_specifics {
            Some(CreateCardTypeSpecifics::Character(c)) => c.hearts.entries()[i],
            Some(CreateCardTypeSpecifics::Live(l)) => l.hearts.entries()[i],
            // Ruled out by the precondition: a card without specifics has no counts.
            None => (HeartColor::Pink, 0),
        }
    }

    /// The first write at or after `c`.
    pub fn settle(&self, c: Cursor) -> (r: Option<Cursor>)
        ensures
            r == settle(*self, c),
        decreases cursor_rank(c),
    {
        match c {
            Cursor::Specifics => if self.card.type_specifics.is_some() {
                Some(c)
            } else {
                Some(Cursor::Printing)
            },
            Cursor::Heart(i) => if i < self.heart_count() {
                Some(c)
            } else {
                self.settle(Cursor::Group(0))
            },
            Cursor::Group(i) => if i < self.groups.len() {
                Some(c)
            } else {
                self.settle(Cursor::Unit(0))
            },
            Cursor::Unit(i) => if i < self.card.units.len() {
                Some(c)
            } else {
                self.settle(Cursor::Skill(0))
            },
            Cursor::Skill(i) => if i < self.card.skills.len() {
                Some(c)
            } else {
                None
            },
            _ => Some(c),
        }
    }

    /// The write after `c`, which the plan has.
    pub fn next_cursor(&self, c: Cursor) -> (r: Option<Cursor>)
        requires
            cursor_valid(*self, c),
        ensures
            r == next_cursor(*self, c),
    {
        match c {
            Cursor::Name => self.settle(Cursor::Card),
            Cursor::Card => self.settle(Cursor::Specifics),
            Cursor::Specifics => self.settle(Cursor::Printing),
            Cursor::Printing => self.settle(Cursor::Heart(0)),
            Cursor::Heart(i) => if i < self.heart_count() {
                self.settle(Cursor::Heart(i + 1))
            } else {
                None
            },
            Cursor::Group(i) => if i < self.groups.len() {
                self.settle(Cursor::Group(i + 1))
            } else {
                None
            },
            Cursor::Unit(i) => if i < self.card.units.len() {
                self.settle(Cursor::Unit(i + 1))
            } else {
                None
            },
            Cursor::Skill(i) => if i < self.card.skills.len() {
                self.settle(Cursor::Skill(i + 1))
            } else {
                None
            },
        }
    }

    /// The request at `c`, which the plan has.
    pub fn request_at(&self, c: Cursor, name_id: i64, card_id: i64) -> (r: StoreRequest)
        requires
            cursor_valid(*self, c),
        ensures
            r == request_at(*self, c, name_id, card_id),
    {
        match c {
            Cursor::Name => StoreRequest::PutName { name: self.canonical_name.clone() },
            Cursor::Card => StoreRequest::PutCard {
                series_code: self.card.series_code.clone(),
                set_code: self.card.set_code.clone(),
                number_in_set: self.card.number_in_set.clone(),
                name_id,
                card_type: self.card.card_type,
            },
            Cursor::Specifics => match &self.card.type_specifics {
                Some(CreateCardTypeSpecifics::Live(l)) => StoreRequest::PutLive(
                    LiveCard { card_id, score: l.score, blade_heart: l.blade_heart, special_heart: l.special_heart },
                ),
                Some(CreateCardTypeSpecifics::Character(ch)) => StoreRequest::PutCharacter(
                    CharacterCard { card_id, cost: ch.cost, blades: ch.blades, blade_heart: ch.blade_heart },
                ),
                None => StoreRequest::PutCharacter(CharacterCard { card_id, cost: 0, blades: 0, blade_heart: None }),
            },
            Cursor::Printing => StoreRequest::PutPrinting {
                card_id,
                rarity_code: self.card.rarity_code.clone(),
                rarity_type: self.rarity_type,
                image_url: match &self.card.image_url {
                    Some(u) => Some(u.clone()),
                    None => None,
                },
            },
            Cursor::Heart(i) => {
                let (color, count) = self.heart_at(i);
                StoreRequest::PutHeart(CardHeart { card_id, color, count })
            },
            Cursor::Group(i) => StoreRequest::LinkGroup { card_id, group_name: self.groups[i].clone() },
            Cursor::Unit(i) => StoreRequest::LinkUnit { card_id, unit_name: self.card.units[i].clone() },
            Cursor::Skill(i) => StoreRequest::LinkSkill { card_id, skill_text: self.card.skills[i].clone() },
        }
    }
}

pub proof fn lemma_next_valid(plan: CreationPlan, c: Cursor)
    ensures
        next_cursor(plan, c) matches Some(d) ==> cursor_valid(plan, d),
{
    match c {
        Cursor::Name => lemma_settle_valid(plan, Cursor::Card),
        Cursor::Card => lemma_settle_valid(plan, Cursor::Specifics),
        Cursor::Specifics => lemma_settle_valid(plan, Cursor::Printing),
        Cursor::Printing => lemma_settle_valid(plan, Cursor::Heart(0)),
        Cursor::Heart(i) => lemma_settle_valid(plan, Cursor::Heart((i + 1) as usize)),
        Cursor::Group(i) => lemma_settle_valid(plan, Cursor::Group((i + 1) as usize)),
        Cursor::Unit(i) => lemma_settle_valid(plan, Cursor::Unit((i + 1) as usize)),
        Cursor::Skill(i) => lemma_settle_valid(plan, Cursor::Skill((i + 1) as usize)),
    }
}

/// The specifics row that a plan writes, if its card has one.
pub open spec fn specifics_requests(plan: CreationPlan, card_id: i64) -> Seq<StoreRequest> {
    match plan.card.type_specifics {
        Some(CreateCardTypeSpecifics::Character(ch)) => seq![
            StoreRequest::PutCharacter(CharacterCard { card_id, cost: ch.cost, blades: ch.blades, blade_heart: ch.blade_heart }),
        ],
        Some(CreateCardTypeSpecifics::Live(l)) => seq![
            StoreRequest::PutLive(LiveCard { card_id, score: l.score, blade_heart: l.blade_heart, special_heart: l.special_heart }),
        ],
        None => Seq::empty(),
    }
}

/// Every write of one card, in order, once its name has id `name_id` and its
/// base row id `card_id`: the name, the base row, the specifics row if any,
/// the printing, one row per heart count, then one link per group, unit and
/// skill.
pub open spec fn requests_of(plan: CreationPlan, name_id: i64, card_id: i64) -> Seq<StoreRequest> {
    seq![
        StoreRequest::PutName { name: plan.canonical_name },
        StoreRequest::PutCard {
            series_code: plan.card.series_code,
            set_code: plan.card.set_code,
            number_in_set: plan.card.number_in_set,
            name_id,
            card_type: plan.card.card_type,
        },
    ] + specifics_requests(plan, card_id) + seq![
        StoreRequest::PutPrinting {
            card_id,
            rarity_code: plan.card.rarity_code,
            rarity_type: plan.rarity_type,
            image_url: plan.card.image_url,
        },
    ] + Seq::new(
        heart_pairs(plan).len(),
        |i: int| StoreRequest::PutHeart(CardHeart { card_id, color: heart_pairs(plan)[i].0, count: heart_pairs(plan)[i].1 }),
    ) + Seq::new(plan.groups@.len(), |i: int| StoreRequest::LinkGroup { card_id, group_name: plan.groups@[i] })
        + Seq::new(plan.card.units@.len(), |i: int| StoreRequest::LinkUnit { card_id, unit_name: plan.card.units@[i] })
        + Seq::new(plan.card.skills@.len(), |i: int| StoreRequest::LinkSkill { card_id, skill_text: plan.card.skills@[i] })
}

pub open spec fn specifics_count(plan: CreationPlan) -> int {
    if plan.card.type_specifics is Some {
        1
    } else {
        0
    }
}

/// How many writes a plan makes.
pub open spec fn write_count(plan: CreationPlan) -> int {
    3 + specifics_count(plan) + heart_pairs(plan).len() + plan.groups@.len() + plan.card.units@.len()
        + plan.card.skills@.len()
}

/// The place of cursor `c` in the writes of `plan`.
pub open spec fn position(plan: CreationPlan, c: Cursor) -> int {
    let h = 3 + specifics_count(plan);
    let g = h + heart_pairs(plan).len();
    let u = g + plan.groups@.len();
    let k = u + plan.card.units@.len();
    match c {
        Cursor::Name => 0,
        Cursor::Card => 1,
        Cursor::Specifics => 2,
        Cursor::Printing => 2 + specifics_count(plan),
        Cursor::Heart(i) => h + i,
        Cursor::Group(i) => g + i,
        Cursor::Unit(i) => u + i,
        Cursor::Skill(i) => k + i,
    }
}

/// `c` is a cursor of the plan or the one just past the end of its section.
pub open spec fn cursor_in_reach(plan: CreationPlan, c: Cursor) -> bool {
    match c {
        Cursor::Heart(i) => i <= heart_pairs(plan).len(),
        Cursor::Group(i) => i <= plan.groups@.len(),
        Cursor::Unit(i) => i <= plan.card.units@.len(),
        Cursor::Skill(i) => i <= plan.card.skills@.len(),
        _ => true,
    }
}

pub proof fn lemma_settle_position(plan: CreationPlan, c: Cursor)
    requires
        cursor_in_reach(plan, c),
    ensures
        match settle(plan, c) {
            Some(d) => position(plan, d) == position(plan, c) && cursor_valid(plan, d),
            None => position(plan, c) == write_count(plan),
        },
    decreases cursor_rank(c),
{
    lemma_settle_valid(plan, c);
    match c {
        Cursor::Heart(_) => lemma_settle_position(plan, Cursor::Group(0)),
        Cursor::Group(_) => lemma_settle_position(plan, Cursor::Unit(0)),
        Cursor::Unit(_) => lemma_settle_position(plan, Cursor::Skill(0)),
        _ => {},
    }
}

/// Every count of a plan fits in `usize`, as the length of each `Vec` does.
pub open spec fn plan_fits(plan: CreationPlan) -> bool {
    &&& heart_pairs(plan).len() <= usize::MAX
    &&& plan.groups@.len() <= usize::MAX
    &&& plan.card.units@.len() <= usize::MAX
    &&& plan.card.skills@.len() <= usize::MAX
}

/// The write after a cursor is the next one in order; after the last one
/// there is none.
pub proof fn lemma_next_position(plan: CreationPlan, c: Cursor)
    requires
        plan_fits(plan),
        cursor_valid(plan, c),
    ensures
        match next_cursor(plan, c) {
            Some(d) => position(plan, d) == position(plan, c) + 1 && cursor_valid(plan, d),
            None => position(plan, c) + 1 == write_count(plan),
        },
{
    match c {
        Cursor::Name => lemma_settle_position(plan, Cursor::Card),
        Cursor::Card => lemma_settle_position(plan, Cursor::Specifics),
        Cursor::Specifics => lemma_settle_position(plan, Cursor::Printing),
        Cursor::Printing => lemma_settle_position(plan, Cursor::Heart(0)),
        Cursor::Heart(i) => lemma_settle_position(plan, Cursor::Heart((i + 1) as usize)),
        Cursor::Group(i) => lemma_settle_position(plan, Cursor::Group((i + 1) as usize)),
        Cursor::Unit(i) => lemma_settle_position(plan, Cursor::Unit((i + 1) as usize)),
        Cursor::Skill(i) => lemma_settle_position(plan, Cursor::Skill((i + 1) as usize)),
    }
}

/// The request at a cursor is the write at its place in `requests_of`.
pub proof fn lemma_request_position(plan: CreationPlan, c: Cursor, name_id: i64, card_id: i64)
    requires
        cursor_valid(plan, c),
    ensures
        0 <= position(plan, c) < write_count(plan),
        requests_of(plan, name_id, card_id).len() == write_count(plan),
        requests_of(plan, name_id, card_id)[position(plan, c)] == request_at(plan, c, name_id, card_id),
{
    let r = requests_of(plan, name_id, card_id);
    let a = seq![
        StoreRequest::PutName { name: plan.canonical_name },
        StoreRequest::PutCard {
            series_code: plan.card.series_code,
            set_code: plan.card.set_code,
            number_in_set: plan.card.number_in_set,
            name_id,
            card_type: plan.card.card_type,
        },
    ];
    let sp = specifics_requests(plan, card_id);
    let pr = seq![
        StoreRequest::PutPrinting {
            card_id,
            rarity_code: plan.card.rarity_code,
            rarity_type: plan.rarity_type,
            image_url: plan.card.image_url,
        },
    ];
    let hs = Seq::new(
        heart_pairs(plan).len(),
        |i: int| StoreRequest::PutHeart(CardHeart { card_id, color: heart_pairs(plan)[i].0, count: heart_pairs(plan)[i].1 }),
    );
    let gs = Seq::new(plan.groups@.len(), |i: int| StoreRequest::LinkGroup { card_id, group_name: plan.groups@[i] });
    let us = Seq::new(plan.card.units@.len(), |i: int| StoreRequest::LinkUnit { card_id, unit_name: plan.card.units@[i] });
    let ks = Seq::new(plan.card.skills@.len(), |i: int| StoreRequest::LinkSkill { card_id, skill_text: plan.card.skills@[i] });
    let p1 = a + sp;
    let p2 = p1 + pr;
    let p3 = p2 + hs;
    let p4 = p3 + gs;
    let p5 = p4 + us;
    assert(r == p5 + ks);
    assert(sp.len() == specifics_count(plan));
    let pos = position(plan, c);
    match c {
        Cursor::Name => {
            assert(r[0] == p5[0]);
            assert(p1[0] == a[0]);
        },
        Cursor::Card => {
            assert(r[1] == p5[1]);
            assert(p1[1] == a[1]);
        },
        Cursor::Specifics => {
            assert(r[2] == p5[2]);
            assert(p1[2] == sp[0]);
        },
        Cursor::Printing => {
            assert(r[pos] == p5[pos]);
            assert(p2[pos] == pr[0]);
        },
        Cursor::Heart(i) => {
            assert(r[pos] == p5[pos]);
            assert(p3[pos] == hs[i as int]);
        },
        Cursor::Group(i) => {
            assert(r[pos] == p5[pos]);
            assert(p4[pos] == gs[i as int]);
        },
        Cursor::Unit(i) => {
            assert(r[pos] == p5[pos]);
            assert(p5[pos] == us[i as int]);
        },
        Cursor::Skill(i) => {
            assert(r[pos] == ks[i as int]);
        },
    }
}

/// Two cursors of a plan at one place are the same cursor.
pub proof fn lemma_position_injective(plan: CreationPlan, c: Cursor, d: Cursor)
    requires
        cursor_valid(plan, c),
        cursor_valid(plan, d),
        position(plan, c) == position(plan, d),
    ensures
        c == d,
{
}

/// Where a unit of work stands.
#[derive(Clone, Debug, PartialEq, Eq)]
pub enum WorkStatus {
    /// Requests of a card are being made.
    Writing,
    /// Every card is written; the transaction is to be committed.
    Committing,
    /// The transaction is committed.
    Committed,
    /// The transaction is to be rolled back, for this reason.
    Aborted(DbError),
}

/// What the caller does next.
#[derive(Debug, PartialEq, Eq)]
pub enum WorkAction {
    Store(StoreRequest),
    Commit,
    Rollback,
    Finished,
}

/// The model of a unit of work.
pub struct WorkState {
    pub plans: Seq<CreationPlan>,
    /// The card being written.
    pub index: int,
    pub cursor: Cursor,
    /// The id of the current card's name, once received.
    pub name_id: i64,
    /// The id of the current card, once received.
    pub card_id: i64,
    /// The ids of the cards written so far.
    pub created: Seq<i64>,
    pub status: WorkStatus,
}

pub open spec fn work_wf(w: WorkState) -> bool {
    &&& 0 <= w.index <= w.plans.len()
    &&& w.created.len() == w.index
    &&& w.status is Writing ==> w.index < w.plans.len() && cursor_valid(w.plans[w.index], w.cursor)
    &&& (w.status is Committing || w.status is Committed) ==> w.index == w.plans.len()
}

/// A unit of work over `plans`, before any request.
pub open spec fn work_start(plans: Seq<CreationPlan>) -> WorkState {
    WorkState {
        plans,
        index: 0,
        cursor: Cursor::Name,
        name_id: 0,
        card_id: 0,
        created: Seq::empty(),
        status: if plans.len() > 0 {
            WorkStatus::Writing
        } else {
            WorkStatus::Committing
        },
    }
}

pub open spec fn work_abort(w: WorkState, e: DbError) -> WorkState {
    WorkState { status: WorkStatus::Aborted(e), ..w }
}

/// Moves past the current request, to the next card or to the commit after
/// the last write of a card.
pub open spec fn work_advance(w: WorkState, name_id: i64, card_id: i64) -> WorkState {
    match next_cursor(w.plans[w.index], w.cursor) {
        Some(c) => WorkState { cursor: c, name_id, card_id, ..w },
        None => WorkState {
            index: w.index + 1,
            cursor: Cursor::Name,
            name_id,
            card_id,
            created: w.created.push(card_id),
            status: if w.index + 1 < w.plans.len() {
                WorkStatus::Writing
            } else {
                WorkStatus::Committing
            },
            ..w
        },
    }
}

/// The error that a failed write at cursor `c` of `plan` stands for: a
/// uniqueness violation is a conflict on the key that the write names (the
/// card's identity for its base row, the name for a link).
pub open spec fn failure_error(plan: CreationPlan, c: Cursor, f: StorageFailure) -> DbError {
    match (f, c) {
        (StorageFailure::UniqueViolation, Cursor::Card) => DbError::Conflict(plan.identity),
        (StorageFailure::UniqueViolation, Cursor::Group(i)) => DbError::Conflict(plan.groups@[i as int]),
        (StorageFailure::UniqueViolation, Cursor::Unit(i)) => DbError::Conflict(plan.card.units@[i as int]),
        (StorageFailure::UniqueViolation, Cursor::Skill(i)) => DbError::Conflict(plan.card.skills@[i as int]),
        _ => DbError::Storage(f),
    }
}

/// The unit of work after storage answered the current request with `reply`.
pub open spec fn after_reply(w: WorkState, reply: StoreReply) -> WorkState {
    if !(w.status is Writing) {
        w
    } else {
        let plan = w.plans[w.index];
        match reply {
            StoreReply::Failed(f) => work_abort(w, failure_error(plan, w.cursor, f)),
            StoreReply::Missing => match w.cursor {
                Cursor::Group(i) => work_abort(w, DbError::GroupNotFound(plan.groups@[i as int])),
                Cursor::Unit(i) => work_abort(w, DbError::UnitNotFound(plan.card.units@[i as int])),
                _ => work_abort(w, DbError::Storage(StorageFailure::RowNotFound)),
            },
            StoreReply::Id(id) => match w.cursor {
                Cursor::Name => work_advance(w, id, w.card_id),
                Cursor::Card => work_advance(w, w.name_id, id),
                _ => work_advance(w, w.name_id, w.card_id),
            },
            StoreReply::Written => match w.cursor {
                Cursor::Name | Cursor::Card => work_abort(w, DbError::Storage(StorageFailure::RowNotFound)),
                _ => work_advance(w, w.name_id, w.card_id),
            },
        }
    }
}

/// The unit of work after the commit was answered with `outcome`.
pub open spec fn after_commit(w: WorkState, outcome: Result<(), StorageFailure>) -> WorkState {
    if w.status is Committing {
        match outcome {
            Ok(()) => WorkState { status: WorkStatus::Committed, ..w },
            Err(f) => work_abort(w, DbError::Storage(f)),
        }
    } else {
        w
    }
}

/// What the caller is asked to do in state `w`.
pub open spec fn action_of(w: WorkState) -> WorkAction {
    match w.status {
        WorkStatus::Writing => WorkAction::Store(request_at(w.plans[w.index], w.cursor, w.name_id, w.card_id)),
        WorkStatus::Committing => WorkAction::Commit,
        WorkStatus::Committed => WorkAction::Finished,
        WorkStatus::Aborted(_) => WorkAction::Rollback,
    }
}

/// What a finished unit of work returns: the ids of the created cards, or the
/// reason for the rollback.
pub open spec fn work_outcome(w: WorkState) -> Option<Result<Seq<i64>, DbError>> {
    match w.status {
        WorkStatus::Committed => Some(Ok(w.created)),
        WorkStatus::Aborted(e) => Some(Err(e)),
        _ => None,
    }
}

pub proof fn lemma_after_reply_wf(w: WorkState, reply: StoreReply)
    requires
        work_wf(w),
    ensures
        work_wf(after_reply(w, reply)),
{
    if w.status is Writing {
        lemma_next_valid(w.plans[w.index], w.cursor);
    }
}

/// Cards written in one transaction.
#[derive(Debug)]
pub struct UnitOfWork {
    plans: Vec<CreationPlan>,
    index: usize,
    cursor: Cursor,
    name_id: i64,
    card_id: i64,
    created: Vec<i64>,
    status: WorkStatus,
}

impl View for UnitOfWork {
    type V = WorkState;

    closed spec fn view(&self) -> WorkState {
        WorkState {
            plans: self.plans@,
            index: self.index as int,
            cursor: self.cursor,
            name_id: self.name_id,
            card_id: self.card_id,
            created: self.created@,
            status: self.status,
        }
    }
}

impl UnitOfWork {
    pub fn new(plans: Vec<CreationPlan>) -> (r: UnitOfWork)
        ensures
            r@ == work_start(plans@),
            work_wf(r@),
    {
        let status = if plans.len() > 0 {
            WorkStatus::Writing
        } else {
            WorkStatus::Committing
        };
        UnitOfWork { plans, index: 0, cursor: Cursor::Name, name_id: 0, card_id: 0, created: Vec::new(), status }
    }

    pub fn next_action(&self) -> (r: WorkAction)
        requires
            work_wf(self@),
        ensures
            r == action_of(self@),
    {
        match &self.status {
            WorkStatus::Writing => WorkAction::Store(
                self.plans[self.index].request_at(self.cursor, self.name_id, self.card_id),
            ),
            WorkStatus::Committing => WorkAction::Commit,
            WorkStatus::Committed => WorkAction::Finished,
            WorkStatus::Aborted(_) => WorkAction::Rollback,
        }
    }

    fn advance(&mut self, name_id: i64, card_id: i64)
        requires
            work_wf(old(self)@),
            old(self)@.status is Writing,
        ensures
            final(self)@ == work_advance(old(self)@, name_id, card_id),
    {
        let next = self.plans[self.index].next_cursor(self.cursor);
        self.name_id = name_id;
        self.card_id = card_id;
        match next {
            Some(c) => {
                self.cursor = c;
            },
            None => {
                let n = self.plans.len();
                self.created.push(card_id);
                self.index = self.index + 1;
                self.cursor = Cursor::Name;
                self.status = if self.index < n {
                    WorkStatus::Writing
                } else {
                    WorkStatus::Committing
                };
            },
        }
    }

    /// Takes storage's reply to the current request.
    pub fn record(&mut self, reply: StoreReply)
        requires
            work_wf(old(self)@),
        ensures
            final(self)@ == after_reply(old(self)@, reply),
            work_wf(final(self)@),
    {
        proof {
            lemma_after_reply_wf(self@, reply);
        }
        if !matches!(self.status, WorkStatus::Writing) {
            return;
        }
        match reply {
            StoreReply::Failed(f) => {
                let plan = &self.plans[self.index];
                let e = match (f, self.cursor) {
                    (StorageFailure::UniqueViolation, Cursor::Card) => DbError::Conflict(plan.identity.clone()),
                    (StorageFailure::UniqueViolation, Cursor::Group(i)) => DbError::Conflict(plan.groups[i].clone()),
                    (StorageFailure::UniqueViolation, Cursor::Unit(i)) => DbError::Conflict(plan.card.units[i].clone()),
                    (StorageFailure::UniqueViolation, Cursor::Skill(i)) => DbError::Conflict(plan.card.skills[i].clone()),
                    (f, _) => DbError::Storage(f),
                };
                self.status = WorkStatus::Aborted(e);
            },
            StoreReply::Missing => {
                let e = match self.cursor {
                    Cursor::Group(i) => DbError::GroupNotFound(self.plans[self.index].groups[i].clone()),
                    Cursor::Unit(i) => DbError::UnitNotFound(self.plans[self.index].card.units[i].clone()),
                    _ => DbError::Storage(StorageFailure::RowNotFound),
                };
                self.status = WorkStatus::Aborted(e);
            },
            StoreReply::Id(id) => match self.cursor {
                Cursor::Name => self.advance(id, self.card_id),
                Cursor::Card => self.advance(self.name_id, id),
                _ => self.advance(self.name_id, self.card_id),
            },
            StoreReply::Written => match self.cursor {
                Cursor::Name | Cursor::Card => {
                    self.status = WorkStatus::Aborted(DbError::Storage(StorageFailure::RowNotFound));
                },
                _ => self.advance(self.name_id, self.card_id),
            },
        }
    }

    /// Takes storage's answer to the commit.
    pub fn record_commit(&mut self, outcome: Result<(), StorageFailure>)
        requires
            work_wf(old(self)@),
        ensures
            final(self)@ == after_commit(old(self)@, outcome),
            work_wf(final(self)@),
    {
        if matches!(self.status, WorkStatus::Committing) {
            self.status = match outcome {
                Ok(()) => WorkStatus::Committed,
                Err(f) => WorkStatus::Aborted(DbError::Storage(f)),
            };
        }
    }

    /// The ids of the created cards once committed, or the reason for the
    /// rollback; `None` while the work is not finished.
    pub fn outcome(self) -> (r: Option<Result<Vec<i64>, DbError>>)
        ensures
            match work_outcome(self@) {
                Some(Ok(ids)) => r matches Some(Ok(v)) && v@ == ids,
                Some(Err(e)) => r == Some(Err::<Vec<i64>, DbError>(e)),
                None => r is None,
            },
    {
        match self.status {
            WorkStatus::Committed => Some(Ok(self.created)),
            WorkStatus::Aborted(e) => Some(Err(e)),
            _ => None,
        }
    }
}

} // verus!
