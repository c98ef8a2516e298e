//! Validation of a card-creation payload as it arrives: required fields are
//! present, the identifier splits into its segments, and the card-type tag
//! decides which of the flat attribute fields form the specifics.

use vstd::prelude::*;
use vstd::string::*;
use crate::identifier::{parse_identifier, split_identifier, CardIdentifier};
use crate::models::{BladeHeartColor, CardType, CreateCard, CreateCardTypeSpecifics, CreateCharacterCard, CreateLiveCard, Hearts, SpecialHeart, counts_nonnegative, pairs_nonnegative};

verus! {

/// A field that a payload must carry.
#[derive(Clone, Copy, Debug, PartialEq, Eq, Structural)]
pub enum PayloadField {
    CardIdentifier,
    Name,
    CardType,
}

/// Why a payload was rejected before anything was written.
#[derive(Clone, Copy, Debug, PartialEq, Eq, Structural)]
pub enum ValidationError {
    MissingField(PayloadField),
    MalformedIdentifier,
    HeartsRequired,
    NegativeHeartCount,
    SpecificsMismatch,
}

pub open spec fn validation_message(e: ValidationError) -> Seq<char> {
    match e {
        ValidationError::MissingField(PayloadField::CardIdentifier) => "missing field `card_identifier`"@,
        ValidationError::MissingField(PayloadField::Name) => "missing field `name`"@,
        ValidationError::MissingField(PayloadField::CardType) => "missing field `card_type`"@,
        ValidationError::MalformedIdentifier => "field `card_identifier` must be in the format 'series-set-number-rarity'."@,
        ValidationError::HeartsRequired => "`hearts` field is required and must not be empty for Character and Live cards."@,
        ValidationError::NegativeHeartCount => "`hearts` counts must not be negative."@,
        ValidationError::SpecificsMismatch => "Mismatch between `card_type` and the data provided in `type_specifics`."@,
    }
}

impl ValidationError {
    /// The text shown to the caller.
    pub fn message(&self) -> (r: String)
        ensures
            r@ == validation_message(*self),
    {
        match self {
            ValidationError::MissingField(PayloadField::CardIdentifier) => String::from_str("missing field `card_identifier`"),
            ValidationError::MissingField(PayloadField::Name) => String::from_str("missing field `name`"),
            ValidationError::MissingField(PayloadField::CardType) => String::from_str("missing field `card_type`"),
            ValidationError::MalformedIdentifier => String::from_str(
                "field `card_identifier` must be in the format 'series-set-number-rarity'.",
            ),
            ValidationError::HeartsRequired => String::from_str(
                "`hearts` field is required and must not be empty for Character and Live cards.",
            ),
            ValidationError::NegativeHeartCount => String::from_str("`hearts` counts must not be negative."),
            ValidationError::SpecificsMismatch => String::from_str(
                "Mismatch between `card_type` and the data provided in `type_specifics`.",
            ),
        }
    }
}

/// A creation payload as received: the card-type attributes are flat and
/// optional, and are read according to `card_type`.
#[derive(Debug)]
pub struct CardPayload {
    pub card_identifier: Option<String>,
    pub name: Option<String>,
    pub card_type: Option<CardType>,
    pub groups: Vec<String>,
    pub units: Vec<String>,
    pub skills: Vec<String>,
    pub image_url: Option<String>,
    pub cost: Option<i64>,
    pub blades: Option<i64>,
    pub score: Option<i64>,
    pub hearts: Option<Hearts>,
    pub blade_heart: Option<BladeHeartColor>,
    pub special_heart: Option<SpecialHeart>,
}

/// Hearts are given and hold at least one color.
pub open spec fn hearts_given(p: CardPayload) -> bool {
    p.hearts is Some && !p.hearts->0@.dom().is_empty()
}

/// The attributes agree with the card type: what the type needs is there and
/// nothing of another type is.
pub open spec fn shape_fits(p: CardPayload, t: CardType) -> bool {
    match t {
        CardType::Character => p.cost is Some && p.blades is Some && p.score is None && p.special_heart is None,
        CardType::Live => p.score is Some && p.cost is None && p.blades is None,
        CardType::Energy => p.cost is None && p.blades is None && p.score is None && p.hearts is None
            && p.blade_heart is None && p.special_heart is None,
    }
}

/// The first thing wrong with a payload, in the order in which it is checked.
pub open spec fn payload_error(p: CardPayload) -> Option<ValidationError> {
    if p.card_identifier is None {
        Some(ValidationError::MissingField(PayloadField::CardIdentifier))
    } else if p.name is None {
        Some(ValidationError::MissingField(PayloadField::Name))
    } else if p.card_type is None {
        Some(ValidationError::MissingField(PayloadField::CardType))
    } else if split_identifier(p.card_identifier->0@) is None {
        Some(ValidationError::MalformedIdentifier)
    } else if p.card_type->0 != CardType::Energy && !hearts_given(p) {
        Some(ValidationError::HeartsRequired)
    } else if p.card_type->0 != CardType::Energy && !counts_nonnegative(p.hearts->0@) {
        Some(ValidationError::NegativeHeartCount)
    } else if !shape_fits(p, p.card_type->0) {
        Some(ValidationError::SpecificsMismatch)
    } else {
        None
    }
}

/// The specifics that a valid payload declares.
pub open spec fn specifics_of(p: CardPayload) -> Option<CreateCardTypeSpecifics> {
    match p.card_type->0 {
        CardType::Character => Some(CreateCardTypeSpecifics::Character(CreateCharacterCard {
            cost: p.cost->0,
            blades: p.blades->0,
            hearts: p.hearts->0,
            blade_heart: p.blade_heart,
        })),
        CardType::Live => Some(CreateCardTypeSpecifics::Live(CreateLiveCard {
            score: p.score->0,
            hearts: p.hearts->0,
            blade_heart: p.blade_heart,
            special_heart: p.special_heart,
        })),
        CardType::Energy => None,
    }
}

/// A creation request whose specifics agree with its card type, and whose
/// heart counts, for Character and Live cards, are there and not negative.
pub open spec fn request_well_formed(c: CreateCard) -> bool {
    match c.card_type {
        CardType::Character => c.type_specifics matches Some(CreateCardTypeSpecifics::Character(ch))
            && !ch.hearts@.dom().is_empty() && ch.hearts.pairs().len() > 0
            && counts_nonnegative(ch.hearts@) && pairs_nonnegative(ch.hearts.pairs()),
        CardType::Live => c.type_specifics matches Some(CreateCardTypeSpecifics::Live(l))
            && !l.hearts@.dom().is_empty() && l.hearts.pairs().len() > 0
            && counts_nonnegative(l.hearts@) && pairs_nonnegative(l.hearts.pairs()),
        CardType::Energy => c.type_specifics is None,
    }
}

/// The creation request that a valid payload stands for.
pub open spec fn accepted(p: CardPayload, c: CreateCard) -> bool {
    let parts = split_identifier(p.card_identifier->0@)->0;
    &&& c.name == p.name->0
    &&& c.card_type == p.card_type->0
    &&& c.groups == p.groups
    &&& c.units == p.units
    &&& c.skills == p.skills
    &&& c.image_url == p.image_url
    &&& c.type_specifics == specifics_of(p)
    &&& c.series_code@ == parts.0
    &&& c.set_code@ == parts.1
    &&& c.number_in_set@ == parts.2
    &&& c.rarity_code@ == parts.3
}

impl CreateCard {
    /// Checks a payload and builds the creation request from it.
    pub fn from_payload(p: CardPayload) -> (r: Result<CreateCard, ValidationError>)
        ensures
            match r {
                Ok(c) => payload_error(p) is None && accepted(p, c) && request_well_formed(c),
                Err(e) => payload_error(p) == Some(e),
            },
    {
        let CardPayload {
            card_identifier,
            name,
            card_type,
            groups,
            units,
            skills,
            image_url,
            cost,
            blades,
            score,
            hearts,
            blade_heart,
            special_heart,
        } = p;
        let card_identifier = match card_identifier {
            Some(s) => s,
            None => return Err(ValidationError::MissingField(PayloadField::CardIdentifier)),
        };
        let name = match name {
            Some(s) => s,
            None => return Err(ValidationError::MissingField(PayloadField::Name)),
        };
        let card_type = match card_type {
            Some(t) => t,
            None => return Err(ValidationError::MissingField(PayloadField::CardType)),
        };
        let id = match parse_identifier(card_identifier.as_str()) {
            Some(id) => id,
            None => return Err(ValidationError::MalformedIdentifier),
        };
        let (has_hearts, nonnegative) = match &hearts {
            Some(h) => (!h.is_empty(), h.counts_nonnegative()),
            None => (false, true),
        };
        let type_specifics = match card_type {
            CardType::Character => {
                if !has_hearts {
                    return Err(ValidationError::HeartsRequired);
                }
                if !nonnegative {
                    return Err(ValidationError::NegativeHeartCount);
                }
                match (cost, blades, score, special_heart, hearts) {
                    (Some(cost), Some(blades), None, None, Some(hearts)) => Some(
                        CreateCardTypeSpecifics::Character(CreateCharacterCard { cost, blades, hearts, blade_heart }),
                    ),
                    _ => return Err(ValidationError::SpecificsMismatch),
                }
            },
            CardType::Live => {
                if !has_hearts {
                    return Err(ValidationError::HeartsRequired);
                }
                if !nonnegative {
                    return Err(ValidationError::NegativeHeartCount);
                }
                match (score, cost, blades, hearts) {
                    (Some(score), None, None, Some(hearts)) => Some(
                        CreateCardTypeSpecifics::Live(CreateLiveCard { score, hearts, blade_heart, special_heart }),
                    ),
                    _ => return Err(ValidationError::SpecificsMismatch),
                }
            },
            CardType::Energy => {
                if cost.is_some() || blades.is_some() || score.is_some() || hearts.is_some()
                    || blade_heart.is_some() || special_heart.is_some() {
                    return Err(ValidationError::SpecificsMismatch);
                }
                None
            },
        };
        let CardIdentifier { series_code, set_code, number_in_set, rarity_code } = id;
        Ok(CreateCard {
            name,
            card_type,
            groups,
            units,
            skills,
            image_url,
            type_specifics,
            series_code,
            set_code,
            number_in_set,
            rarity_code,
        })
    }
}

} // verus!
