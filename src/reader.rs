//! Assembly of the full view of a card from the reads that fan out from its
//! base row.
//!
//! The caller reads the base row, then issues every other read and waits for
//! all of them; `join_card_reads` then returns either the whole card or the
//! first failure, never a partial card.

use vstd::prelude::*;
use crate::assoc::assoc_map;
use crate::errors::{DbError, StorageFailure};
use crate::models::{pairs_nonnegative, Card, CardType, CardTypeSpecifics, FullCard, HeartColor, Hearts, Printing};

verus! {

/// The base row of a card as stored: the name is held by its id.
#[derive(Clone, Debug, PartialEq, Eq)]
pub struct CardRow {
    pub id: i64,
    pub series_code: String,
    pub set_code: String,
    pub number_in_set: String,
    pub name_id: i64,
    pub card_type: CardType,
}

/// The table that holds the specifics of a kind of card.
#[derive(Clone, Copy, Debug, PartialEq, Eq, Structural)]
pub enum SpecificsTable {
    Character,
    Live,
}

/// Which specifics table to read for a card of type `t`; Energy cards have none.
pub fn specifics_table(t: CardType) -> (r: Option<SpecificsTable>)
    ensures
        r == match t {
            CardType::Character => Some(SpecificsTable::Character),
            CardType::Live => Some(SpecificsTable::Live),
            CardType::Energy => None::<SpecificsTable>,
        },
{
    match t {
        CardType::Character => Some(SpecificsTable::Character),
        CardType::Live => Some(SpecificsTable::Live),
        CardType::Energy => None,
    }
}

/// The error of a failed read of the base row of card `id`: no row means no
/// such card, which is told apart from every other failure.
pub fn base_read_error(id: i64, f: StorageFailure) -> (r: DbError)
    ensures
        r == (if f is RowNotFound { DbError::CardNotFound(id) } else { DbError::Storage(f) }),
{
    match f {
        StorageFailure::RowNotFound => DbError::CardNotFound(id),
        _ => DbError::Storage(f),
    }
}

/// The results of the reads that follow the base row.
#[derive(Debug)]
pub struct CardReads {
    pub name: Result<String, StorageFailure>,
    pub set_name: Result<String, StorageFailure>,
    pub groups: Result<Vec<String>, StorageFailure>,
    pub units: Result<Vec<String>, StorageFailure>,
    pub skills: Result<Vec<String>, StorageFailure>,
    pub hearts: Result<Vec<(HeartColor, i64)>, StorageFailure>,
    pub printings: Result<Vec<Printing>, StorageFailure>,
    pub specifics: Result<Option<CardTypeSpecifics>, StorageFailure>,
}

/// The first failed read, in the order of the fields.
pub open spec fn first_failure(reads: CardReads) -> Option<StorageFailure> {
    if reads.name is Err {
        Some(reads.name->Err_0)
    } else if reads.set_name is Err {
        Some(reads.set_name->Err_0)
    } else if reads.groups is Err {
        Some(reads.groups->Err_0)
    } else if reads.units is Err {
        Some(reads.units->Err_0)
    } else if reads.skills is Err {
        Some(reads.skills->Err_0)
    } else if reads.hearts is Err {
        Some(reads.hearts->Err_0)
    } else if reads.printings is Err {
        Some(reads.printings->Err_0)
    } else if reads.specifics is Err {
        Some(reads.specifics->Err_0)
    } else {
        None
    }
}

/// The stored rows of a card agree with its type: a Character or Live card has
/// the specifics row of its kind and at least one heart count, an Energy card
/// has neither; no count is negative, and the card has printings, all its own.
pub open spec fn rows_consistent(base: CardRow, reads: CardReads) -> bool {
    let hearts = reads.hearts->Ok_0@;
    let printings = reads.printings->Ok_0@;
    &&& match base.card_type {
        CardType::Character => reads.specifics->Ok_0 matches Some(CardTypeSpecifics::Character(ch))
            && ch.card_id == base.id && hearts.len() > 0,
        CardType::Live => reads.specifics->Ok_0 matches Some(CardTypeSpecifics::Live(l))
            && l.card_id == base.id && hearts.len() > 0,
        CardType::Energy => reads.specifics->Ok_0 is None && hearts.len() == 0,
    }
    &&& pairs_nonnegative(hearts)
    &&& printings.len() >= 1
    &&& forall|i: int| 0 <= i < printings.len() ==> #[trigger] printings[i].card_id == base.id
}

/// `c` is the card that the base row and the successful reads describe.
pub open spec fn assembles(c: FullCard, base: CardRow, reads: CardReads) -> bool {
    &&& c.base == (Card {
        id: base.id,
        series_code: base.series_code,
        set_code: base.set_code,
        number_in_set: base.number_in_set,
        name: reads.name->Ok_0,
        card_type: base.card_type,
    })
    &&& c.set_name == reads.set_name->Ok_0
    &&& c.groups == reads.groups->Ok_0
    &&& c.units == reads.units->Ok_0
    &&& c.skills == reads.skills->Ok_0
    &&& c.hearts@ == assoc_map(reads.hearts->Ok_0@)
    &&& c.printings == reads.printings->Ok_0
    &&& c.type_specifics == reads.specifics->Ok_0
}

/// Joins the reads of a card: the first failure, an inconsistency of the
/// stored rows, or the assembled card.
pub fn join_card_reads(base: CardRow, reads: CardReads) -> (r: Result<FullCard, DbError>)
    ensures
        match r {
            Ok(c) => first_failure(reads) is None && rows_consistent(base, reads) && assembles(c, base, reads),
            Err(e) => match first_failure(reads) {
                Some(f) => e == DbError::Storage(f),
                None => !rows_consistent(base, reads) && e == DbError::Inconsistent(base.id),
            },
        },
{
    let ghost all = reads;
    let ghost row = base;
    let CardReads { name, set_name, groups, units, skills, hearts, printings, specifics } = reads;
    let name = match name {
        Ok(v) => v,
        Err(f) => return Err(DbError::Storage(f)),
    };
    let set_name = match set_name {
        Ok(v) => v,
        Err(f) => return Err(DbError::Storage(f)),
    };
    let groups = match groups {
        Ok(v) => v,
        Err(f) => return Err(DbError::Storage(f)),
    };
    let units = match units {
        Ok(v) => v,
        Err(f) => return Err(DbError::Storage(f)),
    };
    let skills = match skills {
        Ok(v) => v,
        Err(f) => return Err(DbError::Storage(f)),
    };
    let hearts = match hearts {
        Ok(v) => v,
        Err(f) => return Err(DbError::Storage(f)),
    };
    let printings = match printings {
        Ok(v) => v,
        Err(f) => return Err(DbError::Storage(f)),
    };
    let type_specifics = match specifics {
        Ok(v) => v,
        Err(f) => return Err(DbError::Storage(f)),
    };
    let CardRow { id, series_code, set_code, number_in_set, name_id: _, card_type } = base;
    let fits_type = match (card_type, &type_specifics) {
        (CardType::Character, Some(CardTypeSpecifics::Character(ch))) => ch.card_id == id && hearts.len() > 0,
        (CardType::Live, Some(CardTypeSpecifics::Live(l))) => l.card_id == id && hearts.len() > 0,
        (CardType::Energy, None) => hearts.len() == 0,
        _ => false,
    };
    if !fits_type || printings.len() == 0 {
        return Err(DbError::Inconsistent(id));
    }
    let mut i: usize = 0;
    while i < hearts.len()
        invariant
            0 <= i <= hearts@.len(),
            hearts@ == all.hearts->Ok_0@,
            id == row.id,
            all == reads,
            row == base,
            first_failure(all) is None,
            forall|k: int| 0 <= k < i ==> hearts@[k].1 >= 0,
        decreases hearts@.len() - i,
    {
        if hearts[i].1 < 0 {
            assert(all.hearts->Ok_0@[i as int].1 < 0);
            return Err(DbError::Inconsistent(id));
        }
        i = i + 1;
    }
    let mut j: usize = 0;
    while j < printings.len()
        invariant
            0 <= j <= printings@.len(),
            printings@ == all.printings->Ok_0@,
            all == reads,
            row == base,
            first_failure(all) is None,
            id == row.id,
            forall|k: int| 0 <= k < j ==> #[trigger] printings@[k].card_id == id,
        decreases printings@.len() - j,
    {
        if printings[j].card_id != id {
            return Err(DbError::Inconsistent(id));
        }
        j = j + 1;
    }
    Ok(FullCard {
        base: Card { id, series_code, set_code, number_in_set, name, card_type },
        set_name,
        groups,
        units,
        skills,
        hearts: Hearts::from_rows(&hearts),
        printings,
        type_specifics,
    })
}

} // verus!
