//! Properties that hold across the operations of the catalog.

use vstd::prelude::*;
use crate::assoc::assoc_map;
use crate::cache::{after_insert, after_remove, canonical_of, rarity_of};
use crate::errors::{DbError, StorageFailure};
use crate::models::{CardTypeSpecifics, CharacterCard, CreateCard, CreateCardTypeSpecifics, HeartColor, Hearts, LiveCard, Printing, RarityType};
use crate::payload::request_well_formed;
use crate::reader::{assembles, first_failure, rows_consistent, CardReads, CardRow};
use crate::writer::{
    action_of, after_commit, after_reply, cursor_valid, heart_pairs, lemma_after_reply_wf, lemma_next_position, lemma_request_position,
    lemma_position_injective, next_cursor, plan_fits, planned, position, request_at, requests_of, work_wf, write_count, CreationPlan, Cursor,
    StoreReply, StoreRequest, WorkAction, WorkState, WorkStatus,
};

verus! {

/// The heart counts that a creation request declares.
pub open spec fn declared_hearts(card: CreateCard) -> Map<HeartColor, i64> {
    match card.type_specifics {
        Some(CreateCardTypeSpecifics::Character(c)) => c.hearts@,
        Some(CreateCardTypeSpecifics::Live(l)) => l.hearts@,
        None => Map::empty(),
    }
}

/// The specifics row that a creation request stores for card `card_id`.
pub open spec fn stored_specifics(card: CreateCard, card_id: i64) -> Option<CardTypeSpecifics> {
    match card.type_specifics {
        Some(CreateCardTypeSpecifics::Character(c)) => Some(
            CardTypeSpecifics::Character(CharacterCard { card_id, cost: c.cost, blades: c.blades, blade_heart: c.blade_heart }),
        ),
        Some(CreateCardTypeSpecifics::Live(l)) => Some(
            CardTypeSpecifics::Live(
                LiveCard { card_id, score: l.score, blade_heart: l.blade_heart, special_heart: l.special_heart },
            ),
        ),
        None => None,
    }
}

/// The reads of card `card_id` return what the requests of `plan` stored:
/// the base row, the canonical name, the links, the heart rows in the order
/// written, the one printing and the specifics row.
pub open spec fn reads_echo(plan: CreationPlan, name_id: i64, card_id: i64, base: CardRow, reads: CardReads) -> bool {
    &&& base == (CardRow {
        id: card_id,
        series_code: plan.card.series_code,
        set_code: plan.card.set_code,
        number_in_set: plan.card.number_in_set,
        name_id,
        card_type: plan.card.card_type,
    })
    &&& reads.name == Ok::<String, StorageFailure>(plan.canonical_name)
    &&& reads.set_name is Ok
    &&& reads.groups == Ok::<Vec<String>, StorageFailure>(plan.groups)
    &&& reads.units == Ok::<Vec<String>, StorageFailure>(plan.card.units)
    &&& reads.skills == Ok::<Vec<String>, StorageFailure>(plan.card.skills)
    &&& reads.hearts matches Ok(h) && h@ == heart_pairs(plan)
    &&& reads.printings matches Ok(p) && p@.len() == 1 && p@[0] == (Printing {
        id: p@[0].id,
        card_id,
        rarity_code: plan.card.rarity_code,
        rarity_type: plan.rarity_type,
        image_url: plan.card.image_url,
    })
    &&& reads.specifics == Ok::<Option<CardTypeSpecifics>, StorageFailure>(stored_specifics(plan.card, card_id))
}

/// Round trip: the rows that the creation of a valid `card` stored are
/// consistent, so they join into a card, and that card has every field of
/// `card`, except that its name and group names are
/// in canonical form and its printing carries the resolved rarity type.
pub proof fn lemma_round_trip(
    card: CreateCard,
    rarities: Map<Seq<char>, RarityType>,
    names: Map<Seq<char>, String>,
    group_names: Map<Seq<char>, String>,
    plan: CreationPlan,
    name_id: i64,
    card_id: i64,
    base: CardRow,
    reads: CardReads,
    c: crate::models::FullCard,
)
    requires
        request_well_formed(card),
        planned(plan, card, rarities, names, group_names),
        reads_echo(plan, name_id, card_id, base, reads),
        assembles(c, base, reads),
    ensures
        first_failure(reads) is None,
        rows_consistent(base, reads),
        c.base.id == card_id,
        c.base.series_code == card.series_code,
        c.base.set_code == card.set_code,
        c.base.number_in_set == card.number_in_set,
        c.base.card_type == card.card_type,
        c.base.name@ == canonical_of(names, card.name@),
        c.groups@.len() == card.groups@.len(),
        forall|i: int| 0 <= i < card.groups@.len() ==> #[trigger] c.groups@[i]@ == canonical_of(group_names, card.groups@[i]@),
        c.units == card.units,
        c.skills == card.skills,
        c.hearts@ == declared_hearts(card),
        c.printings@.len() == 1,
        c.printings@[0].card_id == card_id,
        c.printings@[0].rarity_code == card.rarity_code,
        c.printings@[0].rarity_type == rarity_of(rarities, card.rarity_code@),
        c.printings@[0].image_url == card.image_url,
        c.type_specifics == stored_specifics(card, card_id),
{
    match card.type_specifics {
        Some(CreateCardTypeSpecifics::Character(ch)) => Hearts::lemma_pairs(&ch.hearts),
        Some(CreateCardTypeSpecifics::Live(l)) => Hearts::lemma_pairs(&l.hearts),
        None => {
            assert(assoc_map(Seq::<(HeartColor, i64)>::empty()) == Map::<HeartColor, i64>::empty());
        },
    }
}

/// Storage's answer to a write at cursor `c` that succeeds: the id `n` of the
/// name, the id `cid` of the base row, or plain success.
pub open spec fn success_reply(c: Cursor, n: i64, cid: i64) -> StoreReply {
    match c {
        Cursor::Name => StoreReply::Id(n),
        Cursor::Card => StoreReply::Id(cid),
        _ => StoreReply::Written,
    }
}

/// The requests that the unit of work makes for its current card from `w`
/// on, while every write succeeds; `fuel` bounds their number.
pub open spec fn card_run(w: WorkState, n: i64, cid: i64, fuel: nat) -> Seq<StoreRequest>
    decreases fuel,
{
    if fuel == 0 || !(w.status is Writing) {
        Seq::empty()
    } else {
        let req = request_at(w.plans[w.index], w.cursor, w.name_id, w.card_id);
        let next = after_reply(w, success_reply(w.cursor, n, cid));
        if next.index != w.index {
            seq![req]
        } else {
            seq![req] + card_run(next, n, cid, (fuel - 1) as nat)
        }
    }
}

proof fn lemma_card_run_from(w: WorkState, n: i64, cid: i64)
    requires
        work_wf(w),
        w.status is Writing,
        plan_fits(w.plans[w.index]),
        position(w.plans[w.index], w.cursor) >= 1 ==> w.name_id == n,
        position(w.plans[w.index], w.cursor) >= 2 ==> w.card_id == cid,
    ensures
        card_run(w, n, cid, (write_count(w.plans[w.index]) - position(w.plans[w.index], w.cursor)) as nat)
            == requests_of(w.plans[w.index], n, cid).subrange(
            position(w.plans[w.index], w.cursor),
            write_count(w.plans[w.index]),
        ),
    decreases write_count(w.plans[w.index]) - position(w.plans[w.index], w.cursor),
{
    let plan = w.plans[w.index];
    let c = w.cursor;
    let p = position(plan, c);
    let total = write_count(plan);
    let all = requests_of(plan, n, cid);
    lemma_request_position(plan, c, n, cid);
    lemma_next_position(plan, c);
    assert(request_at(plan, c, w.name_id, w.card_id) == request_at(plan, c, n, cid));
    let next = after_reply(w, success_reply(c, n, cid));
    lemma_after_reply_wf(w, success_reply(c, n, cid));
    match next_cursor(plan, c) {
        Some(d) => {
            assert(next.index == w.index);
            assert(next.plans == w.plans);
            assert(next.cursor == d);
            lemma_card_run_from(next, n, cid);
            assert(all.subrange(p, total) =~= seq![all[p]] + all.subrange(p + 1, total));
        },
        None => {
            assert(all.subrange(p, total) =~= seq![all[p]]);
        },
    }
}

/// A card's writes: while every write succeeds, the unit of work makes for
/// the card it starts exactly the requests `requests_of`, in that order, and
/// then goes on to the next card or to the commit.
pub proof fn lemma_card_writes(w: WorkState, n: i64, cid: i64)
    requires
        work_wf(w),
        w.status is Writing,
        w.cursor == Cursor::Name,
        plan_fits(w.plans[w.index]),
    ensures
        card_run(w, n, cid, write_count(w.plans[w.index]) as nat) == requests_of(w.plans[w.index], n, cid),
{
    lemma_card_run_from(w, n, cid);
    lemma_request_position(w.plans[w.index], Cursor::Name, n, cid);
    assert(requests_of(w.plans[w.index], n, cid).subrange(0, write_count(w.plans[w.index])) =~= requests_of(
        w.plans[w.index],
        n,
        cid,
    ));
}

/// The not-found error of a missing group or unit at cursor `c` of `plan`.
pub open spec fn missing_error(plan: CreationPlan, c: Cursor) -> DbError {
    match c {
        Cursor::Group(i) => DbError::GroupNotFound(plan.groups@[i as int]),
        Cursor::Unit(i) => DbError::UnitNotFound(plan.card.units@[i as int]),
        _ => DbError::Storage(StorageFailure::RowNotFound),
    }
}

/// Storage that answers every write with success, except that the group or
/// unit looked up at cursor `missing` does not exist.
pub open spec fn reply_missing_at(missing: Cursor, c: Cursor, n: i64, cid: i64) -> StoreReply {
    if c == missing {
        StoreReply::Missing
    } else {
        success_reply(c, n, cid)
    }
}

/// The unit of work after its current card's writes, answered as
/// `reply_missing_at` answers them; `fuel` bounds their number.
pub open spec fn card_end(w: WorkState, missing: Cursor, n: i64, cid: i64, fuel: nat) -> WorkState
    decreases fuel,
{
    if fuel == 0 || !(w.status is Writing) {
        w
    } else {
        let next = after_reply(w, reply_missing_at(missing, w.cursor, n, cid));
        if next.index != w.index {
            next
        } else {
            card_end(next, missing, n, cid, (fuel - 1) as nat)
        }
    }
}

proof fn lemma_card_end_from(w: WorkState, missing: Cursor, n: i64, cid: i64)
    requires
        work_wf(w),
        w.status is Writing,
        plan_fits(w.plans[w.index]),
        missing is Group || missing is Unit,
        cursor_valid(w.plans[w.index], missing),
        position(w.plans[w.index], w.cursor) <= position(w.plans[w.index], missing),
    ensures
        card_end(w, missing, n, cid, (write_count(w.plans[w.index]) - position(w.plans[w.index], w.cursor)) as nat).status
            == WorkStatus::Aborted(missing_error(w.plans[w.index], missing)),
    decreases position(w.plans[w.index], missing) - position(w.plans[w.index], w.cursor),
{
    let plan = w.plans[w.index];
    let c = w.cursor;
    lemma_request_position(plan, c, n, cid);
    lemma_request_position(plan, missing, n, cid);
    lemma_next_position(plan, c);
    let next = after_reply(w, reply_missing_at(missing, c, n, cid));
    lemma_after_reply_wf(w, reply_missing_at(missing, c, n, cid));
    let fuel = (write_count(plan) - position(plan, c)) as nat;
    if position(plan, c) == position(plan, missing) {
        lemma_position_injective(plan, c, missing);
        assert(next.status is Aborted);
        assert(card_end(next, missing, n, cid, (fuel - 1) as nat) == next);
        assert(card_end(w, missing, n, cid, fuel) == next);
    } else {
        assert(c != missing);
        match next_cursor(plan, c) {
            Some(d) => {
                assert(next.index == w.index);
                assert(next.plans == w.plans);
                assert(next.cursor == d);
                lemma_card_end_from(next, missing, n, cid);
            },
            None => {},
        }
    }
}

/// Atomicity from the start of a card: where one group or unit that the card
/// names does not exist and every other write succeeds, the card's writes end
/// with the unit of work aborted with the not-found error naming it (a group
/// by its canonical name), so that only the rollback is asked for.
pub proof fn lemma_missing_reference_aborts_card(w: WorkState, missing: Cursor, n: i64, cid: i64)
    requires
        work_wf(w),
        w.status is Writing,
        w.cursor == Cursor::Name,
        plan_fits(w.plans[w.index]),
        missing is Group || missing is Unit,
        cursor_valid(w.plans[w.index], missing),
    ensures
        card_end(w, missing, n, cid, write_count(w.plans[w.index]) as nat).status == WorkStatus::Aborted(
            missing_error(w.plans[w.index], missing),
        ),
        action_of(card_end(w, missing, n, cid, write_count(w.plans[w.index]) as nat)) == WorkAction::Rollback,
{
    lemma_card_end_from(w, missing, n, cid);
}

/// The unit of work after the replies `rs`, in order.
pub open spec fn after_replies(w: WorkState, rs: Seq<StoreReply>) -> WorkState
    decreases rs.len(),
{
    if rs.len() == 0 {
        w
    } else {
        after_replies(after_reply(w, rs[0]), rs.subrange(1, rs.len() as int))
    }
}

proof fn lemma_aborted_stays(w: WorkState, rs: Seq<StoreReply>)
    requires
        w.status is Aborted,
    ensures
        after_replies(w, rs) == w,
    decreases rs.len(),
{
    if rs.len() > 0 {
        lemma_aborted_stays(after_reply(w, rs[0]), rs.subrange(1, rs.len() as int));
    }
}

/// Atomicity: a group or unit that does not exist aborts the unit of work
/// with a not-found error that names it. From then on it stays aborted,
/// whatever storage answers, and asks for nothing but the rollback: the
/// commit is never asked for, so no row of the batch persists.
pub proof fn lemma_missing_reference_rolls_back(
    w: WorkState,
    later: Seq<StoreReply>,
    commit: Result<(), StorageFailure>,
)
    requires
        work_wf(w),
        w.status is Writing,
        w.cursor is Group || w.cursor is Unit,
    ensures
        w.cursor matches Cursor::Group(i) ==> after_reply(w, StoreReply::Missing).status == WorkStatus::Aborted(
            DbError::GroupNotFound(w.plans[w.index].groups@[i as int]),
        ),
        w.cursor matches Cursor::Unit(i) ==> after_reply(w, StoreReply::Missing).status == WorkStatus::Aborted(
            DbError::UnitNotFound(w.plans[w.index].card.units@[i as int]),
        ),
        after_replies(after_reply(w, StoreReply::Missing), later) == after_reply(w, StoreReply::Missing),
        after_commit(after_replies(after_reply(w, StoreReply::Missing), later), commit) == after_reply(
            w,
            StoreReply::Missing,
        ),
        action_of(after_replies(after_reply(w, StoreReply::Missing), later)) == WorkAction::Rollback,
{
    lemma_aborted_stays(after_reply(w, StoreReply::Missing), later);
}

/// The commit is asked for only once every card of the batch has been
/// written in full: there is then one created id per card.
pub proof fn lemma_commit_after_all_cards(w: WorkState)
    requires
        work_wf(w),
        action_of(w) is Commit,
    ensures
        w.index == w.plans.len(),
        w.created.len() == w.plans.len(),
{
}

/// A reference table in storage, whose key is unique: inserting a key that
/// is taken is refused, and nothing changes.
pub open spec fn table_insert<V>(s: Map<Seq<char>, V>, k: Seq<char>, v: V) -> (Map<Seq<char>, V>, Result<(), StorageFailure>) {
    if s.contains_key(k) {
        (s, Err(StorageFailure::UniqueViolation))
    } else {
        (s.insert(k, v), Ok(()))
    }
}

/// Deleting a key from a reference table in storage, and how many rows that affected.
pub open spec fn table_delete<V>(s: Map<Seq<char>, V>, k: Seq<char>) -> (Map<Seq<char>, V>, u64) {
    if s.contains_key(k) {
        (s.remove(k), 1)
    } else {
        (s, 0)
    }
}

/// Cache and storage agree: a mirror equal to its table stays equal to it
/// after an insert and after a delete, each applied to the mirror as storage
/// answered it.
pub proof fn lemma_mirror_follows_storage<V>(m: Map<Seq<char>, V>, s: Map<Seq<char>, V>, k: Seq<char>, v: V)
    requires
        m == s,
    ensures
        after_insert(m, k, v, table_insert(s, k, v).1) == table_insert(s, k, v).0,
        after_remove(m, k, table_delete(s, k).1) == table_delete(s, k).0,
{
}

/// Two upserts of one new key, serialized by the write lock: the first is
/// stored and enters the mirror, so the check of the second finds the key and
/// refuses it as a conflict before storage is touched. Where the second got
/// past a stale mirror, storage refuses its write as a duplicate, which
/// `finish_insert` reports as a conflict without touching the mirror. Either
/// way storage ends with one row for the key, holding the first value.
pub proof fn lemma_second_upsert_conflicts<V>(m: Map<Seq<char>, V>, s: Map<Seq<char>, V>, k: Seq<char>, v1: V, v2: V)
    requires
        m == s,
        !s.contains_key(k),
    ensures
        table_insert(s, k, v1).1 is Ok,
        after_insert(m, k, v1, table_insert(s, k, v1).1).contains_key(k),
        table_insert(table_insert(s, k, v1).0, k, v2) == (table_insert(s, k, v1).0, Err::<(), StorageFailure>(StorageFailure::UniqueViolation)),
        after_insert(m, k, v2, Err(StorageFailure::UniqueViolation)) == m,
        table_insert(s, k, v1).0.dom() == s.dom().insert(k),
        table_insert(s, k, v1).0[k] == v1,
{
}

} // verus!
