use llocg_catalog::cache::KeyedCache;
use llocg_catalog::errors::{DbError, StorageFailure};
use llocg_catalog::models::{
    BladeHeartColor, CardHeart, CardType, CardTypeSpecifics, CharacterCard, CreateCard, HeartColor, Hearts, LiveCard,
    Printing, RarityType, SpecialHeart,
};
use llocg_catalog::payload::CardPayload;
use llocg_catalog::reader::{base_read_error, join_card_reads, CardReads, CardRow};
use llocg_catalog::writer::{plan_batch, CreationPlan, StoreReply, StoreRequest, UnitOfWork, WorkAction};

fn s(x: &str) -> String {
    x.to_string()
}

fn hearts(pairs: &[(HeartColor, i64)]) -> Hearts {
    let mut h = Hearts::new();
    for (c, n) in pairs {
        h.insert(*c, *n);
    }
    h
}

fn character(identifier: &str, name: &str, groups: &[&str], units: &[&str]) -> CreateCard {
    CreateCard::from_payload(CardPayload {
        card_identifier: Some(s(identifier)),
        name: Some(s(name)),
        card_type: Some(CardType::Character),
        groups: groups.iter().map(|g| s(g)).collect(),
        units: units.iter().map(|u| s(u)).collect(),
        skills: vec![s("draw a card")],
        image_url: Some(s("https://example.org/card.png")),
        cost: Some(9),
        blades: Some(3),
        score: None,
        hearts: Some(hearts(&[(HeartColor::Red, 1), (HeartColor::Yellow, 1), (HeartColor::Purple, 3)])),
        blade_heart: None,
        special_heart: None,
    })
    .unwrap()
}

struct Caches {
    rarities: KeyedCache<RarityType>,
    names: KeyedCache<String>,
    groups: KeyedCache<String>,
}

fn caches() -> Caches {
    Caches {
        rarities: KeyedCache::from_rows(vec![(s("P"), RarityType::Parallel)]),
        names: KeyedCache::from_rows(vec![(s("Kanon Shibuya"), s("Shibuya Kanon"))]),
        groups: KeyedCache::from_rows(vec![(s("Superstar"), s("Love Live! Superstar!!"))]),
    }
}

fn plan(card: CreateCard, c: &Caches) -> CreationPlan {
    CreationPlan::new(card, &c.rarities, &c.names, &c.groups)
}

/// Runs a unit of work against a storage that answers through `answer`,
/// and returns the requests made and the final action.
fn run(uow: &mut UnitOfWork, mut answer: impl FnMut(&StoreRequest) -> StoreReply, commit: Result<(), StorageFailure>) -> (Vec<StoreRequest>, WorkAction) {
    let mut requests = Vec::new();
    loop {
        match uow.next_action() {
            WorkAction::Store(req) => {
                let reply = answer(&req);
                requests.push(req);
                uow.record(reply);
            }
            WorkAction::Commit => uow.record_commit(commit.clone()),
            done => return (requests, done),
        }
    }
}

/// A storage in which every group and unit exists.
fn ids_from(first: i64) -> impl FnMut(&StoreRequest) -> StoreReply {
    let mut next = first;
    move |req| match req {
        StoreRequest::PutName { .. } => StoreReply::Id(5),
        StoreRequest::PutCard { .. } => {
            next += 1;
            StoreReply::Id(next - 1)
        }
        _ => StoreReply::Written,
    }
}

#[test]
fn character_card_is_written_in_order() {
    let c = caches();
    let mut uow = UnitOfWork::new(vec![plan(character("PL!SP-bp1-001-R", "Shibuya Kanon", &["Love Live! Superstar!!"], &["CatChu!"]), &c)]);
    let (requests, last) = run(&mut uow, ids_from(42), Ok(()));
    assert_eq!(last, WorkAction::Finished);
    assert_eq!(
        requests,
        vec![
            StoreRequest::PutName { name: s("Shibuya Kanon") },
            StoreRequest::PutCard {
                series_code: s("PL!SP"),
                set_code: s("bp1"),
                number_in_set: s("001"),
                name_id: 5,
                card_type: CardType::Character,
            },
            StoreRequest::PutCharacter(CharacterCard { card_id: 42, cost: 9, blades: 3, blade_heart: None }),
            StoreRequest::PutPrinting {
                card_id: 42,
                rarity_code: s("R"),
                rarity_type: RarityType::Regular,
                image_url: Some(s("https://example.org/card.png")),
            },
            StoreRequest::PutHeart(CardHeart { card_id: 42, color: HeartColor::Red, count: 1 }),
            StoreRequest::PutHeart(CardHeart { card_id: 42, color: HeartColor::Yellow, count: 1 }),
            StoreRequest::PutHeart(CardHeart { card_id: 42, color: HeartColor::Purple, count: 3 }),
            StoreRequest::LinkGroup { card_id: 42, group_name: s("Love Live! Superstar!!") },
            StoreRequest::LinkUnit { card_id: 42, unit_name: s("CatChu!") },
            StoreRequest::LinkSkill { card_id: 42, skill_text: s("draw a card") },
        ]
    );
    assert_eq!(uow.outcome(), Some(Ok(vec![42])));
}

#[test]
fn names_groups_and_rarity_are_resolved() {
    let c = caches();
    let p = plan(character("PL!SP-bp1-001-P", "Kanon Shibuya", &["Superstar", "Liella"], &[]), &c);
    assert_eq!(p.canonical_name, "Shibuya Kanon");
    assert_eq!(p.groups, vec![s("Love Live! Superstar!!"), s("Liella")]);
    assert_eq!(p.rarity_type, RarityType::Parallel);
    assert_eq!(p.identity, "PL!SP-bp1-001");
}

#[test]
fn missing_group_rolls_back_everything() {
    let c = caches();
    let mut uow = UnitOfWork::new(vec![plan(character("PL!SP-bp1-001-R", "Shibuya Kanon", &["Nonexistent Group"], &[]), &c)]);
    let mut base = ids_from(42);
    let (requests, last) = run(
        &mut uow,
        |req| match req {
            StoreRequest::LinkGroup { .. } => StoreReply::Missing,
            other => base(other),
        },
        Ok(()),
    );
    assert_eq!(last, WorkAction::Rollback);
    assert!(matches!(requests.last(), Some(StoreRequest::LinkGroup { .. })));
    assert_eq!(uow.next_action(), WorkAction::Rollback);
    uow.record(StoreReply::Written);
    uow.record_commit(Ok(()));
    assert_eq!(uow.next_action(), WorkAction::Rollback);
    assert_eq!(uow.outcome(), Some(Err(DbError::GroupNotFound(s("Nonexistent Group")))));
    assert_eq!(base_read_error(42, StorageFailure::RowNotFound), DbError::CardNotFound(42));
}

#[test]
fn missing_group_is_named_in_canonical_form() {
    let c = caches();
    let mut uow = UnitOfWork::new(vec![plan(character("PL!SP-bp1-001-R", "Shibuya Kanon", &["Superstar"], &[]), &c)]);
    let mut base = ids_from(1);
    run(
        &mut uow,
        |req| match req {
            StoreRequest::LinkGroup { .. } => StoreReply::Missing,
            other => base(other),
        },
        Ok(()),
    );
    assert_eq!(uow.outcome(), Some(Err(DbError::GroupNotFound(s("Love Live! Superstar!!")))));
}

#[test]
fn missing_unit_in_a_batch_rolls_back_the_batch() {
    let c = caches();
    let plans = plan_batch(
        vec![
            character("PL!SP-bp1-001-R", "Shibuya Kanon", &[], &["CatChu!"]),
            character("PL!SP-bp1-002-R", "Tang Keke", &[], &["KALEIDOSCORE"]),
        ],
        &c.rarities,
        &c.names,
        &c.groups,
    );
    let mut uow = UnitOfWork::new(plans);
    let mut base = ids_from(10);
    let (requests, last) = run(
        &mut uow,
        |req| match req {
            StoreRequest::LinkUnit { unit_name, .. } if unit_name == "KALEIDOSCORE" => StoreReply::Missing,
            other => base(other),
        },
        Ok(()),
    );
    assert_eq!(last, WorkAction::Rollback);
    assert_eq!(requests.iter().filter(|r| matches!(r, StoreRequest::PutCard { .. })).count(), 2);
    assert_eq!(uow.outcome(), Some(Err(DbError::UnitNotFound(s("KALEIDOSCORE")))));
}

#[test]
fn batch_commits_once_and_returns_ids_in_order() {
    let c = caches();
    let plans = plan_batch(
        vec![
            character("PL!SP-bp1-001-R", "Shibuya Kanon", &[], &[]),
            character("PL!SP-bp1-002-R", "Tang Keke", &[], &[]),
            character("PL!SP-bp1-003-R", "Heanna Sumire", &[], &[]),
        ],
        &c.rarities,
        &c.names,
        &c.groups,
    );
    assert_eq!(plans.len(), 3);
    let mut uow = UnitOfWork::new(plans);
    let mut commits = 0;
    let mut answer = ids_from(100);
    loop {
        match uow.next_action() {
            WorkAction::Store(req) => {
                let reply = answer(&req);
                uow.record(reply);
            }
            WorkAction::Commit => {
                commits += 1;
                uow.record_commit(Ok(()));
            }
            _ => break,
        }
    }
    assert_eq!(commits, 1);
    assert_eq!(uow.outcome(), Some(Ok(vec![100, 101, 102])));
}

#[test]
fn empty_batch_goes_straight_to_commit() {
    let mut uow = UnitOfWork::new(Vec::new());
    assert_eq!(uow.next_action(), WorkAction::Commit);
    uow.record_commit(Ok(()));
    assert_eq!(uow.next_action(), WorkAction::Finished);
    assert_eq!(uow.outcome(), Some(Ok(Vec::new())));
}

#[test]
fn failed_commit_is_an_error() {
    let c = caches();
    let mut uow = UnitOfWork::new(vec![plan(character("PL!SP-bp1-001-R", "Shibuya Kanon", &[], &[]), &c)]);
    let (_, last) = run(&mut uow, ids_from(1), Err(StorageFailure::Other(s("database is locked"))));
    assert_eq!(last, WorkAction::Rollback);
    assert_eq!(uow.outcome(), Some(Err(DbError::Storage(StorageFailure::Other(s("database is locked"))))));
}

#[test]
fn duplicate_card_is_a_conflict_on_its_identity() {
    let c = caches();
    let mut uow = UnitOfWork::new(vec![plan(character("PL!SP-bp1-001-R", "Shibuya Kanon", &[], &[]), &c)]);
    let mut base = ids_from(1);
    run(
        &mut uow,
        |req| match req {
            StoreRequest::PutCard { .. } => StoreReply::Failed(StorageFailure::UniqueViolation),
            other => base(other),
        },
        Ok(()),
    );
    assert_eq!(uow.outcome(), Some(Err(DbError::Conflict(s("PL!SP-bp1-001")))));
}

#[test]
fn name_write_without_an_id_is_a_storage_error() {
    let c = caches();
    let mut uow = UnitOfWork::new(vec![plan(character("PL!SP-bp1-001-R", "Shibuya Kanon", &[], &[]), &c)]);
    uow.record(StoreReply::Written);
    assert_eq!(uow.next_action(), WorkAction::Rollback);
    assert_eq!(uow.outcome(), Some(Err(DbError::Storage(StorageFailure::RowNotFound))));
}

#[test]
fn unfinished_work_has_no_outcome() {
    let c = caches();
    let uow = UnitOfWork::new(vec![plan(character("PL!SP-bp1-001-R", "Shibuya Kanon", &[], &[]), &c)]);
    assert_eq!(uow.outcome(), None);
}

#[test]
fn energy_card_writes_no_specifics_and_no_hearts() {
    let card = CreateCard::from_payload(CardPayload {
        card_identifier: Some(s("PL!HS-bp1-031-PE＋")),
        name: Some(s("ANYOJI HIME")),
        card_type: Some(CardType::Energy),
        groups: Vec::new(),
        units: Vec::new(),
        skills: Vec::new(),
        image_url: None,
        cost: None,
        blades: None,
        score: None,
        hearts: None,
        blade_heart: None,
        special_heart: None,
    })
    .unwrap();
    let c = caches();
    let mut uow = UnitOfWork::new(vec![plan(card, &c)]);
    let (requests, last) = run(&mut uow, ids_from(7), Ok(()));
    assert_eq!(last, WorkAction::Finished);
    assert_eq!(requests.len(), 3);
    assert_eq!(
        requests[2],
        StoreRequest::PutPrinting { card_id: 7, rarity_code: s("PE＋"), rarity_type: RarityType::Regular, image_url: None }
    );
}

#[test]
fn live_card_writes_its_specifics() {
    let card = CreateCard::from_payload(CardPayload {
        card_identifier: Some(s("PL!SP-bp1-023-L")),
        name: Some(s("START!! True dreams")),
        card_type: Some(CardType::Live),
        groups: Vec::new(),
        units: Vec::new(),
        skills: Vec::new(),
        image_url: None,
        cost: None,
        blades: None,
        score: Some(1),
        hearts: Some(hearts(&[(HeartColor::Gray, 2)])),
        blade_heart: Some(BladeHeartColor::All),
        special_heart: Some(SpecialHeart::Score),
    })
    .unwrap();
    let c = caches();
    let mut uow = UnitOfWork::new(vec![plan(card, &c)]);
    let (requests, _) = run(&mut uow, ids_from(8), Ok(()));
    assert_eq!(
        requests[2],
        StoreRequest::PutLive(LiveCard {
            card_id: 8,
            score: 1,
            blade_heart: Some(BladeHeartColor::All),
            special_heart: Some(SpecialHeart::Score),
        })
    );
    assert_eq!(requests[4], StoreRequest::PutHeart(CardHeart { card_id: 8, color: HeartColor::Gray, count: 2 }));
}

#[test]
fn created_card_reads_back_as_requested() {
    let c = caches();
    let mut uow = UnitOfWork::new(vec![plan(character("PL!SP-bp1-001-R", "Kanon Shibuya", &["Superstar"], &["CatChu!"]), &c)]);
    let (requests, last) = run(&mut uow, ids_from(42), Ok(()));
    assert_eq!(last, WorkAction::Finished);

    // A storage that keeps exactly what was written.
    let mut row = None;
    let mut name = None;
    let mut groups = Vec::new();
    let mut units = Vec::new();
    let mut skills = Vec::new();
    let mut heart_rows = Vec::new();
    let mut printings = Vec::new();
    let mut specifics = None;
    for req in requests {
        match req {
            StoreRequest::PutName { name: n } => name = Some(n),
            StoreRequest::PutCard { series_code, set_code, number_in_set, name_id, card_type } => {
                row = Some(CardRow { id: 42, series_code, set_code, number_in_set, name_id, card_type })
            }
            StoreRequest::PutCharacter(ch) => specifics = Some(CardTypeSpecifics::Character(ch)),
            StoreRequest::PutLive(l) => specifics = Some(CardTypeSpecifics::Live(l)),
            StoreRequest::PutPrinting { card_id, rarity_code, rarity_type, image_url } => {
                printings.push(Printing { id: 1, card_id, rarity_code, rarity_type, image_url })
            }
            StoreRequest::PutHeart(h) => heart_rows.push((h.color, h.count)),
            StoreRequest::LinkGroup { group_name, .. } => groups.push(group_name),
            StoreRequest::LinkUnit { unit_name, .. } => units.push(unit_name),
            StoreRequest::LinkSkill { skill_text, .. } => skills.push(skill_text),
        }
    }
    let reads = CardReads {
        name: Ok(name.unwrap()),
        set_name: Ok(s("Booster Pack vol.1")),
        groups: Ok(groups),
        units: Ok(units),
        skills: Ok(skills),
        hearts: Ok(heart_rows),
        printings: Ok(printings),
        specifics: Ok(specifics),
    };
    let card = join_card_reads(row.unwrap(), reads).unwrap();
    assert_eq!(card.base.id, 42);
    assert_eq!(card.base.series_code, "PL!SP");
    assert_eq!(card.base.set_code, "bp1");
    assert_eq!(card.base.number_in_set, "001");
    assert_eq!(card.base.name, "Shibuya Kanon");
    assert_eq!(card.base.card_type, CardType::Character);
    assert_eq!(card.set_name, "Booster Pack vol.1");
    assert_eq!(card.groups, vec![s("Love Live! Superstar!!")]);
    assert_eq!(card.units, vec![s("CatChu!")]);
    assert_eq!(card.skills, vec![s("draw a card")]);
    assert_eq!(card.hearts.get(HeartColor::Red), Some(1));
    assert_eq!(card.hearts.get(HeartColor::Yellow), Some(1));
    assert_eq!(card.hearts.get(HeartColor::Purple), Some(3));
    assert_eq!(card.hearts.get(HeartColor::Blue), None);
    assert_eq!(card.printings.len(), 1);
    assert_eq!(card.printings[0].rarity_code, "R");
    assert_eq!(card.printings[0].rarity_type, RarityType::Regular);
    assert_eq!(
        card.type_specifics,
        Some(CardTypeSpecifics::Character(CharacterCard { card_id: 42, cost: 9, blades: 3, blade_heart: None }))
    );
}

#[test]
fn duplicate_group_link_is_a_conflict_on_the_group() {
    let c = caches();
    let mut uow = UnitOfWork::new(vec![plan(character("PL!SP-bp1-001-R", "Shibuya Kanon", &["Liella", "Liella"], &[]), &c)]);
    let mut base = ids_from(1);
    let mut links = 0;
    run(
        &mut uow,
        |req| match req {
            StoreRequest::LinkGroup { .. } => {
                links += 1;
                if links == 2 { StoreReply::Failed(StorageFailure::UniqueViolation) } else { StoreReply::Written }
            }
            other => base(other),
        },
        Ok(()),
    );
    assert_eq!(uow.outcome(), Some(Err(DbError::Conflict(s("Liella")))));
}

#[test]
fn duplicate_specifics_row_is_a_storage_error() {
    let c = caches();
    let mut uow = UnitOfWork::new(vec![plan(character("PL!SP-bp1-001-R", "Shibuya Kanon", &[], &[]), &c)]);
    let mut base = ids_from(1);
    run(
        &mut uow,
        |req| match req {
            StoreRequest::PutCharacter(_) => StoreReply::Failed(StorageFailure::UniqueViolation),
            other => base(other),
        },
        Ok(()),
    );
    assert_eq!(uow.outcome(), Some(Err(DbError::Storage(StorageFailure::UniqueViolation))));
}
