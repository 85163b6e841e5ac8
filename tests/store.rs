use block_upgrades::api::{UpgradeRequest, UpgradeSuccessResponse};
use block_upgrades::catalog::{StatCatalog, StatRow};
use block_upgrades::category::Category;
use block_upgrades::engine::{GameStore, UpgradeOutcome};
use block_upgrades::error::UpgradeError;
use block_upgrades::registry::{BlockRegistry, OwnedBlock};
use block_upgrades::wallet::Wallet;

fn attacker_row(tier: u32, cost: u64) -> StatRow {
    StatRow {
        tier,
        upgrade_cost: cost,
        damage: Some(10 * tier as i32),
        max_health: Some(100 * tier as i32),
        radius: Some(2),
        speed: Some(3),
        artifact_capacity: None,
    }
}

fn defender_row(tier: u32, cost: u64) -> StatRow {
    StatRow {
        tier,
        upgrade_cost: cost,
        damage: Some(5 * tier as i32),
        max_health: None,
        radius: Some(4),
        speed: Some(1),
        artifact_capacity: None,
    }
}

fn mine_row(tier: u32, cost: u64) -> StatRow {
    StatRow {
        tier,
        upgrade_cost: cost,
        damage: Some(50 * tier as i32),
        max_health: None,
        radius: Some(1 + tier as i32),
        speed: None,
        artifact_capacity: None,
    }
}

fn building_row(tier: u32, cost: u64) -> StatRow {
    StatRow {
        tier,
        upgrade_cost: cost,
        damage: None,
        max_health: None,
        radius: None,
        speed: None,
        artifact_capacity: Some(1000 * tier as i32),
    }
}

fn sample_catalog() -> StatCatalog {
    let attacker = vec![
        attacker_row(1, 0),
        attacker_row(2, 50),
        attacker_row(3, 100),
        attacker_row(4, 150),
        attacker_row(5, 200),
    ];
    let defender = vec![defender_row(1, 0), defender_row(2, 80), defender_row(3, 160)];
    let mine = vec![mine_row(1, 0), mine_row(2, 60)];
    let building: Vec<StatRow> = (1..=10u32).map(|t| building_row(t, 100 * t as u64)).collect();
    StatCatalog::new(attacker, defender, mine, building).expect("valid catalog")
}

fn sample_store() -> GameStore {
    GameStore::new(sample_catalog())
}

#[test]
fn catalog_accepts_valid_tables() {
    let cat = sample_catalog();
    assert_eq!(cat.max_tier(Category::Attacker), 5);
    assert_eq!(cat.max_tier(Category::Defender), 3);
    assert_eq!(cat.max_tier(Category::Mine), 2);
    assert_eq!(cat.max_tier(Category::Building), 10);
}

#[test]
fn catalog_rejects_empty_table() {
    let r = StatCatalog::new(vec![], vec![defender_row(1, 0)], vec![mine_row(1, 0)], vec![building_row(1, 0)]);
    assert!(r.is_none());
}

#[test]
fn catalog_rejects_cost_not_increasing() {
    let r = StatCatalog::new(
        vec![attacker_row(1, 10), attacker_row(2, 10)],
        vec![defender_row(1, 0)],
        vec![mine_row(1, 0)],
        vec![building_row(1, 0)],
    );
    assert!(r.is_none());
}

#[test]
fn catalog_rejects_tier_gap() {
    let r = StatCatalog::new(
        vec![attacker_row(1, 0), attacker_row(3, 10)],
        vec![defender_row(1, 0)],
        vec![mine_row(1, 0)],
        vec![building_row(1, 0)],
    );
    assert!(r.is_none());
}

#[test]
fn catalog_rejects_attribute_of_other_category() {
    let r = StatCatalog::new(
        vec![attacker_row(1, 0)],
        vec![defender_row(1, 0)],
        vec![mine_row(1, 0)],
        vec![attacker_row(1, 0)],
    );
    assert!(r.is_none());
}

#[test]
fn check_table_detects_missing_speed() {
    let mut row = defender_row(1, 0);
    row.speed = None;
    assert!(!StatCatalog::check_table(Category::Defender, &vec![row]));
    assert!(StatCatalog::check_table(Category::Defender, &vec![defender_row(1, 0)]));
}

#[test]
fn next_tier_costs_more_than_current() {
    let cat = sample_catalog();
    for c in [Category::Attacker, Category::Defender, Category::Mine, Category::Building] {
        let max = cat.max_tier(c);
        for t in 1..max {
            let cur = cat.current_row(c, t).unwrap();
            let next = cat.next_row(c, t).unwrap();
            assert!(next.upgrade_cost > cur.upgrade_cost);
            assert_eq!(next.tier, t + 1);
        }
    }
}

#[test]
fn current_row_of_undefined_tier_is_not_found() {
    let cat = sample_catalog();
    assert_eq!(cat.current_row(Category::Mine, 0), Err(UpgradeError::NotFound));
    assert_eq!(cat.current_row(Category::Mine, 3), Err(UpgradeError::NotFound));
    assert_eq!(cat.current_row(Category::Mine, 2), Ok(mine_row(2, 60)));
}

#[test]
fn next_row_at_max_tier_is_none() {
    let cat = sample_catalog();
    assert_eq!(cat.next_row(Category::Building, 10), None);
    assert_eq!(cat.next_row(Category::Building, 9), Some(building_row(10, 1000)));
    assert_eq!(cat.next_row(Category::Attacker, 3), Some(attacker_row(4, 150)));
}

#[test]
fn attacker_tier3_upgrade_with_200() {
    let mut s = sample_store();
    s.acquire_block(1, 7, Category::Attacker, 3).unwrap();
    s.set_balance(1, 200);
    let o = s.upgrade_block(1, 7).unwrap();
    assert_eq!(o.new_tier, 4);
    assert_eq!(o.remaining_balance, 50);
    assert_eq!(o.new_row, attacker_row(4, 150));
    assert_eq!(s.balance(1), 50);
    assert_eq!(s.resolve(1, 7).unwrap().current_tier, 4);
}

#[test]
fn attacker_tier3_upgrade_with_100_is_refused() {
    let mut s = sample_store();
    s.acquire_block(1, 7, Category::Attacker, 3).unwrap();
    s.set_balance(1, 100);
    assert_eq!(s.upgrade_block(1, 7), Err(UpgradeError::InsufficientFunds));
    assert_eq!(s.balance(1), 100);
    assert_eq!(s.resolve(1, 7).unwrap().current_tier, 3);
}

#[test]
fn building_at_max_tier_is_refused_whatever_the_balance() {
    let mut s = sample_store();
    s.acquire_block(2, 9, Category::Building, 10).unwrap();
    s.set_balance(2, u64::MAX);
    assert_eq!(s.upgrade_block(2, 9), Err(UpgradeError::MaxTierReached));
    assert_eq!(s.balance(2), u64::MAX);
    assert_eq!(s.resolve(2, 9).unwrap().current_tier, 10);
}

#[test]
fn upgrade_with_exact_balance_leaves_zero() {
    let mut s = sample_store();
    s.acquire_block(1, 3, Category::Mine, 1).unwrap();
    s.set_balance(1, 60);
    let o = s.upgrade_block(1, 3).unwrap();
    assert_eq!(o.new_tier, 2);
    assert_eq!(s.balance(1), 0);
    assert_eq!(s.upgrade_block(1, 3), Err(UpgradeError::MaxTierReached));
}

#[test]
fn upgrade_of_unknown_or_foreign_block_is_not_found() {
    let mut s = sample_store();
    s.acquire_block(1, 7, Category::Attacker, 1).unwrap();
    s.set_balance(2, 1000);
    assert_eq!(s.upgrade_block(2, 7), Err(UpgradeError::NotFound));
    assert_eq!(s.upgrade_block(1, 8), Err(UpgradeError::NotFound));
    assert_eq!(s.balance(2), 1000);
    assert_eq!(s.resolve(1, 7).unwrap().current_tier, 1);
}

#[test]
fn upgrade_touches_only_its_own_block_and_owner() {
    let mut s = sample_store();
    s.acquire_block(1, 1, Category::Attacker, 1).unwrap();
    s.acquire_block(1, 2, Category::Attacker, 1).unwrap();
    s.acquire_block(2, 3, Category::Attacker, 1).unwrap();
    s.set_balance(1, 500);
    s.set_balance(2, 500);
    s.upgrade_block(1, 1).unwrap();
    assert_eq!(s.resolve(1, 1).unwrap().current_tier, 2);
    assert_eq!(s.resolve(1, 2).unwrap().current_tier, 1);
    assert_eq!(s.resolve(2, 3).unwrap().current_tier, 1);
    assert_eq!(s.balance(1), 450);
    assert_eq!(s.balance(2), 500);
}

#[test]
fn concurrent_upgrades_from_same_tier_succeed_once() {
    let mut s = sample_store();
    s.acquire_block(1, 7, Category::Defender, 1).unwrap();
    s.set_balance(1, 1000);
    let q1 = s.quote_upgrade(1, 7).unwrap();
    let q2 = s.quote_upgrade(1, 7).unwrap();
    assert_eq!(q1, q2);
    assert_eq!(q1.next.upgrade_cost, 80);
    let first = s.commit_upgrade(1, 7, q1.block.current_tier);
    let second = s.commit_upgrade(1, 7, q2.block.current_tier);
    assert_eq!(
        first,
        Ok(UpgradeOutcome { new_tier: 2, new_row: defender_row(2, 80), remaining_balance: 920 })
    );
    assert_eq!(second, Err(UpgradeError::Conflict));
    assert_eq!(s.balance(1), 920);
    assert_eq!(s.resolve(1, 7).unwrap().current_tier, 2);
}

#[test]
fn quote_reports_refusals_without_changes() {
    let mut s = sample_store();
    s.acquire_block(1, 7, Category::Attacker, 5).unwrap();
    s.acquire_block(1, 8, Category::Attacker, 1).unwrap();
    assert_eq!(s.quote_upgrade(1, 7), Err(UpgradeError::MaxTierReached));
    assert_eq!(s.quote_upgrade(1, 8), Err(UpgradeError::InsufficientFunds));
    assert_eq!(s.quote_upgrade(2, 8), Err(UpgradeError::NotFound));
}

#[test]
fn acquire_rejects_taken_id_and_undefined_tier() {
    let mut s = sample_store();
    assert_eq!(s.acquire_block(1, 7, Category::Mine, 1), Ok(()));
    assert_eq!(s.acquire_block(2, 7, Category::Attacker, 1), Err(UpgradeError::Conflict));
    assert_eq!(s.acquire_block(2, 8, Category::Mine, 3), Err(UpgradeError::NotFound));
    assert_eq!(s.acquire_block(2, 8, Category::Mine, 0), Err(UpgradeError::NotFound));
    assert_eq!(s.list_owned(2).len(), 0);
    assert_eq!(s.resolve(1, 7).unwrap().category, Category::Mine);
}

#[test]
fn list_owned_keeps_acquisition_order() {
    let mut s = sample_store();
    s.acquire_block(1, 30, Category::Mine, 1).unwrap();
    s.acquire_block(2, 10, Category::Mine, 1).unwrap();
    s.acquire_block(1, 20, Category::Attacker, 2).unwrap();
    let ids: Vec<u64> = s.list_owned(1).iter().map(|b| b.block_id).collect();
    assert_eq!(ids, vec![30, 20]);
}

#[test]
fn registry_advance_tier_checks_stored_tier() {
    let mut r = BlockRegistry::new();
    let b = OwnedBlock { block_id: 1, owner_id: 5, category: Category::Mine, current_tier: 1 };
    assert_eq!(r.insert(b), Ok(()));
    assert_eq!(r.insert(b), Err(UpgradeError::Conflict));
    assert_eq!(r.advance_tier(5, 1, 2, 3), Err(UpgradeError::Conflict));
    assert_eq!(r.advance_tier(6, 1, 1, 2), Err(UpgradeError::NotFound));
    assert_eq!(r.advance_tier(5, 1, 1, 2), Ok(()));
    assert_eq!(r.resolve(5, 1).unwrap().current_tier, 2);
    assert_eq!(r.resolve(6, 1), Err(UpgradeError::NotFound));
}

#[test]
fn wallet_debit_refuses_overdraft() {
    let mut w = Wallet::new();
    assert_eq!(w.balance(4), 0);
    w.set_balance(4, 30);
    assert_eq!(w.debit(4, 31), Err(UpgradeError::InsufficientFunds));
    assert_eq!(w.balance(4), 30);
    assert_eq!(w.debit(4, 30), Ok(()));
    assert_eq!(w.balance(4), 0);
}

#[test]
fn handle_upgrade_reports_new_level_and_hp() {
    let mut s = sample_store();
    s.acquire_block(1, 7, Category::Attacker, 3).unwrap();
    s.set_balance(1, 200);
    let req = UpgradeRequest { block_type: "defender".to_string(), variant: 7 };
    let resp: UpgradeSuccessResponse = s.handle_upgrade(1, &req).unwrap();
    assert_eq!(resp.message, "Upgrade success");
    assert_eq!(resp.block_level, 4);
    assert_eq!(resp.block_hp, 400);
    assert_eq!(resp.artifacts_stored, 50);
    assert_eq!(s.handle_upgrade(1, &req).unwrap_err(), UpgradeError::InsufficientFunds);
}

#[test]
fn handle_upgrade_of_building_reports_capacity() {
    let mut s = sample_store();
    s.acquire_block(1, 2, Category::Building, 1).unwrap();
    s.set_balance(1, 250);
    let req = UpgradeRequest { block_type: "bank".to_string(), variant: 2 };
    let resp = s.handle_upgrade(1, &req).unwrap();
    assert_eq!(resp.block_level, 2);
    assert_eq!(resp.block_hp, 2000);
    assert_eq!(resp.artifacts_stored, 50);
}

#[test]
fn inventory_of_player_without_blocks_is_empty() {
    let mut s = sample_store();
    s.acquire_block(2, 1, Category::Mine, 1).unwrap();
    let inv = s.get_inventory(1);
    assert!(inv.categories.is_empty());
}

#[test]
fn inventory_groups_by_category_in_fixed_order() {
    let mut s = sample_store();
    s.acquire_block(1, 10, Category::Building, 10).unwrap();
    s.acquire_block(1, 11, Category::Attacker, 2).unwrap();
    s.acquire_block(2, 12, Category::Defender, 1).unwrap();
    s.acquire_block(1, 13, Category::Attacker, 5).unwrap();
    let inv = s.get_inventory(1);
    assert_eq!(inv.categories.len(), 2);
    assert_eq!(inv.categories[0].category, Category::Attacker);
    assert_eq!(inv.categories[1].category, Category::Building);
    let attackers = &inv.categories[0].items;
    assert_eq!(attackers.len(), 2);
    assert_eq!(attackers[0].item_id, 11);
    assert_eq!(attackers[0].item_level, 2);
    assert_eq!(attackers[0].upgrade_cost, Some(100));
    assert_eq!(attackers[0].current, attacker_row(2, 50));
    assert_eq!(attackers[0].next, Some(attacker_row(3, 100)));
    assert_eq!(attackers[1].item_id, 13);
    assert_eq!(attackers[1].upgrade_cost, None);
    assert_eq!(attackers[1].next, None);
    let buildings = &inv.categories[1].items;
    assert_eq!(buildings.len(), 1);
    assert_eq!(buildings[0].current.artifact_capacity, Some(10000));
    assert_eq!(buildings[0].current.damage, None);
    assert_eq!(buildings[0].upgrade_cost, None);
}

#[test]
fn inventory_reflects_upgrade() {
    let mut s = sample_store();
    s.acquire_block(1, 5, Category::Mine, 1).unwrap();
    s.set_balance(1, 60);
    s.upgrade_block(1, 5).unwrap();
    let inv = s.get_inventory(1);
    assert_eq!(inv.categories.len(), 1);
    assert_eq!(inv.categories[0].category, Category::Mine);
    assert_eq!(inv.categories[0].items[0].item_level, 2);
    assert_eq!(inv.categories[0].items[0].current.radius, Some(3));
    assert_eq!(inv.categories[0].items[0].upgrade_cost, None);
}
