use icraft::inventory::Item;
use icraft::loot::{get_loot_table, roll_loot_table, LootTableId, SimpleLootRng};

#[test]
fn test_loot_rolling_determinism() {
    let items1 = roll_loot_table(LootTableId::Dungeon, 12345);
    let items2 = roll_loot_table(LootTableId::Dungeon, 12345);
    assert_eq!(items1, items2);
    assert!(!items1.is_empty());

    let items3 = roll_loot_table(LootTableId::Dungeon, 54321);
    assert_ne!(items1, items3);
}

#[test]
fn test_end_city_loot_contains_elytra() {
    let items = roll_loot_table(LootTableId::EndCity, 9999);
    assert!(items.iter().any(|st| st.item == Item::Elytra));
}

#[test]
fn table_paths_round_trip() {
    let ids = [
        LootTableId::Dungeon,
        LootTableId::Mineshaft,
        LootTableId::Village,
        LootTableId::StrongholdCorridor,
        LootTableId::StrongholdLibrary,
        LootTableId::NetherBridge,
        LootTableId::EndCity,
    ];
    for id in ids {
        assert_eq!(LootTableId::from_str(id.as_str()), Some(id));
    }
    assert_eq!(LootTableId::from_str("chests/village"), Some(LootTableId::Village));
    assert_eq!(LootTableId::from_str("chests/unknown"), None);
    assert_eq!(LootTableId::Mineshaft.as_str(), "chests/abandoned_mineshaft");
}

#[test]
fn generator_steps_are_the_documented_congruence() {
    let mut rng = SimpleLootRng::new(0);
    assert_eq!(rng.state, 0xDEAD_BEEF);
    let expected_state = 0xDEAD_BEEFu64.wrapping_mul(6364136223846793005).wrapping_add(1442695040888963407);
    let out = rng.next_u32();
    assert_eq!(rng.state, expected_state);
    assert_eq!(out, (expected_state >> 32) as u32);
    let rng2 = SimpleLootRng::new(7);
    assert_eq!(rng2.state, 7);
}

#[test]
fn rolled_stacks_come_from_the_table_with_valid_counts() {
    for seed in 0..50u64 {
        for id in [LootTableId::Dungeon, LootTableId::Village, LootTableId::StrongholdLibrary, LootTableId::EndCity] {
            let table = get_loot_table(id);
            let items = roll_loot_table(id, seed);
            for stack in &items {
                assert!(stack.count >= 1 && stack.count <= 64);
                assert!(table.pools.iter().any(|p| p.entries.iter().any(|e| e.item == stack.item)));
            }
            let least: u32 = table.pools.iter().map(|p| p.rolls_min).sum();
            let most: u32 = table.pools.iter().map(|p| p.rolls_max.min(32)).sum();
            assert!(items.len() as u32 >= least && items.len() as u32 <= most);
        }
        let end_city = roll_loot_table(LootTableId::EndCity, seed);
        assert_eq!(end_city[0].item, Item::Elytra);
        assert_eq!(end_city[0].count, 1);
    }
}

#[test]
fn enchanted_books_always_carry_unbreaking() {
    let mut seen = false;
    for seed in 1..200u64 {
        for stack in roll_loot_table(LootTableId::StrongholdLibrary, seed) {
            if stack.item == Item::EnchantedBook {
                seen = true;
                assert_eq!(stack.enchantments.unbreaking, 1);
            }
            if stack.item == Item::Book {
                assert_eq!(stack.enchantments.unbreaking, 0);
            }
        }
    }
    assert!(seen);
}
