use darksaber::state::{
    buff_kind_name, callable_from, captured_buffs_snapshot, clear_captured_buffs, item_preset,
    item_preset_count, item_presets, known_buffs, known_buffs_snapshot, upsert_captured_buff,
    BuffOption, BuffStore, Callable, Powers, TrainerState,
};

fn buff(slot: i32, cost: i32, stat_type: i32, value: i32, is_percent: bool) -> BuffOption {
    BuffOption { slot, cost, stat_type, value, is_percent }
}

#[test]
fn item_preset_picks_by_index() {
    let p = item_preset(0);
    assert_eq!((p.id, p.name), (1, "GateKey"));
    let p = item_preset(4);
    assert_eq!((p.id, p.name), (5, "RedBulletGift"));
    let p = item_preset(8);
    assert_eq!((p.id, p.name), (9, "Key3"));
}

#[test]
fn item_preset_wraps_and_clamps_negative() {
    assert_eq!(item_preset(9).id, 1);
    assert_eq!(item_preset(13).name, "RedBulletGift");
    assert_eq!(item_preset(-5).id, 1);
    assert_eq!(item_preset(i32::MAX).id, (i32::MAX % 9) + 1);
}

#[test]
fn item_presets_list_in_order() {
    assert_eq!(item_preset_count(), 9);
    let all = item_presets();
    assert_eq!(all.len(), 9);
    let names: Vec<&str> = all.iter().map(|p| p.name).collect();
    assert_eq!(
        names,
        vec![
            "GateKey",
            "GateKey1",
            "GateKey2",
            "GateKey3",
            "RedBulletGift",
            "GreenBulletGift",
            "YellowBulletGift",
            "Key1",
            "Key3"
        ]
    );
    for (i, p) in all.iter().enumerate() {
        assert_eq!(p.id, i as i32 + 1);
    }
}

#[test]
fn known_buffs_catalog() {
    let k = known_buffs();
    assert_eq!(k.len(), 10);
    assert_eq!(k[0], buff(0, 0, 0, 25, false));
    assert_eq!(k[1], buff(1, 0, 0, 10, true));
    assert_eq!(k[9], buff(9, 0, 7, 1, false));
}

#[test]
fn upsert_grows_and_replaces() {
    let mut s = BuffStore::new();
    assert!(captured_buffs_snapshot(&s).is_empty());
    upsert_captured_buff(&mut s, buff(2, 5, 3, 4, false));
    let snap = captured_buffs_snapshot(&s);
    assert_eq!(snap.len(), 3);
    assert_eq!(snap[0], BuffOption::default());
    assert_eq!(snap[1], BuffOption::default());
    assert_eq!(snap[2], buff(2, 5, 3, 4, false));
    upsert_captured_buff(&mut s, buff(0, 1, 1, 2, true));
    let snap = captured_buffs_snapshot(&s);
    assert_eq!(snap.len(), 3);
    assert_eq!(snap[0], buff(0, 1, 1, 2, true));
}

#[test]
fn upsert_negative_slot_goes_to_first() {
    let mut s = BuffStore::new();
    upsert_captured_buff(&mut s, buff(-3, 1, 2, 3, false));
    let snap = captured_buffs_snapshot(&s);
    assert_eq!(snap.len(), 1);
    assert_eq!(snap[0], buff(-3, 1, 2, 3, false));
}

#[test]
fn clear_forgets_captures() {
    let mut s = BuffStore::new();
    upsert_captured_buff(&mut s, buff(1, 1, 1, 1, false));
    clear_captured_buffs(&mut s);
    assert!(captured_buffs_snapshot(&s).is_empty());
    assert_eq!(known_buffs_snapshot(&s), known_buffs());
}

#[test]
fn snapshot_merges_known_kind_cost_and_value() {
    let mut s = BuffStore::new();
    upsert_captured_buff(&mut s, buff(0, 7, 2, 6, false));
    let offered = known_buffs_snapshot(&s);
    assert_eq!(offered.len(), 10);
    assert_eq!(offered[4], buff(4, 7, 2, 6, false));
}

#[test]
fn snapshot_keeps_catalog_value_when_captured_value_is_zero() {
    let mut s = BuffStore::new();
    upsert_captured_buff(&mut s, buff(0, 3, 1, 0, true));
    let offered = known_buffs_snapshot(&s);
    assert_eq!(offered[3], buff(3, 3, 1, 10, true));
}

#[test]
fn snapshot_appends_unknown_kind() {
    let mut s = BuffStore::new();
    upsert_captured_buff(&mut s, buff(0, 2, 9, 4, false));
    upsert_captured_buff(&mut s, buff(1, 1, 2, 0, true));
    let offered = known_buffs_snapshot(&s);
    assert_eq!(offered.len(), 12);
    assert_eq!(offered[10], buff(0, 2, 9, 4, false));
    assert_eq!(offered[11], buff(1, 1, 2, 0, true));
}

#[test]
fn snapshot_later_capture_of_same_kind_wins() {
    let mut s = BuffStore::new();
    upsert_captured_buff(&mut s, buff(0, 2, 4, 8, false));
    upsert_captured_buff(&mut s, buff(1, 5, 4, 9, false));
    let offered = known_buffs_snapshot(&s);
    assert_eq!(offered[6], buff(6, 5, 4, 9, false));
}

#[test]
fn kind_names() {
    assert_eq!(buff_kind_name(0, false), "HP Flat");
    assert_eq!(buff_kind_name(0, true), "HP Percent");
    assert_eq!(buff_kind_name(1, false), "ATK Flat");
    assert_eq!(buff_kind_name(1, true), "ATK Percent");
    assert_eq!(buff_kind_name(2, true), "Move Speed");
    assert_eq!(buff_kind_name(3, false), "Rapid Fire");
    assert_eq!(buff_kind_name(4, false), "Bullet Speed");
    assert_eq!(buff_kind_name(5, false), "Full Heal");
    assert_eq!(buff_kind_name(6, false), "Shield");
    assert_eq!(buff_kind_name(7, true), "Extra Bullets");
    assert_eq!(buff_kind_name(8, false), "Unknown Buff");
    assert_eq!(buff_kind_name(-1, false), "Unknown Buff");
}

#[test]
fn initial_state_defaults() {
    let st = TrainerState::new();
    assert!(!st.menu_visible);
    assert!(!st.toggles.god_mode);
    assert_eq!(st.tuning.speed_tenths, 80);
    assert_eq!(st.tuning.cooldown_hundredths, 5);
    assert_eq!(st.tuning.bullet_speed_tenths, 300);
    assert_eq!(st.tuning.maxhp_value, 9999);
    assert_eq!(st.tuning.shield_value, 9999);
    assert_eq!(st.tuning.exp_amount, 1000);
    assert_eq!(st.tuning.gold_amount, 1000);
    assert_eq!(st.tuning.item_id, 1);
    assert_eq!(st.tuning.item_preset_index, 0);
    assert!(!st.requests.revive);
    assert_eq!(st.requests.buff_selected_mask, 0);
    assert_eq!(st.player_instance, 0);
}

#[test]
fn callable_needs_method_and_code() {
    assert_eq!(callable_from(0, 5), None);
    assert_eq!(callable_from(7, 0), None);
    assert_eq!(callable_from(7, 5), Some(Callable { code: 5, method: 7 }));
}

#[test]
fn powers_default_is_empty() {
    let p = Powers::default();
    assert!(p.revive.is_none() && p.add_item.is_none() && p.shield_off.is_none());
}

#[test]
fn store_len_counts_slots() {
    let mut s = BuffStore::new();
    assert_eq!(s.len(), 0);
    upsert_captured_buff(&mut s, buff(4, 0, 0, 0, false));
    assert_eq!(s.len(), 5);
}

#[test]
fn offered_kinds_are_distinct_and_new_kinds_follow_first_capture() {
    let mut store = BuffStore::new();
    upsert_captured_buff(&mut store, buff(0, 3, 9, 4, false));
    upsert_captured_buff(&mut store, buff(1, 2, 0, 0, true));
    upsert_captured_buff(&mut store, buff(2, 7, 8, 5, true));
    upsert_captured_buff(&mut store, buff(3, 1, 9, 6, false));
    let offered = known_buffs_snapshot(&store);
    assert_eq!(offered.len(), 12);
    assert_eq!((offered[10].stat_type, offered[10].is_percent), (9, false));
    assert_eq!((offered[11].stat_type, offered[11].is_percent), (8, true));
    for i in 0..offered.len() {
        for j in (i + 1)..offered.len() {
            assert!(
                (offered[i].stat_type, offered[i].is_percent)
                    != (offered[j].stat_type, offered[j].is_percent)
            );
        }
    }
}

#[test]
fn last_capture_of_a_kind_wins() {
    let mut store = BuffStore::new();
    upsert_captured_buff(&mut store, buff(0, 3, 1, 8, false));
    upsert_captured_buff(&mut store, buff(1, 9, 1, 0, false));
    upsert_captured_buff(&mut store, buff(2, 4, 9, 0, true));
    upsert_captured_buff(&mut store, buff(3, 6, 9, 0, true));
    let offered = known_buffs_snapshot(&store);
    // ATK Flat: cost from the last capture, value from the last non-zero one.
    assert_eq!(offered[2].cost, 9);
    assert_eq!(offered[2].value, 8);
    // A new kind captured only with zero values keeps value 0.
    assert_eq!(offered[10].cost, 6);
    assert_eq!(offered[10].value, 0);
    // A catalog kind never captured keeps the catalog entry.
    assert_eq!(offered[0], known_buffs()[0]);
}
