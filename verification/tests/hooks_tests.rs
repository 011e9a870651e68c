use darksaber::hooks::{
    after_player_update, apply_captured_buff, apply_stats, credit_gold, enemy_damage,
    hp_lock_write, max_hp_result, on_player_update, on_shield_start, on_shield_update, on_take_damage, pump_powers,
    record_buff_setup, saturating_add_i32, shield_lock_write, BuffFollowUp, FieldBits, FieldWrite,
    PlayerFields, PowerAction, ShieldLockWrite, StatSnapshot,
};
use darksaber::state::{
    captured_buffs_snapshot, upsert_captured_buff, BuffOption, BuffStore, Callable, Powers,
    TrainerState,
};

fn bits(m: f32, b: f32, f: f32) -> FieldBits {
    FieldBits { move_speed: m.to_bits(), bullet_speed: b.to_bits(), fire_rate: f.to_bits() }
}

fn c(n: usize) -> Callable {
    Callable { code: n, method: n + 1000 }
}

fn all_powers() -> Powers {
    Powers {
        revive: Some(c(1)),
        add_exp: Some(c(2)),
        add_item: Some(c(3)),
        get_max_hp: Some(c(4)),
        save_game: Some(c(5)),
        shield_on: Some(c(6)),
        shield_off: Some(c(7)),
    }
}

fn fields() -> PlayerFields {
    PlayerFields {
        gold: 10,
        cur_hp: 3,
        max_hp: 100,
        hp_flat_bonus: 0,
        hp_percent_bonus: 0,
        atk_flat_bonus: 0,
        atk_percent_bonus: 0,
        heal_flag: 0,
        shield_unlocked: 0,
        extra_bullets: 0,
        shield_hp: 0,
    }
}

#[test]
fn stats_off_touch_nothing() {
    let mut snap = StatSnapshot::new();
    let st = TrainerState::new();
    let w = apply_stats(&mut snap, 0x1000, &st, bits(5.0, 10.0, 0.3));
    assert_eq!(w.move_speed, FieldWrite::Keep);
    assert_eq!(w.bullet_speed, FieldWrite::Keep);
    assert_eq!(w.fire_rate, FieldWrite::Keep);
    assert_eq!(snap.player, 0x1000);
}

#[test]
fn speed_hack_saves_then_restores() {
    let mut snap = StatSnapshot::new();
    let mut st = TrainerState::new();
    st.toggles.speed_hack = true;
    let w = apply_stats(&mut snap, 0x1000, &st, bits(5.0, 10.0, 0.3));
    assert_eq!(w.move_speed, FieldWrite::Configured);
    assert_eq!(w.bullet_speed, FieldWrite::Keep);
    let w = apply_stats(&mut snap, 0x1000, &st, bits(8.0, 10.0, 0.3));
    assert_eq!(w.move_speed, FieldWrite::Configured);
    st.toggles.speed_hack = false;
    let w = apply_stats(&mut snap, 0x1000, &st, bits(8.0, 10.0, 0.3));
    assert_eq!(w.move_speed, FieldWrite::Restore(5.0f32.to_bits()));
    let w = apply_stats(&mut snap, 0x1000, &st, bits(5.0, 10.0, 0.3));
    assert_eq!(w.move_speed, FieldWrite::Keep);
}

#[test]
fn rapid_fire_and_bullets_restore_their_own_values() {
    let mut snap = StatSnapshot::new();
    let mut st = TrainerState::new();
    st.toggles.rapid_fire = true;
    st.toggles.fast_bullets = true;
    apply_stats(&mut snap, 7, &st, bits(5.0, 10.0, 0.3));
    st.toggles.rapid_fire = false;
    let w = apply_stats(&mut snap, 7, &st, bits(5.0, 30.0, 0.05));
    assert_eq!(w.fire_rate, FieldWrite::Restore(0.3f32.to_bits()));
    assert_eq!(w.bullet_speed, FieldWrite::Configured);
    st.toggles.fast_bullets = false;
    let w = apply_stats(&mut snap, 7, &st, bits(5.0, 30.0, 0.3));
    assert_eq!(w.bullet_speed, FieldWrite::Restore(10.0f32.to_bits()));
}

#[test]
fn new_player_does_not_get_old_values() {
    let mut snap = StatSnapshot::new();
    let mut st = TrainerState::new();
    st.toggles.speed_hack = true;
    apply_stats(&mut snap, 1, &st, bits(5.0, 10.0, 0.3));
    st.toggles.speed_hack = false;
    let w = apply_stats(&mut snap, 2, &st, bits(6.0, 10.0, 0.3));
    assert_eq!(w.move_speed, FieldWrite::Keep);
    assert_eq!(snap.player, 2);
}

#[test]
fn pump_runs_requests_in_order_and_drains() {
    let mut st = TrainerState::new();
    st.shield_instance = 0x77;
    st.tuning.exp_amount = -5;
    st.tuning.item_id = 42;
    st.tuning.item_preset_index = 2;
    let r = &mut st.requests;
    r.revive = true;
    r.add_exp = true;
    r.add_gold = true;
    r.add_item = true;
    r.add_item_preset = true;
    r.shield_on = true;
    r.shield_off = true;
    let store = BuffStore::new();
    let pw = all_powers();
    let actions = pump_powers(&mut st, &pw, &store);
    assert_eq!(
        actions,
        vec![
            PowerAction::Revive(c(1)),
            PowerAction::AddExp(c(2), 0),
            PowerAction::SaveGame(c(5)),
            PowerAction::AddGold(1000),
            PowerAction::SaveGame(c(5)),
            PowerAction::AddItem(c(3), 42),
            PowerAction::SaveGame(c(5)),
            PowerAction::AddItem(c(3), 3),
            PowerAction::SaveGame(c(5)),
            PowerAction::ShieldOn(c(6), 0x77),
            PowerAction::ShieldOff(c(7), 0x77),
        ]
    );
    assert!(!st.requests.revive && !st.requests.shield_on);
    assert!(pump_powers(&mut st, &pw, &store).is_empty());
}

#[test]
fn pump_adds_every_known_item() {
    let mut st = TrainerState::new();
    st.requests.add_known_items = true;
    let mut pw = all_powers();
    pw.save_game = None;
    let actions = pump_powers(&mut st, &pw, &BuffStore::new());
    let ids: Vec<i32> = actions
        .iter()
        .map(|a| match a {
            PowerAction::AddItem(_, id) => *id,
            _ => panic!("unexpected action"),
        })
        .collect();
    assert_eq!(ids, (1..=9).collect::<Vec<i32>>());
}

#[test]
fn pump_applies_selected_buffs() {
    let mut st = TrainerState::new();
    st.requests.apply_selected_buffs = true;
    st.requests.buff_selected_mask = (1 << 0) | (1 << 7) | (1 << 40);
    let mut store = BuffStore::new();
    upsert_captured_buff(
        &mut store,
        BuffOption { slot: 0, cost: 9, stat_type: 5, value: 0, is_percent: false },
    );
    let pw = all_powers();
    let actions = pump_powers(&mut st, &pw, &store);
    assert_eq!(
        actions,
        vec![
            PowerAction::ApplyBuff(BuffOption {
                slot: 0,
                cost: 0,
                stat_type: 0,
                value: 25,
                is_percent: false
            }),
            PowerAction::ApplyBuff(BuffOption {
                slot: 7,
                cost: 9,
                stat_type: 5,
                value: 1,
                is_percent: false
            }),
            PowerAction::SaveGame(c(5)),
        ]
    );
    assert!(!st.requests.apply_selected_buffs);
}

#[test]
fn pump_skips_missing_methods_and_nothing_selected() {
    let mut st = TrainerState::new();
    st.requests.revive = true;
    st.requests.add_exp = true;
    st.requests.add_item = true;
    st.requests.apply_selected_buffs = true;
    st.tuning.gold_amount = -3;
    st.requests.add_gold = true;
    let actions = pump_powers(&mut st, &Powers::default(), &BuffStore::new());
    assert!(actions.is_empty());
    assert!(!st.requests.revive && !st.requests.add_gold && !st.requests.apply_selected_buffs);
}

#[test]
fn pump_keeps_shield_requests_until_shield_is_known() {
    let mut st = TrainerState::new();
    st.requests.shield_on = true;
    let pw = all_powers();
    assert!(pump_powers(&mut st, &pw, &BuffStore::new()).is_empty());
    assert!(st.requests.shield_on);
    on_shield_start(&mut st, 0x55);
    assert_eq!(
        pump_powers(&mut st, &pw, &BuffStore::new()),
        vec![PowerAction::ShieldOn(c(6), 0x55)]
    );
    assert!(!st.requests.shield_on);
}

#[test]
fn buffs_change_player_fields() {
    let mut f = fields();
    let b = |stat_type: i32, value: i32, is_percent: bool| BuffOption {
        slot: 0,
        cost: 0,
        stat_type,
        value,
        is_percent,
    };
    assert_eq!(apply_captured_buff(&mut f, &b(0, 25, false), 0), BuffFollowUp::RefreshMaxHp);
    assert_eq!(f.hp_flat_bonus, 25);
    assert_eq!(apply_captured_buff(&mut f, &b(0, 10, true), 0), BuffFollowUp::RefreshMaxHp);
    assert_eq!(f.hp_percent_bonus, 10);
    assert_eq!(apply_captured_buff(&mut f, &b(1, 5, false), 0), BuffFollowUp::Nothing);
    assert_eq!(apply_captured_buff(&mut f, &b(1, 7, true), 0), BuffFollowUp::Nothing);
    assert_eq!((f.atk_flat_bonus, f.atk_percent_bonus), (5, 7));
    assert_eq!(apply_captured_buff(&mut f, &b(2, 2, false), 0), BuffFollowUp::AddMoveSpeed(2));
    assert_eq!(apply_captured_buff(&mut f, &b(3, 0, false), 0), BuffFollowUp::ReduceCooldown(1));
    assert_eq!(apply_captured_buff(&mut f, &b(3, 4, false), 0), BuffFollowUp::ReduceCooldown(4));
    assert_eq!(apply_captured_buff(&mut f, &b(4, 5, false), 0), BuffFollowUp::AddBulletSpeed(5));
    assert_eq!(apply_captured_buff(&mut f, &b(5, 1, false), 0), BuffFollowUp::Nothing);
    assert_eq!((f.cur_hp, f.heal_flag), (100, 1));
    assert_eq!(apply_captured_buff(&mut f, &b(6, 1, false), 0), BuffFollowUp::Nothing);
    assert_eq!((f.shield_unlocked, f.shield_hp), (1, 1));
    assert_eq!(
        apply_captured_buff(&mut f, &b(6, 1, false), 0x99),
        BuffFollowUp::ActivateShield(0x99)
    );
    assert_eq!(apply_captured_buff(&mut f, &b(7, 2, false), 0), BuffFollowUp::Nothing);
    assert_eq!(f.extra_bullets, 2);
    let before = f;
    assert_eq!(apply_captured_buff(&mut f, &b(9, 2, false), 0), BuffFollowUp::Nothing);
    assert_eq!(f, before);
}

#[test]
fn buff_bonuses_saturate() {
    let mut f = fields();
    f.extra_bullets = i32::MAX - 1;
    let b = BuffOption { slot: 0, cost: 0, stat_type: 7, value: 5, is_percent: false };
    apply_captured_buff(&mut f, &b, 0);
    assert_eq!(f.extra_bullets, i32::MAX);
    assert_eq!(saturating_add_i32(i32::MIN, -1), i32::MIN);
    assert_eq!(credit_gold(10, 1000), 1010);
    assert_eq!(credit_gold(i32::MAX, 1), i32::MAX);
}

#[test]
fn damage_and_max_hp_hooks() {
    let mut st = TrainerState::new();
    assert_eq!(max_hp_result(&st, 120), 120);
    assert!(on_take_damage(&mut st, 0x10));
    assert_eq!(st.player_instance, 0x10);
    assert_eq!(enemy_damage(&st, 12), 12);
    st.toggles.maxhp_override = true;
    st.toggles.god_mode = true;
    st.toggles.one_hit_kill = true;
    assert_eq!(max_hp_result(&st, 120), 9999);
    assert!(!on_take_damage(&mut st, 0x20));
    assert_eq!(st.player_instance, 0x20);
    assert_eq!(enemy_damage(&st, 12), 999_999);
    let mut snap = StatSnapshot::new();
    let plan = on_player_update(&mut st, &mut snap, None, &BuffStore::new(), 0x30, bits(1.0, 2.0, 3.0));
    assert_eq!(st.player_instance, 0x30);
    assert!(plan.actions.is_empty());
}

#[test]
fn locks() {
    let mut st = TrainerState::new();
    assert_eq!(shield_lock_write(&st), None);
    assert_eq!(hp_lock_write(&st), None);
    st.toggles.shield_lock = true;
    st.toggles.maxhp_override = true;
    st.tuning.shield_value = -4;
    assert_eq!(shield_lock_write(&st), Some(ShieldLockWrite { shield_hp: 1, activate: None }));
    assert_eq!(hp_lock_write(&st), Some(9999));
    assert!(on_shield_update(&mut st, 0x44));
    st.tuning.shield_value = 300;
    assert_eq!(
        shield_lock_write(&st),
        Some(ShieldLockWrite { shield_hp: 300, activate: Some(0x44) })
    );
    st.toggles.shield_lock = false;
    assert!(!on_shield_update(&mut st, 0x45));
    assert_eq!(st.shield_instance, 0x45);
}

#[test]
fn buff_setup_starts_new_offer_at_first_slot() {
    let mut store = BuffStore::new();
    record_buff_setup(&mut store, 0, 1, 2, 3, 1);
    record_buff_setup(&mut store, 1, 4, 5, 6, 0);
    let snap = captured_buffs_snapshot(&store);
    assert_eq!(snap.len(), 2);
    assert_eq!(snap[0], BuffOption { slot: 0, cost: 1, stat_type: 2, value: 3, is_percent: true });
    record_buff_setup(&mut store, 0, 9, 9, 9, 0);
    let snap = captured_buffs_snapshot(&store);
    assert_eq!(snap.len(), 1);
    assert_eq!(snap[0].cost, 9);
}

#[test]
fn menu_revive_runs_once_on_next_frame() {
    let mut ui = darksaber::menu::Ui::new();
    let mut st = TrainerState::new();
    darksaber::menu::act_enter(&mut ui, &mut st, 12);
    let pw = all_powers();
    let store = BuffStore::new();
    assert_eq!(pump_powers(&mut st, &pw, &store), vec![PowerAction::Revive(c(1))]);
    assert!(pump_powers(&mut st, &pw, &store).is_empty());
}

#[test]
fn menu_speed_hack_round_trip() {
    let mut st = TrainerState::new();
    let mut snap = StatSnapshot::new();
    darksaber::menu::act(&mut st, 1, 1);
    let w = apply_stats(&mut snap, 0x2000, &st, bits(4.5, 1.0, 1.0));
    assert_eq!(w.move_speed, FieldWrite::Configured);
    darksaber::menu::act(&mut st, 1, -1);
    let w = apply_stats(&mut snap, 0x2000, &st, bits(8.0, 1.0, 1.0));
    assert_eq!(w.move_speed, FieldWrite::Restore(4.5f32.to_bits()));
}

#[test]
fn player_frame_without_powers_keeps_requests() {
    let mut st = TrainerState::new();
    st.requests.revive = true;
    st.requests.add_gold = true;
    st.toggles.speed_hack = true;
    let mut snap = StatSnapshot::new();
    let store = BuffStore::new();
    let plan = on_player_update(&mut st, &mut snap, None, &store, 0x50, bits(5.0, 6.0, 0.5));
    assert_eq!(st.player_instance, 0x50);
    assert!(st.requests.revive && st.requests.add_gold);
    assert!(plan.actions.is_empty());
    assert_eq!(plan.stats.move_speed, FieldWrite::Configured);
    assert_eq!(plan.stats.bullet_speed, FieldWrite::Keep);
    assert_eq!(plan.shield_before, None);
    assert_eq!(snap.player, 0x50);
}

#[test]
fn player_frame_runs_requests_once() {
    let mut st = TrainerState::new();
    st.requests.revive = true;
    st.requests.shield_on = true;
    st.toggles.shield_lock = true;
    st.tuning.shield_value = 40;
    let pw = all_powers();
    let mut snap = StatSnapshot::new();
    let store = BuffStore::new();
    let plan = on_player_update(&mut st, &mut snap, Some(&pw), &store, 0x60, bits(5.0, 6.0, 0.5));
    assert_eq!(plan.actions, vec![PowerAction::Revive(c(1))]);
    assert_eq!(plan.shield_before, Some(ShieldLockWrite { shield_hp: 40, activate: None }));
    assert!(!st.requests.revive);
    // No shield object yet: the shield request waits.
    assert!(st.requests.shield_on);
    let plan = on_player_update(&mut st, &mut snap, Some(&pw), &store, 0x60, bits(5.0, 6.0, 0.5));
    assert!(plan.actions.is_empty());
    st.shield_instance = 0x70;
    let plan = on_player_update(&mut st, &mut snap, Some(&pw), &store, 0x60, bits(5.0, 6.0, 0.5));
    assert_eq!(plan.actions.len(), 1);
    assert!(matches!(plan.actions[0], PowerAction::ShieldOn(_, 0x70)));
    assert!(!st.requests.shield_on);
}

#[test]
fn after_player_frame_locks() {
    let mut st = TrainerState::new();
    assert_eq!(after_player_update(&st).cur_hp, None);
    assert_eq!(after_player_update(&st).shield, None);
    st.toggles.maxhp_override = true;
    st.tuning.maxhp_value = 777;
    st.toggles.shield_lock = true;
    st.tuning.shield_value = 0;
    st.shield_instance = 0x90;
    let a = after_player_update(&st);
    assert_eq!(a.cur_hp, Some(777));
    assert_eq!(a.shield, Some(ShieldLockWrite { shield_hp: 1, activate: Some(0x90) }));
}
