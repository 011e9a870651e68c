use darksaber::menu::{
    act, act_enter, buff_modal_enter, edge, flip, rgb, tick, toggle_bit, Keys, Ui, MAIN_W,
    MENU_ITEMS, WIN_W,
};
use darksaber::state::{known_buffs, BuffStore, TrainerState};

fn keys() -> Keys {
    Keys { toggle: false, up: false, down: false, left: false, right: false, enter: false }
}

fn open_menu(ui: &mut Ui, st: &mut TrainerState, store: &BuffStore) {
    tick(ui, st, store, Keys { toggle: true, ..keys() });
    tick(ui, st, store, keys());
}

#[test]
fn rgb_packs_red_low() {
    assert_eq!(rgb(18, 20, 26), 18 | (20 << 8) | (26 << 16));
    assert_eq!(rgb(255, 0, 0), 0xff);
    assert_eq!(rgb(0, 0, 255), 0xff0000);
}

#[test]
fn edge_fires_once_per_press() {
    let mut prev = false;
    assert!(edge(true, &mut prev));
    assert!(prev);
    assert!(!edge(true, &mut prev));
    assert!(!edge(false, &mut prev));
    assert!(!prev);
    assert!(edge(true, &mut prev));
}

#[test]
fn flip_directions() {
    let mut f = false;
    flip(&mut f, 1);
    assert!(f);
    flip(&mut f, 1);
    assert!(f);
    flip(&mut f, -1);
    assert!(!f);
    flip(&mut f, 0);
    assert!(f);
    flip(&mut f, 0);
    assert!(!f);
}

#[test]
fn act_toggles_rows() {
    let mut st = TrainerState::new();
    act(&mut st, 0, 1);
    assert!(st.toggles.god_mode);
    act(&mut st, 0, -1);
    assert!(!st.toggles.god_mode);
    act(&mut st, 11, 1);
    assert!(st.toggles.one_hit_kill);
    act(&mut st, 9, 0);
    assert!(st.toggles.shield_lock);
}

#[test]
fn act_speed_steps_and_clamps() {
    let mut st = TrainerState::new();
    act(&mut st, 2, 1);
    assert_eq!(st.tuning.speed_tenths, 90);
    for _ in 0..50 {
        act(&mut st, 2, 1);
    }
    assert_eq!(st.tuning.speed_tenths, 400);
    for _ in 0..50 {
        act(&mut st, 2, -1);
    }
    assert_eq!(st.tuning.speed_tenths, 0);
}

#[test]
fn act_cooldown_steps_and_clamps() {
    let mut st = TrainerState::new();
    act(&mut st, 4, 1);
    assert_eq!(st.tuning.cooldown_hundredths, 6);
    for _ in 0..10 {
        act(&mut st, 4, -1);
    }
    assert_eq!(st.tuning.cooldown_hundredths, 1);
    st.tuning.cooldown_hundredths = 499;
    act(&mut st, 4, 1);
    act(&mut st, 4, 1);
    assert_eq!(st.tuning.cooldown_hundredths, 500);
}

#[test]
fn act_bullet_speed_steps_by_two() {
    let mut st = TrainerState::new();
    act(&mut st, 6, 1);
    assert_eq!(st.tuning.bullet_speed_tenths, 320);
    st.tuning.bullet_speed_tenths = 1190;
    act(&mut st, 6, 1);
    assert_eq!(st.tuning.bullet_speed_tenths, 1200);
}

#[test]
fn act_hp_and_shield_values_floor_at_one() {
    let mut st = TrainerState::new();
    act(&mut st, 8, 1);
    assert_eq!(st.tuning.maxhp_value, 10099);
    st.tuning.maxhp_value = 50;
    act(&mut st, 8, -1);
    assert_eq!(st.tuning.maxhp_value, 1);
    st.tuning.shield_value = 100;
    act(&mut st, 10, -1);
    assert_eq!(st.tuning.shield_value, 1);
}

#[test]
fn act_hp_wraps_like_release_build() {
    let mut st = TrainerState::new();
    st.tuning.maxhp_value = i32::MAX - 50;
    act(&mut st, 8, 1);
    assert_eq!(st.tuning.maxhp_value, 1);
}

#[test]
fn act_amounts_floor_at_zero() {
    let mut st = TrainerState::new();
    act(&mut st, 14, 1);
    assert_eq!(st.tuning.gold_amount, 1100);
    st.tuning.gold_amount = 30;
    act(&mut st, 14, -1);
    assert_eq!(st.tuning.gold_amount, 0);
    act(&mut st, 16, -1);
    assert_eq!(st.tuning.exp_amount, 900);
}

#[test]
fn act_preset_index_stays_in_list() {
    let mut st = TrainerState::new();
    act(&mut st, 17, -1);
    assert_eq!(st.tuning.item_preset_index, 0);
    for _ in 0..20 {
        act(&mut st, 17, 1);
    }
    assert_eq!(st.tuning.item_preset_index, 8);
}

#[test]
fn act_other_rows_change_nothing() {
    let mut st = TrainerState::new();
    let before = st;
    for sel in [12, 13, 15, 18, 19, 20, 21, 22, -1] {
        act(&mut st, sel, 1);
    }
    assert_eq!(st, before);
}

#[test]
fn act_enter_requests_powers() {
    let mut ui = Ui::new();
    let mut st = TrainerState::new();
    act_enter(&mut ui, &mut st, 12);
    act_enter(&mut ui, &mut st, 13);
    act_enter(&mut ui, &mut st, 15);
    act_enter(&mut ui, &mut st, 17);
    act_enter(&mut ui, &mut st, 19);
    act_enter(&mut ui, &mut st, 20);
    act_enter(&mut ui, &mut st, 21);
    let r = st.requests;
    assert!(r.revive && r.add_gold && r.add_exp && r.add_item_preset);
    assert!(r.add_known_items && r.shield_on && r.shield_off);
    assert!(!r.add_item && !r.apply_selected_buffs);
}

#[test]
fn act_enter_flips_toggles_and_opens_picker() {
    let mut ui = Ui::new();
    let mut st = TrainerState::new();
    act_enter(&mut ui, &mut st, 1);
    assert!(st.toggles.speed_hack);
    act_enter(&mut ui, &mut st, 1);
    assert!(!st.toggles.speed_hack);
    ui.buff_sel = 5;
    act_enter(&mut ui, &mut st, 18);
    assert!(ui.buff_modal);
    assert_eq!(ui.buff_sel, 0);
}

#[test]
fn picker_enter_ticks_and_applies() {
    let buffs = known_buffs();
    let mut ui = Ui::new();
    let mut st = TrainerState::new();
    ui.buff_modal = true;
    ui.buff_sel = 3;
    buff_modal_enter(&mut ui, &mut st, &buffs);
    assert_eq!(ui.buff_mask, 1 << 3);
    buff_modal_enter(&mut ui, &mut st, &buffs);
    assert_eq!(ui.buff_mask, 0);
    buff_modal_enter(&mut ui, &mut st, &buffs);
    ui.buff_sel = 10;
    buff_modal_enter(&mut ui, &mut st, &buffs);
    assert!(!ui.buff_modal);
    assert!(st.requests.apply_selected_buffs);
    assert_eq!(st.requests.buff_selected_mask, 1 << 3);
}

#[test]
fn picker_close_row_changes_nothing_else() {
    let buffs = known_buffs();
    let mut ui = Ui::new();
    let mut st = TrainerState::new();
    ui.buff_modal = true;
    ui.buff_sel = 11;
    ui.buff_mask = 5;
    buff_modal_enter(&mut ui, &mut st, &buffs);
    assert!(!ui.buff_modal);
    assert!(!st.requests.apply_selected_buffs);
    assert_eq!(st.requests.buff_selected_mask, 0);
}

#[test]
fn toggle_bit_twice_restores() {
    assert_eq!(toggle_bit(toggle_bit(0b1010, 1), 1), 0b1010);
    assert_eq!(toggle_bit(0, 4), 16);
    assert_eq!(toggle_bit(7, usize::BITS as usize), 7);
}

#[test]
fn tick_toggle_key_shows_and_hides_menu() {
    let store = BuffStore::new();
    let mut ui = Ui::new();
    let mut st = TrainerState::new();
    let out = tick(&mut ui, &mut st, &store, Keys { toggle: true, ..keys() });
    assert!(out.visible && st.menu_visible);
    assert!(out.first_tick);
    assert_eq!(out.width, MAIN_W);
    let out = tick(&mut ui, &mut st, &store, Keys { toggle: true, ..keys() });
    assert!(out.visible, "a held key does not fire again");
    assert!(!out.first_tick);
    tick(&mut ui, &mut st, &store, keys());
    let out = tick(&mut ui, &mut st, &store, Keys { toggle: true, ..keys() });
    assert!(!out.visible && !st.menu_visible);
}

#[test]
fn tick_hidden_menu_ignores_keys() {
    let store = BuffStore::new();
    let mut ui = Ui::new();
    let mut st = TrainerState::new();
    let before = st;
    tick(&mut ui, &mut st, &store, Keys { down: true, right: true, enter: true, ..keys() });
    assert_eq!(st, before);
    assert_eq!(ui.sel, 0);
    assert!(ui.p_down && ui.p_right && ui.p_enter);
}

#[test]
fn tick_navigation_wraps() {
    let store = BuffStore::new();
    let mut ui = Ui::new();
    let mut st = TrainerState::new();
    open_menu(&mut ui, &mut st, &store);
    tick(&mut ui, &mut st, &store, Keys { up: true, ..keys() });
    assert_eq!(ui.sel, MENU_ITEMS - 1);
    tick(&mut ui, &mut st, &store, Keys { down: true, ..keys() });
    assert_eq!(ui.sel, 0);
}

#[test]
fn tick_up_then_down_returns_to_row() {
    let store = BuffStore::new();
    let mut ui = Ui::new();
    let mut st = TrainerState::new();
    open_menu(&mut ui, &mut st, &store);
    ui.sel = 7;
    let before = st;
    tick(&mut ui, &mut st, &store, Keys { up: true, ..keys() });
    assert_eq!(ui.sel, 6);
    tick(&mut ui, &mut st, &store, Keys { down: true, ..keys() });
    assert_eq!(ui.sel, 7);
    assert_eq!(st, before);
}

#[test]
fn tick_right_sets_selected_toggle() {
    let store = BuffStore::new();
    let mut ui = Ui::new();
    let mut st = TrainerState::new();
    open_menu(&mut ui, &mut st, &store);
    tick(&mut ui, &mut st, &store, Keys { right: true, ..keys() });
    assert!(st.toggles.god_mode);
    tick(&mut ui, &mut st, &store, Keys { right: true, ..keys() });
    assert!(st.toggles.god_mode);
    tick(&mut ui, &mut st, &store, Keys { left: true, ..keys() });
    assert!(!st.toggles.god_mode);
}

#[test]
fn tick_picker_flow() {
    let store = BuffStore::new();
    let mut ui = Ui::new();
    let mut st = TrainerState::new();
    open_menu(&mut ui, &mut st, &store);
    ui.sel = 18;
    let out = tick(&mut ui, &mut st, &store, Keys { enter: true, ..keys() });
    assert!(ui.buff_modal);
    assert_eq!(out.width, WIN_W);
    tick(&mut ui, &mut st, &store, keys());
    tick(&mut ui, &mut st, &store, Keys { enter: true, ..keys() });
    assert_eq!(ui.buff_mask, 1);
    tick(&mut ui, &mut st, &store, keys());
    tick(&mut ui, &mut st, &store, Keys { up: true, ..keys() });
    assert_eq!(ui.buff_sel, 11);
    tick(&mut ui, &mut st, &store, keys());
    tick(&mut ui, &mut st, &store, Keys { up: true, ..keys() });
    assert_eq!(ui.buff_sel, 10);
    tick(&mut ui, &mut st, &store, keys());
    let out = tick(&mut ui, &mut st, &store, Keys { enter: true, ..keys() });
    assert!(!ui.buff_modal);
    assert_eq!(out.width, MAIN_W);
    assert!(st.requests.apply_selected_buffs);
    assert_eq!(st.requests.buff_selected_mask, 1);
}

#[test]
fn tick_toggle_key_in_picker_closes_picker_only() {
    let store = BuffStore::new();
    let mut ui = Ui::new();
    let mut st = TrainerState::new();
    open_menu(&mut ui, &mut st, &store);
    ui.sel = 18;
    tick(&mut ui, &mut st, &store, Keys { enter: true, ..keys() });
    tick(&mut ui, &mut st, &store, keys());
    let out = tick(&mut ui, &mut st, &store, Keys { toggle: true, ..keys() });
    assert!(!ui.buff_modal);
    assert!(out.visible && st.menu_visible);
}
