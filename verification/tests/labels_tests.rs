use darksaber::labels::{
    buff_panel_height, buff_row_label, check_box_str, label, mark, picker_row_label,
};
use darksaber::state::{BuffOption, TrainerState};

#[test]
fn labels_of_default_state() {
    let st = TrainerState::new();
    let expected = [
        "[ ] God Mode (bat tu)",
        "[ ] Speed Hack",
        "    Move Speed: 8.0",
        "[ ] Rapid Fire",
        "    Cooldown: 0.05s",
        "[ ] Fast Bullets",
        "    Bullet Speed: 30.0",
        "[ ] Max/Lock HP",
        "    HP: 9999",
        "[ ] Shield Lock",
        "    Shield HP: 9999",
        "[ ] One-Hit Kill",
        "> Revive (Hoi sinh)  [Enter]",
        "> Add Gold: 1000  [Enter]",
        "    Gold amount: 1000",
        "> Add EXP: 1000  [Enter]",
        "    EXP amount: 1000",
        "> Add item: GateKey (1)  [Enter]",
        "> Get Buffs...  [Enter]",
        "> Add all known items  [Enter]",
        "> Shield ON  [Enter]",
        "> Shield OFF  [Enter]",
    ];
    for (i, e) in expected.iter().enumerate() {
        assert_eq!(label(&st, i as i32), *e);
    }
    assert_eq!(label(&st, 22), "");
    assert_eq!(label(&st, -1), "");
}

#[test]
fn labels_follow_state() {
    let mut st = TrainerState::new();
    st.toggles.god_mode = true;
    st.toggles.one_hit_kill = true;
    st.tuning.speed_tenths = 400;
    st.tuning.cooldown_hundredths = 123;
    st.tuning.bullet_speed_tenths = 5;
    st.tuning.maxhp_value = -7;
    st.tuning.item_preset_index = 6;
    assert_eq!(label(&st, 0), "[x] God Mode (bat tu)");
    assert_eq!(label(&st, 11), "[x] One-Hit Kill");
    assert_eq!(label(&st, 2), "    Move Speed: 40.0");
    assert_eq!(label(&st, 4), "    Cooldown: 1.23s");
    assert_eq!(label(&st, 6), "    Bullet Speed: 0.5");
    assert_eq!(label(&st, 8), "    HP: -7");
    assert_eq!(label(&st, 17), "> Add item: YellowBulletGift (7)  [Enter]");
}

#[test]
fn negative_fixed_point_keeps_sign() {
    let mut st = TrainerState::new();
    st.tuning.speed_tenths = -5;
    st.tuning.cooldown_hundredths = -105;
    assert_eq!(label(&st, 2), "    Move Speed: -0.5");
    assert_eq!(label(&st, 4), "    Cooldown: -1.05s");
}

#[test]
fn marks() {
    assert_eq!(mark(true), 'x');
    assert_eq!(mark(false), ' ');
    assert_eq!(check_box_str(true), "[x]");
    assert_eq!(check_box_str(false), "[ ]");
}

#[test]
fn buff_rows() {
    let b = BuffOption { slot: 1, cost: 0, stat_type: 0, value: 10, is_percent: true };
    assert_eq!(buff_row_label(&b, true), "[x] HP Percent  val=10%");
    let b = BuffOption { slot: 2, cost: 5, stat_type: 1, value: 5, is_percent: false };
    assert_eq!(buff_row_label(&b, false), "[ ] ATK Flat  val=5  cost=5");
    let b = BuffOption { slot: 2, cost: -1, stat_type: 42, value: -3, is_percent: false };
    assert_eq!(buff_row_label(&b, false), "[ ] Unknown Buff  val=-3");
}

#[test]
fn panel_height_is_clamped() {
    assert_eq!(buff_panel_height(0), 180);
    assert_eq!(buff_panel_height(10), 92 + 12 * 22);
    assert_eq!(buff_panel_height(100), 509);
}

#[test]
fn picker_rows() {
    let buffs = vec![
        BuffOption { slot: 1, cost: 0, stat_type: 0, value: 10, is_percent: true },
        BuffOption { slot: 2, cost: 5, stat_type: 1, value: 5, is_percent: false },
    ];
    assert_eq!(picker_row_label(&buffs, 0b10, 0), "[ ] HP Percent  val=10%");
    assert_eq!(picker_row_label(&buffs, 0b10, 1), "[x] ATK Flat  val=5  cost=5");
    assert_eq!(picker_row_label(&buffs, 0b10, 2), "> Apply selected buffs");
    assert_eq!(picker_row_label(&buffs, 0b10, 3), "> Close");
}
