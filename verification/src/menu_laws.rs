//! Properties of the overlay menu that hold over several key presses.

use vstd::prelude::*;
use crate::menu::{
    acted, bit_set, clamped_step, entered, flipped, is_toggle_row, main_tick, modal_entered,
    modal_tick, stepped_hundreds, ticked, toggled_bit, Keys, Ui, MENU_ITEMS,
};
use crate::state::{TrainerState, Toggles, Tuning};
use crate::labels::{label_text, mark_char};
use crate::text::{dec_int, fixed1, fixed2};
use crate::state::{preset_name, ITEM_PRESET_COUNT};

verus! {

/// Keys with only the given ones held.
pub open spec fn only(toggle: bool, up: bool, down: bool) -> Keys {
    Keys { toggle, up, down, left: false, right: false, enter: false }
}

proof fn lemma_main_tick_keeps_menu(ui: Ui, st: TrainerState, keys: Keys)
    ensures
        main_tick(ui, st, keys).1.menu_visible == st.menu_visible,
{
    reveal(main_tick);
    reveal(entered);
    reveal(acted);
}

/// Outside the buff picker, a fresh press of the toggle key shows the menu
/// when it is hidden and hides it when it is shown.
pub proof fn law_toggle_key_shows_or_hides(ui: Ui, st: TrainerState, keys: Keys, count: nat)
    requires
        !ui.buff_modal,
        keys.toggle,
        !ui.p_toggle,
    ensures
        ticked(ui, st, keys, count).1.menu_visible == !st.menu_visible,
{
    let st0 = TrainerState { menu_visible: !st.menu_visible, ..st };
    let ui0 = Ui { logged_first: true, p_toggle: keys.toggle, ..ui };
    lemma_main_tick_keeps_menu(ui0, st0, keys);
}

/// In the buff picker, a fresh press of the toggle key (alone) closes the
/// picker and leaves the menu shown.
pub proof fn law_toggle_key_leaves_picker(ui: Ui, st: TrainerState, count: nat)
    requires
        ui.buff_modal,
        st.menu_visible,
        !ui.p_toggle,
    ensures
        !ticked(ui, st, only(true, false, false), count).0.buff_modal,
        ticked(ui, st, only(true, false, false), count).1.menu_visible,
{
    reveal(main_tick);
    reveal(entered);
    reveal(acted);
}

/// With the menu shown, pressing up and then down comes back to the same
/// row and changes nothing else in the trainer state.
pub proof fn law_up_then_down_returns(ui: Ui, st: TrainerState, count: nat)
    requires
        ui.wf(),
        !ui.buff_modal,
        st.menu_visible,
        !ui.p_up,
        !ui.p_toggle,
    ensures
        ({
            let (u1, s1) = ticked(ui, st, only(false, true, false), count);
            let (u2, s2) = ticked(u1, s1, only(false, false, true), count);
            u2.sel == ui.sel && s2 == st && !u2.buff_modal
        }),
{
    reveal(main_tick);
}

/// The up and down keys keep the selection on a row of the menu.
pub proof fn law_selection_stays_on_menu(ui: Ui, st: TrainerState, keys: Keys, count: nat)
    requires
        ui.wf(),
        count + 2 <= i32::MAX,
    ensures
        ticked(ui, st, keys, count).0.wf(),
{
    reveal(main_tick);
    reveal(modal_tick);
    reveal(entered);
    reveal(modal_entered);
}

/// With the menu shown and the buff picker closed, a fresh press of up alone
/// moves the selection one row up, from the first row to the last; a fresh
/// press of down alone moves it one row down, from the last row to the first.
pub proof fn law_menu_selection_wraps(ui: Ui, st: TrainerState, count: nat)
    requires
        ui.wf(),
        !ui.buff_modal,
        st.menu_visible,
        !ui.p_toggle,
    ensures
        !ui.p_up ==> ticked(ui, st, only(false, true, false), count).0.sel == (ui.sel + 21) % 22,
        !ui.p_down ==> ticked(ui, st, only(false, false, true), count).0.sel == (ui.sel + 1) % 22,
{
    reveal(main_tick);
}

/// In the buff picker offering `count` buffs, a fresh press of up or down
/// alone keeps the selection on one of its `count + 2` rows.
pub proof fn law_picker_selection_in_range(ui: Ui, st: TrainerState, count: nat, down: bool)
    requires
        ui.wf(),
        ui.buff_modal,
        st.menu_visible,
        !ui.p_toggle,
        !ui.p_up,
        !ui.p_down,
        count + 2 <= i32::MAX,
    ensures
        0 <= ticked(ui, st, only(false, !down, down), count).0.buff_sel < count + 2,
        ticked(ui, st, only(false, !down, down), count).0.buff_modal,
{
    reveal(modal_tick);
}

/// Left and right keep every tuned value within the range the menu allows.
pub proof fn law_act_keeps_ranges(st: TrainerState, sel: i32, dir: i32)
    requires
        st.tuning.in_range(),
    ensures
        acted(st, sel, dir).tuning.in_range(),
{
    reveal(acted);
    reveal(clamped_step);
    reveal(stepped_hundreds);
}

/// Enter twice on a toggle row gives back the toggles it started with.
pub proof fn law_enter_twice_restores_toggle(ui: Ui, st: TrainerState, sel: i32)
    requires
        is_toggle_row(sel),
    ensures
        ({
            let (u1, s1) = entered(ui, st, sel);
            entered(u1, s1, sel).1.toggles == st.toggles
        }),
{
    reveal(entered);
    reveal(acted);
}

/// Right always switches a toggle on and left always switches it off,
/// whatever it was.
pub proof fn law_right_sets_left_clears(v: bool)
    ensures
        flipped(v, 1),
        !flipped(v, -1i32),
        flipped(flipped(v, 0), 0) == v,
{
}

/// Ticking a buff twice in the picker leaves the selection as it was.
pub proof fn law_tick_twice_restores_mask(mask: usize, i: int)
    ensures
        toggled_bit(toggled_bit(mask, i), i) == mask,
{
    reveal(toggled_bit);
    if 0 <= i < usize::BITS {
        let k = i as usize;
        assert((mask ^ (1usize << k)) ^ (1usize << k) == mask) by (bit_vector);
    }
}

/// Ticking buff `i` in the picker flips exactly the selection of buff `i` as
/// the game thread reads it.
pub proof fn law_tick_flips_only_that_buff(mask: usize, i: int, j: int)
    requires
        0 <= i < usize::BITS,
    ensures
        bit_set(toggled_bit(mask, i), i) == !bit_set(mask, i),
        j != i ==> bit_set(toggled_bit(mask, i), j) == bit_set(mask, j),
{
    reveal(toggled_bit);
    let k = i as usize;
    assert(k < usize::BITS);
    assert(((mask ^ (1usize << k)) >> k) & 1usize == 1usize <==> !((mask >> k) & 1usize
        == 1usize)) by (bit_vector)
        requires
            k < usize::BITS,
    ;
    if j != i && 0 <= j < usize::BITS {
        let l = j as usize;
        assert(((mask ^ (1usize << k)) >> l) & 1usize == (mask >> l) & 1usize) by (bit_vector)
            requires
                k < usize::BITS,
                l < usize::BITS,
                k != l,
        ;
    }
}

/// Enter on the row after the offered buffs hands the ticked set to the game
/// thread, requests it, and closes the picker.
pub proof fn law_apply_row_hands_over(ui: Ui, st: TrainerState, count: nat)
    requires
        ui.buff_sel == count,
    ensures
        ({
            let (u, s) = modal_entered(ui, st, count);
            !u.buff_modal && s.requests.apply_selected_buffs && s.requests.buff_selected_mask
                == ui.buff_mask
        }),
{
    reveal(modal_entered);
}

/// Left, right or Enter on a toggle row changes exactly the toggle named on
/// that row: right ticks its box, left clears it, Enter flips it, and every
/// other row's text and the tuned values stay as they were.
pub proof fn law_toggle_row_changes_its_own_box(ui: Ui, st: TrainerState, r: i32, other: i32, dir: i32)
    requires
        is_toggle_row(r),
    ensures
        label_text(acted(st, r, 1), r)[1] == 'x',
        label_text(acted(st, r, -1i32), r)[1] == ' ',
        label_text(entered(ui, st, r).1, r)[1] != label_text(st, r)[1],
        label_text(st, r)[0] == '[' && label_text(st, r)[2] == ']',
        other != r ==> label_text(acted(st, r, dir), other) == label_text(st, other),
        other != r ==> label_text(entered(ui, st, r).1, other) == label_text(st, other),
        acted(st, r, dir).tuning == st.tuning,
        acted(st, r, dir).requests == st.requests,
{
    let a = acted(st, r, dir);
    let e = entered(ui, st, r).1;
    lemma_toggle_only(ui, st, r, dir);
    lemma_toggle_only(ui, st, r, 0);
    if other != r {
        lemma_label_same(st, a, other, r);
        lemma_label_same(st, e, other, r);
    }
    lemma_own_box(st, r);
}

proof fn lemma_toggle_only(ui: Ui, st: TrainerState, r: i32, dir: i32)
    requires
        is_toggle_row(r),
    ensures
        entered(ui, st, r).1 == acted(st, r, 0),
        acted(st, r, dir).tuning == st.tuning,
        acted(st, r, dir).requests == st.requests,
        r != 0 ==> acted(st, r, dir).toggles.god_mode == st.toggles.god_mode,
        r != 1 ==> acted(st, r, dir).toggles.speed_hack == st.toggles.speed_hack,
        r != 3 ==> acted(st, r, dir).toggles.rapid_fire == st.toggles.rapid_fire,
        r != 5 ==> acted(st, r, dir).toggles.fast_bullets == st.toggles.fast_bullets,
        r != 7 ==> acted(st, r, dir).toggles.maxhp_override == st.toggles.maxhp_override,
        r != 9 ==> acted(st, r, dir).toggles.shield_lock == st.toggles.shield_lock,
        r != 11 ==> acted(st, r, dir).toggles.one_hit_kill == st.toggles.one_hit_kill,
{
    reveal(acted);
    reveal(entered);
}

proof fn lemma_own_box(st: TrainerState, r: i32)
    requires
        is_toggle_row(r),
    ensures
        label_text(acted(st, r, 1), r)[1] == 'x',
        label_text(acted(st, r, -1i32), r)[1] == ' ',
        label_text(acted(st, r, 0), r)[1] != label_text(st, r)[1],
        label_text(st, r)[0] == '[' && label_text(st, r)[2] == ']',
{
    reveal(acted);
    if r == 0 {
    } else if r == 1 {
    } else if r == 3 {
    } else if r == 5 {
    } else if r == 7 {
    } else if r == 9 {
    } else {
    }
}

/// Two states with the same tuned values show the same text on row `i` when
/// they agree on the toggle of row `i`, whatever toggle row `r` they may
/// differ on.
proof fn lemma_label_same(s1: TrainerState, s2: TrainerState, i: i32, r: i32)
    requires
        s1.tuning == s2.tuning,
        is_toggle_row(r),
        i != r,
        r != 0 ==> s1.toggles.god_mode == s2.toggles.god_mode,
        r != 1 ==> s1.toggles.speed_hack == s2.toggles.speed_hack,
        r != 3 ==> s1.toggles.rapid_fire == s2.toggles.rapid_fire,
        r != 5 ==> s1.toggles.fast_bullets == s2.toggles.fast_bullets,
        r != 7 ==> s1.toggles.maxhp_override == s2.toggles.maxhp_override,
        r != 9 ==> s1.toggles.shield_lock == s2.toggles.shield_lock,
        r != 11 ==> s1.toggles.one_hit_kill == s2.toggles.one_hit_kill,
    ensures
        label_text(s1, i) == label_text(s2, i),
{
}

/// Which toggle each toggle row holds, by the name on the row: right sets it,
/// left clears it, and the other toggles keep their values.
pub proof fn law_toggle_rows_by_name(st: TrainerState)
    ensures
        label_text(st, 0) == seq!['[', mark_char(st.toggles.god_mode), ']'] + " God Mode (bat tu)"@,
        label_text(st, 1) == seq!['[', mark_char(st.toggles.speed_hack), ']'] + " Speed Hack"@,
        label_text(st, 3) == seq!['[', mark_char(st.toggles.rapid_fire), ']'] + " Rapid Fire"@,
        label_text(st, 5) == seq!['[', mark_char(st.toggles.fast_bullets), ']'] + " Fast Bullets"@,
        label_text(st, 7) == seq!['[', mark_char(st.toggles.maxhp_override), ']'] + " Max/Lock HP"@,
        label_text(st, 9) == seq!['[', mark_char(st.toggles.shield_lock), ']'] + " Shield Lock"@,
        label_text(st, 11) == seq!['[', mark_char(st.toggles.one_hit_kill), ']'] + " One-Hit Kill"@,
        acted(st, 0, 1).toggles == (Toggles { god_mode: true, ..st.toggles }),
        acted(st, 1, 1).toggles == (Toggles { speed_hack: true, ..st.toggles }),
        acted(st, 3, 1).toggles == (Toggles { rapid_fire: true, ..st.toggles }),
        acted(st, 5, 1).toggles == (Toggles { fast_bullets: true, ..st.toggles }),
        acted(st, 7, 1).toggles == (Toggles { maxhp_override: true, ..st.toggles }),
        acted(st, 9, 1).toggles == (Toggles { shield_lock: true, ..st.toggles }),
        acted(st, 11, 1).toggles == (Toggles { one_hit_kill: true, ..st.toggles }),
        acted(st, 0, -1i32).toggles == (Toggles { god_mode: false, ..st.toggles }),
        acted(st, 1, -1i32).toggles == (Toggles { speed_hack: false, ..st.toggles }),
        acted(st, 3, -1i32).toggles == (Toggles { rapid_fire: false, ..st.toggles }),
        acted(st, 5, -1i32).toggles == (Toggles { fast_bullets: false, ..st.toggles }),
        acted(st, 7, -1i32).toggles == (Toggles { maxhp_override: false, ..st.toggles }),
        acted(st, 9, -1i32).toggles == (Toggles { shield_lock: false, ..st.toggles }),
        acted(st, 11, -1i32).toggles == (Toggles { one_hit_kill: false, ..st.toggles }),
{
    reveal(acted);
}

/// The number shown on each integer value row is the value that left and
/// right on that row change, and left and right there change nothing else.
pub proof fn law_value_rows_show_what_they_change(st: TrainerState, dir: i32)
    ensures
        label_text(st, 2) == "    Move Speed: "@ + fixed1(st.tuning.speed_tenths as int),
        acted(st, 2, dir) == (TrainerState {
            tuning: Tuning { speed_tenths: acted(st, 2, dir).tuning.speed_tenths, ..st.tuning },
            ..st
        }),
        label_text(st, 4) == "    Cooldown: "@ + fixed2(st.tuning.cooldown_hundredths as int) + "s"@,
        acted(st, 4, dir) == (TrainerState {
            tuning: Tuning {
                cooldown_hundredths: acted(st, 4, dir).tuning.cooldown_hundredths,
                ..st.tuning
            },
            ..st
        }),
        label_text(st, 6) == "    Bullet Speed: "@ + fixed1(st.tuning.bullet_speed_tenths as int),
        acted(st, 6, dir) == (TrainerState {
            tuning: Tuning {
                bullet_speed_tenths: acted(st, 6, dir).tuning.bullet_speed_tenths,
                ..st.tuning
            },
            ..st
        }),
        0 <= st.tuning.item_preset_index < ITEM_PRESET_COUNT ==> label_text(st, 17) == "> Add item: "@
            + preset_name(st.tuning.item_preset_index as int) + " ("@ + dec_int(
            st.tuning.item_preset_index + 1,
        ) + ")  [Enter]"@,
        acted(st, 17, dir) == (TrainerState {
            tuning: Tuning {
                item_preset_index: acted(st, 17, dir).tuning.item_preset_index,
                ..st.tuning
            },
            ..st
        }),
        label_text(st, 8) == "    HP: "@ + dec_int(st.tuning.maxhp_value as int),
        acted(st, 8, dir) == (TrainerState {
            tuning: Tuning { maxhp_value: acted(st, 8, dir).tuning.maxhp_value, ..st.tuning },
            ..st
        }),
        label_text(st, 10) == "    Shield HP: "@ + dec_int(st.tuning.shield_value as int),
        acted(st, 10, dir) == (TrainerState {
            tuning: Tuning { shield_value: acted(st, 10, dir).tuning.shield_value, ..st.tuning },
            ..st
        }),
        label_text(st, 14) == "    Gold amount: "@ + dec_int(st.tuning.gold_amount as int),
        label_text(st, 13) == "> Add Gold: "@ + dec_int(st.tuning.gold_amount as int) + "  [Enter]"@,
        acted(st, 14, dir) == (TrainerState {
            tuning: Tuning { gold_amount: acted(st, 14, dir).tuning.gold_amount, ..st.tuning },
            ..st
        }),
        label_text(st, 16) == "    EXP amount: "@ + dec_int(st.tuning.exp_amount as int),
        label_text(st, 15) == "> Add EXP: "@ + dec_int(st.tuning.exp_amount as int) + "  [Enter]"@,
        acted(st, 16, dir) == (TrainerState {
            tuning: Tuning { exp_amount: acted(st, 16, dir).tuning.exp_amount, ..st.tuning },
            ..st
        }),
{
    reveal(acted);
}

/// Right on the HP, shield, gold or experience row adds 100 to the value it
/// shows, and left takes 100 away, as long as the result stays in range.
pub proof fn law_value_rows_step_by_hundred(st: TrainerState)
    ensures
        1 <= st.tuning.shield_value <= i32::MAX - 100 ==> acted(st, 10, 1).tuning.shield_value
            == st.tuning.shield_value + 100,
        101 <= st.tuning.shield_value ==> acted(st, 10, -1i32).tuning.shield_value
            == st.tuning.shield_value - 100,
        1 <= st.tuning.maxhp_value <= i32::MAX - 100 ==> acted(st, 8, 1).tuning.maxhp_value
            == st.tuning.maxhp_value + 100,
        101 <= st.tuning.maxhp_value ==> acted(st, 8, -1i32).tuning.maxhp_value
            == st.tuning.maxhp_value - 100,
        0 <= st.tuning.gold_amount <= i32::MAX - 100 ==> acted(st, 14, 1).tuning.gold_amount
            == st.tuning.gold_amount + 100,
        100 <= st.tuning.gold_amount ==> acted(st, 14, -1i32).tuning.gold_amount
            == st.tuning.gold_amount - 100,
        0 <= st.tuning.exp_amount <= i32::MAX - 100 ==> acted(st, 16, 1).tuning.exp_amount
            == st.tuning.exp_amount + 100,
        100 <= st.tuning.exp_amount ==> acted(st, 16, -1i32).tuning.exp_amount
            == st.tuning.exp_amount - 100,
{
    reveal(acted);
    reveal(stepped_hundreds);
}

/// In the buff picker with `count` offered buffs (`count + 2` rows), a fresh
/// press of down alone moves to the next row, from the last row to the first;
/// up alone moves to the previous row, from the first row to the last; and
/// down then up comes back to the same row.
pub proof fn law_picker_moves(ui: Ui, st: TrainerState, count: nat)
    requires
        ui.buff_modal,
        st.menu_visible,
        !ui.p_toggle,
        !ui.p_up,
        !ui.p_down,
        0 <= ui.buff_sel < count + 2,
        count + 2 <= i32::MAX,
    ensures
        ticked(ui, st, only(false, false, true), count).0.buff_sel == (ui.buff_sel + 1) % ((count + 2) as int),
        ticked(ui, st, only(false, true, false), count).0.buff_sel == (ui.buff_sel + count + 1) % (
        (count + 2) as int),
        ({
            let (u1, s1) = ticked(ui, st, only(false, false, true), count);
            ticked(u1, s1, only(false, true, false), count).0.buff_sel == ui.buff_sel
        }),
{
    reveal(modal_tick);
    let m = (count + 2) as int;
    let (u1, s1) = ticked(ui, st, only(false, false, true), count);
    assert(u1.buff_modal && s1 == st && !u1.p_up && !u1.p_toggle);
    let b = ui.buff_sel as int;
    if b + 1 < m {
        assert((b + 1) % m == b + 1) by (nonlinear_arith)
            requires 0 <= b + 1 < m;
        assert((b + m) % m == b) by (nonlinear_arith)
            requires 0 <= b < m;
    } else {
        assert((b + 1) % m == 0) by (nonlinear_arith)
            requires b + 1 == m, m > 0;
        assert((0 - 1 + m) % m == m - 1) by (nonlinear_arith)
            requires m > 0;
    }
}

} // verus!
