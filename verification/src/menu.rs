//! The overlay menu: key edges, the main list of toggles and values, the buff
//! picker, and the text of each row.
//!
//! Keys: `\` opens and closes the menu (or leaves the buff picker), up/down
//! move the selection, left/right change a value or set a toggle, Enter
//! flips a toggle or fires a power.

use vstd::prelude::*;
use crate::state::{
    item_preset_count, known_buffs_snapshot, lemma_merge_len, known_catalog, offered_buffs,
    BuffOption, BuffStore, Requests, Toggles, TrainerState, Tuning, BULLET_MAX, BULLET_MIN, COOLDOWN_MAX,
    COOLDOWN_MIN, ITEM_PRESET_COUNT, SPEED_MAX, SPEED_MIN,
};

verus! {

/// Number of rows in the main menu.
pub const MENU_ITEMS: i32 = 22;
/// Width of the main panel and of the buff panel, and the gap between them.
pub const MAIN_W: i32 = 360;
pub const BUFF_W: i32 = 360;
pub const PANEL_GAP: i32 = 16;
/// Width of the window when the buff picker is open.
pub const WIN_W: i32 = 736;
/// Height of the window and of one row.
pub const WIN_H: i32 = 545;
pub const LINE_H: i32 = 22;

/// A colour as GDI packs it: red in the low byte, then green, then blue.
pub fn rgb(r: u8, g: u8, b: u8) -> (res: u32)
    ensures
        res == r as int + g as int * 256 + b as int * 65536,
{
    let res = (r as u32) + (g as u32) * 256 + (b as u32) * 65536;
    res
}

/// The keys the overlay reads each tick: whether each is held down.
#[derive(Clone, Copy, Debug, PartialEq, Eq, Structural)]
pub struct Keys {
    pub toggle: bool,
    pub up: bool,
    pub down: bool,
    pub left: bool,
    pub right: bool,
    pub enter: bool,
}

/// The overlay's own state: selections, the buff picker, and which keys were
/// held at the previous tick.
#[derive(Clone, Copy, Debug, PartialEq, Eq, Structural)]
pub struct Ui {
    /// Selected row of the main menu.
    pub sel: i32,
    /// Whether the buff picker is open.
    pub buff_modal: bool,
    /// Selected row of the buff picker.
    pub buff_sel: i32,
    /// Buffs ticked in the picker: bit `i` for offered buff `i`.
    pub buff_mask: usize,
    pub p_toggle: bool,
    pub p_up: bool,
    pub p_down: bool,
    pub p_left: bool,
    pub p_right: bool,
    pub p_enter: bool,
    pub logged_first: bool,
}

impl Ui {
    /// The overlay before its first tick.
    pub fn new() -> (res: Self)
        ensures
            res.wf(),
            res.sel == 0,
            !res.buff_modal,
            res.buff_sel == 0,
            res.buff_mask == 0,
            !res.p_toggle && !res.p_up && !res.p_down && !res.p_left && !res.p_right
                && !res.p_enter,
            !res.logged_first,
    {
        Ui {
            sel: 0,
            buff_modal: false,
            buff_sel: 0,
            buff_mask: 0,
            p_toggle: false,
            p_up: false,
            p_down: false,
            p_left: false,
            p_right: false,
            p_enter: false,
            logged_first: false,
        }
    }

    /// The selections point at rows that exist.
    pub open spec fn wf(self) -> bool {
        0 <= self.sel < MENU_ITEMS && 0 <= self.buff_sel
    }
}

/// Fires exactly when the key is down now and was not at the previous tick;
/// remembers the current state for the next tick.
pub fn edge(now: bool, prev: &mut bool) -> (fired: bool)
    ensures
        fired == (now && !*old(prev)),
        *final(prev) == now,
{
    let fired = now && !*prev;
    *prev = now;
    fired
}

/// The value of a toggle after a step in direction `dir`: right sets it,
/// left clears it, anything else flips it.
pub open spec fn flipped(v: bool, dir: i32) -> bool {
    if dir == 1 {
        true
    } else if dir == -1 {
        false
    } else {
        !v
    }
}

fn flip_value(v: bool, dir: i32) -> (res: bool)
    ensures
        res == flipped(v, dir),
{
    if dir == 1 {
        true
    } else if dir == -1 {
        false
    } else {
        !v
    }
}

/// Steps a toggle in direction `dir`.
pub fn flip(flag: &mut bool, dir: i32)
    ensures
        *final(flag) == flipped(*old(flag), dir),
{
    if dir == 1 {
        *flag = true;
    } else if dir == -1 {
        *flag = false;
    } else {
        *flag = !*flag;
    }
}

/// `v` limited to `lo..=hi`.
pub open spec fn clamp(v: int, lo: int, hi: int) -> int {
    if v < lo {
        lo
    } else if v > hi {
        hi
    } else {
        v
    }
}

/// `v` moved by `delta` and limited to `lo..=hi`.
#[verifier::opaque]
pub open spec fn clamped_step(v: i32, delta: int, lo: i32, hi: i32) -> i32 {
    clamp(v + delta, lo as int, hi as int) as i32
}

/// A counter stepped by `dir` hundreds with the 32-bit wrap-around of the
/// release build, then raised to at least `lo`.
#[verifier::opaque]
pub open spec fn stepped_hundreds(v: i32, dir: i32, lo: i32) -> i32 {
    let s = v.wrapping_add(dir.wrapping_mul(100));
    if s < lo {
        lo
    } else {
        s
    }
}

/// Rows of the main menu that hold a toggle.
pub open spec fn is_toggle_row(sel: i32) -> bool {
    sel == 0 || sel == 1 || sel == 3 || sel == 5 || sel == 7 || sel == 9 || sel == 11
}

/// Rows of the main menu that hold a tuned value.
pub open spec fn is_value_row(sel: i32) -> bool {
    sel == 2 || sel == 4 || sel == 6 || sel == 8 || sel == 10 || sel == 14 || sel == 16
        || sel == 17
}

/// The toggles after a step in direction `dir` on row `sel`.
pub open spec fn toggles_acted(t: Toggles, sel: i32, dir: i32) -> Toggles {
    Toggles {
        god_mode: if sel == 0 { flipped(t.god_mode, dir) } else { t.god_mode },
        speed_hack: if sel == 1 { flipped(t.speed_hack, dir) } else { t.speed_hack },
        rapid_fire: if sel == 3 { flipped(t.rapid_fire, dir) } else { t.rapid_fire },
        fast_bullets: if sel == 5 { flipped(t.fast_bullets, dir) } else { t.fast_bullets },
        maxhp_override: if sel == 7 { flipped(t.maxhp_override, dir) } else { t.maxhp_override },
        shield_lock: if sel == 9 { flipped(t.shield_lock, dir) } else { t.shield_lock },
        one_hit_kill: if sel == 11 { flipped(t.one_hit_kill, dir) } else { t.one_hit_kill },
    }
}

/// The tuned values after a step in direction `dir` on row `sel`: speeds and
/// the cooldown move one step within their ranges, the HP and shield values
/// move by 100 and stay at least 1, the gold and experience amounts move by
/// 100 and stay at least 0, the item preset moves within the list.
pub open spec fn tuning_acted(v: Tuning, sel: i32, dir: i32) -> Tuning {
    Tuning {
        speed_tenths: if sel == 2 {
            clamped_step(v.speed_tenths, dir * 10, SPEED_MIN, SPEED_MAX)
        } else {
            v.speed_tenths
        },
        cooldown_hundredths: if sel == 4 {
            clamped_step(v.cooldown_hundredths, dir as int, COOLDOWN_MIN, COOLDOWN_MAX)
        } else {
            v.cooldown_hundredths
        },
        bullet_speed_tenths: if sel == 6 {
            clamped_step(v.bullet_speed_tenths, dir * 20, BULLET_MIN, BULLET_MAX)
        } else {
            v.bullet_speed_tenths
        },
        maxhp_value: if sel == 8 {
            stepped_hundreds(v.maxhp_value, dir, 1)
        } else {
            v.maxhp_value
        },
        shield_value: if sel == 10 {
            stepped_hundreds(v.shield_value, dir, 1)
        } else {
            v.shield_value
        },
        gold_amount: if sel == 14 {
            stepped_hundreds(v.gold_amount, dir, 0)
        } else {
            v.gold_amount
        },
        exp_amount: if sel == 16 {
            stepped_hundreds(v.exp_amount, dir, 0)
        } else {
            v.exp_amount
        },
        item_preset_index: if sel == 17 {
            clamped_step(v.item_preset_index, dir as int, 0, (ITEM_PRESET_COUNT - 1) as i32)
        } else {
            v.item_preset_index
        },
        ..v
    }
}

/// The state after left (`dir == -1`) or right (`dir == 1`) on row `sel`.
#[verifier::opaque]
pub open spec fn acted(st: TrainerState, sel: i32, dir: i32) -> TrainerState {
    if is_toggle_row(sel) {
        TrainerState { toggles: toggles_acted(st.toggles, sel, dir), ..st }
    } else if is_value_row(sel) {
        TrainerState { tuning: tuning_acted(st.tuning, sel, dir), ..st }
    } else {
        st
    }
}

fn clamp_step(v: i32, delta: i64, lo: i32, hi: i32) -> (res: i32)
    requires
        lo <= hi,
        -0x100_0000_0000 <= delta <= 0x100_0000_0000,
    ensures
        res == clamped_step(v, delta as int, lo, hi),
{
    reveal(clamped_step);
    let s = v as i64 + delta;
    if s < lo as i64 {
        lo
    } else if s > hi as i64 {
        hi
    } else {
        s as i32
    }
}

fn step_hundreds(v: i32, dir: i32, lo: i32) -> (res: i32)
    ensures
        res == stepped_hundreds(v, dir, lo),
{
    reveal(stepped_hundreds);
    let s = v.wrapping_add(dir.wrapping_mul(100));
    if s < lo {
        lo
    } else {
        s
    }
}

fn toggles_act(t: Toggles, sel: i32, dir: i32) -> (res: Toggles)
    ensures
        res == toggles_acted(t, sel, dir),
{
    let mut r = t;
    if sel == 0 {
        r.god_mode = flip_value(t.god_mode, dir);
    } else if sel == 1 {
        r.speed_hack = flip_value(t.speed_hack, dir);
    } else if sel == 3 {
        r.rapid_fire = flip_value(t.rapid_fire, dir);
    } else if sel == 5 {
        r.fast_bullets = flip_value(t.fast_bullets, dir);
    } else if sel == 7 {
        r.maxhp_override = flip_value(t.maxhp_override, dir);
    } else if sel == 9 {
        r.shield_lock = flip_value(t.shield_lock, dir);
    } else if sel == 11 {
        r.one_hit_kill = flip_value(t.one_hit_kill, dir);
    }
    r
}

fn tuning_act(v: Tuning, sel: i32, dir: i32) -> (res: Tuning)
    ensures
        res == tuning_acted(v, sel, dir),
{
    let mut r = v;
    if sel == 2 {
        r.speed_tenths = clamp_step(v.speed_tenths, dir as i64 * 10, SPEED_MIN, SPEED_MAX);
    } else if sel == 4 {
        r.cooldown_hundredths = clamp_step(
            v.cooldown_hundredths,
            dir as i64,
            COOLDOWN_MIN,
            COOLDOWN_MAX,
        );
    } else if sel == 6 {
        r.bullet_speed_tenths = clamp_step(
            v.bullet_speed_tenths,
            dir as i64 * 20,
            BULLET_MIN,
            BULLET_MAX,
        );
    } else if sel == 8 {
        r.maxhp_value = step_hundreds(v.maxhp_value, dir, 1);
    } else if sel == 10 {
        r.shield_value = step_hundreds(v.shield_value, dir, 1);
    } else if sel == 14 {
        r.gold_amount = step_hundreds(v.gold_amount, dir, 0);
    } else if sel == 16 {
        r.exp_amount = step_hundreds(v.exp_amount, dir, 0);
    } else if sel == 17 {
        let max = item_preset_count() - 1;
        r.item_preset_index = clamp_step(v.item_preset_index, dir as i64, 0, max);
    }
    r
}

/// Left or right on row `sel`: toggles are set or cleared, values move one
/// step and stay in their ranges.
pub fn act(st: &mut TrainerState, sel: i32, dir: i32)
    ensures
        *final(st) == acted(*old(st), sel, dir),
        final(st).menu_visible == old(st).menu_visible,
{
    reveal(acted);
    if sel == 0 || sel == 1 || sel == 3 || sel == 5 || sel == 7 || sel == 9 || sel == 11 {
        st.toggles = toggles_act(st.toggles, sel, dir);
    } else if sel == 2 || sel == 4 || sel == 6 || sel == 8 || sel == 10 || sel == 14 || sel == 16
        || sel == 17 {
        st.tuning = tuning_act(st.tuning, sel, dir);
    }
}

/// The overlay and trainer state after Enter on row `sel` of the main menu.
#[verifier::opaque]
pub open spec fn entered(ui: Ui, st: TrainerState, sel: i32) -> (Ui, TrainerState) {
    let r = st.requests;
    if is_toggle_row(sel) {
        (ui, acted(st, sel, 0))
    } else if sel == 12 {
        (ui, TrainerState { requests: Requests { revive: true, ..r }, ..st })
    } else if sel == 13 {
        (ui, TrainerState { requests: Requests { add_gold: true, ..r }, ..st })
    } else if sel == 15 {
        (ui, TrainerState { requests: Requests { add_exp: true, ..r }, ..st })
    } else if sel == 17 {
        (ui, TrainerState { requests: Requests { add_item_preset: true, ..r }, ..st })
    } else if sel == 18 {
        (Ui { buff_modal: true, buff_sel: 0, ..ui }, st)
    } else if sel == 19 {
        (ui, TrainerState { requests: Requests { add_known_items: true, ..r }, ..st })
    } else if sel == 20 {
        (ui, TrainerState { requests: Requests { shield_on: true, ..r }, ..st })
    } else if sel == 21 {
        (ui, TrainerState { requests: Requests { shield_off: true, ..r }, ..st })
    } else {
        (ui, st)
    }
}

/// Enter on row `sel`: flips a toggle, requests a power, or opens the buff
/// picker.
pub fn act_enter(ui: &mut Ui, st: &mut TrainerState, sel: i32)
    ensures
        (*final(ui), *final(st)) == entered(*old(ui), *old(st), sel),
        final(ui).sel == old(ui).sel,
        old(ui).buff_sel >= 0 ==> final(ui).buff_sel >= 0,
        final(st).menu_visible == old(st).menu_visible,
{
    reveal(entered);
    if sel == 0 || sel == 1 || sel == 3 || sel == 5 || sel == 7 || sel == 9 || sel == 11 {
        act(st, sel, 0);
    } else if sel == 12 {
        st.requests.revive = true;
    } else if sel == 13 {
        st.requests.add_gold = true;
    } else if sel == 15 {
        st.requests.add_exp = true;
    } else if sel == 17 {
        st.requests.add_item_preset = true;
    } else if sel == 18 {
        ui.buff_modal = true;
        ui.buff_sel = 0;
    } else if sel == 19 {
        st.requests.add_known_items = true;
    } else if sel == 20 {
        st.requests.shield_on = true;
    } else if sel == 21 {
        st.requests.shield_off = true;
    }
}

/// The mask with bit `i` flipped; masks have no bit for rows past the word
/// size, so those leave it unchanged.
#[verifier::opaque]
pub open spec fn toggled_bit(mask: usize, i: int) -> usize {
    if 0 <= i < usize::BITS {
        mask ^ (1usize << (i as usize))
    } else {
        mask
    }
}

/// Flips bit `i` of the mask (no bit past the word size).
pub fn toggle_bit(mask: usize, i: usize) -> (res: usize)
    ensures
        res == toggled_bit(mask, i as int),
{
    reveal(toggled_bit);
    if i < usize::BITS as usize {
        mask ^ (1usize << i)
    } else {
        mask
    }
}

/// Whether bit `i` of `mask` is set (never for rows past the word size).
pub open spec fn bit_set(mask: usize, i: int) -> bool {
    0 <= i < usize::BITS && (mask >> (i as usize)) & 1usize == 1usize
}

/// The states after Enter in the buff picker that offers `count` buffs: a buff
/// row ticks or unticks that buff, the row after them hands the ticked set to
/// the game and closes the picker, the last row closes it.
#[verifier::opaque]
pub open spec fn modal_entered(ui: Ui, st: TrainerState, count: nat) -> (Ui, TrainerState) {
    if ui.buff_sel < count {
        (Ui { buff_mask: toggled_bit(ui.buff_mask, ui.buff_sel as int), ..ui }, st)
    } else if ui.buff_sel == count {
        (
            Ui { buff_modal: false, ..ui },
            TrainerState {
                requests: Requests {
                    buff_selected_mask: ui.buff_mask,
                    apply_selected_buffs: true,
                    ..st.requests
                },
                ..st
            },
        )
    } else {
        (Ui { buff_modal: false, ..ui }, st)
    }
}

/// Enter in the buff picker.
pub fn buff_modal_enter(ui: &mut Ui, st: &mut TrainerState, buffs: &Vec<BuffOption>)
    requires
        old(ui).buff_sel >= 0,
    ensures
        (*final(ui), *final(st)) == modal_entered(*old(ui), *old(st), buffs@.len()),
        final(ui).sel == old(ui).sel,
        final(ui).buff_sel == old(ui).buff_sel,
        final(st).menu_visible == old(st).menu_visible,
{
    reveal(modal_entered);
    let count = buffs.len();
    let sel = ui.buff_sel as usize;
    if sel < count {
        ui.buff_mask = toggle_bit(ui.buff_mask, sel);
    } else if sel == count {
        st.requests.buff_selected_mask = ui.buff_mask;
        st.requests.apply_selected_buffs = true;
        ui.buff_modal = false;
    } else {
        ui.buff_modal = false;
    }
}

/// What a tick tells the window: whether to show it, how wide to make it, and
/// whether this was the first tick.
#[derive(Clone, Copy, Debug, PartialEq, Eq, Structural)]
pub struct TickOutcome {
    pub visible: bool,
    pub width: i32,
    pub first_tick: bool,
}

/// The key-edge bookkeeping and selection moves of one tick in the buff
/// picker with `m` rows, before Enter is handled.
pub open spec fn modal_moves(ui: Ui, keys: Keys, m: int) -> Ui {
    let up = keys.up && !ui.p_up;
    let down = keys.down && !ui.p_down;
    let s1 = if up { (ui.buff_sel - 1 + m) % m } else { ui.buff_sel as int };
    let s2 = if down { (s1 + 1) % m } else { s1 };
    Ui {
        buff_sel: s2 as i32,
        p_up: keys.up,
        p_down: keys.down,
        p_left: keys.left,
        p_right: keys.right,
        p_enter: keys.enter,
        ..ui
    }
}

/// One tick in the buff picker with `count` offered buffs.
#[verifier::opaque]
pub open spec fn modal_tick(ui: Ui, st: TrainerState, keys: Keys, count: nat) -> (Ui, TrainerState) {
    let moved = modal_moves(ui, keys, (count + 2) as int);
    if keys.enter && !ui.p_enter {
        modal_entered(moved, st, count)
    } else {
        (moved, st)
    }
}

/// One tick in the main menu.
#[verifier::opaque]
pub open spec fn main_tick(ui: Ui, st: TrainerState, keys: Keys) -> (Ui, TrainerState) {
    let m = MENU_ITEMS as int;
    let s1 = if keys.up && !ui.p_up { (ui.sel - 1 + m) % m } else { ui.sel as int };
    let s2 = if keys.down && !ui.p_down { (s1 + 1) % m } else { s1 };
    let ui1 = Ui {
        sel: s2 as i32,
        p_up: keys.up,
        p_down: keys.down,
        p_left: keys.left,
        p_right: keys.right,
        p_enter: keys.enter,
        ..ui
    };
    let st1 = if keys.left && !ui.p_left { acted(st, ui1.sel, -1i32) } else { st };
    let st2 = if keys.right && !ui.p_right { acted(st1, ui1.sel, 1) } else { st1 };
    if keys.enter && !ui.p_enter {
        entered(ui1, st2, ui1.sel)
    } else {
        (ui1, st2)
    }
}

/// One tick of the overlay with `count` offered buffs: the toggle key leaves
/// the buff picker or shows/hides the menu; while the menu is shown the other
/// keys act on the picker or on the main menu; while it is hidden they are
/// only remembered.
pub open spec fn ticked(ui: Ui, st: TrainerState, keys: Keys, count: nat) -> (Ui, TrainerState) {
    let toggled = keys.toggle && !ui.p_toggle;
    let ui0 = Ui {
        logged_first: true,
        p_toggle: keys.toggle,
        buff_modal: if toggled && ui.buff_modal { false } else { ui.buff_modal },
        ..ui
    };
    let st0 = if toggled && !ui.buff_modal {
        TrainerState { menu_visible: !st.menu_visible, ..st }
    } else {
        st
    };
    if st0.menu_visible {
        if ui0.buff_modal {
            modal_tick(ui0, st0, keys, count)
        } else {
            main_tick(ui0, st0, keys)
        }
    } else {
        (
            Ui {
                p_up: keys.up,
                p_down: keys.down,
                p_left: keys.left,
                p_right: keys.right,
                p_enter: keys.enter,
                ..ui0
            },
            st0,
        )
    }
}

fn modal_step(ui: &mut Ui, st: &mut TrainerState, buffs: &Vec<BuffOption>, keys: Keys)
    requires
        old(ui).buff_sel >= 0,
        buffs@.len() + 2 <= i32::MAX,
    ensures
        (*final(ui), *final(st)) == modal_tick(*old(ui), *old(st), keys, buffs@.len()),
        final(ui).buff_sel >= 0,
        final(ui).sel == old(ui).sel,
        final(st).menu_visible == old(st).menu_visible,
{
    reveal(modal_tick);
    let modal_items: i64 = buffs.len() as i64 + 2;
    let ghost ui0 = *ui;
    if edge(keys.up, &mut ui.p_up) {
        ui.buff_sel = ((ui.buff_sel as i64 - 1 + modal_items) % modal_items) as i32;
    }
    if edge(keys.down, &mut ui.p_down) {
        ui.buff_sel = ((ui.buff_sel as i64 + 1) % modal_items) as i32;
    }
    ui.p_left = keys.left;
    ui.p_right = keys.right;
    proof {
        let moved = modal_moves(ui0, keys, modal_items as int);
        assert(*ui == Ui { p_enter: ui0.p_enter, ..moved });
    }
    if edge(keys.enter, &mut ui.p_enter) {
        buff_modal_enter(ui, st, buffs);
    }
}

fn main_step(ui: &mut Ui, st: &mut TrainerState, keys: Keys)
    requires
        old(ui).wf(),
    ensures
        (*final(ui), *final(st)) == main_tick(*old(ui), *old(st), keys),
        final(ui).wf(),
        final(st).menu_visible == old(st).menu_visible,
{
    reveal(main_tick);
    if edge(keys.up, &mut ui.p_up) {
        ui.sel = (ui.sel - 1 + MENU_ITEMS) % MENU_ITEMS;
    }
    if edge(keys.down, &mut ui.p_down) {
        ui.sel = (ui.sel + 1) % MENU_ITEMS;
    }
    if edge(keys.left, &mut ui.p_left) {
        act(st, ui.sel, -1);
    }
    if edge(keys.right, &mut ui.p_right) {
        act(st, ui.sel, 1);
    }
    if edge(keys.enter, &mut ui.p_enter) {
        let sel = ui.sel;
        act_enter(ui, st, sel);
    }
}

/// One tick of the overlay: reads the keys, updates the menu and the trainer
/// state, and says how to show the window.
pub fn tick(ui: &mut Ui, st: &mut TrainerState, store: &BuffStore, keys: Keys) -> (out: TickOutcome)
    requires
        old(ui).wf(),
        store@.len() + 12 <= i32::MAX,
    ensures
        (*final(ui), *final(st)) == ticked(
            *old(ui),
            *old(st),
            keys,
            offered_buffs(store@).len(),
        ),
        final(ui).wf(),
        out.visible == final(st).menu_visible,
        out.width == (if final(ui).buff_modal { WIN_W } else { MAIN_W }),
        out.first_tick == !old(ui).logged_first,
{
    let buffs = known_buffs_snapshot(store);
    proof {
        lemma_merge_len(known_catalog(), store@);
    }
    let first_tick = !ui.logged_first;
    ui.logged_first = true;
    if edge(keys.toggle, &mut ui.p_toggle) {
        if ui.buff_modal {
            ui.buff_modal = false;
        } else {
            st.menu_visible = !st.menu_visible;
        }
    }
    let menu = st.menu_visible;
    if menu {
        if ui.buff_modal {
            modal_step(ui, st, &buffs, keys);
        } else {
            main_step(ui, st, keys);
        }
    } else {
        ui.p_up = keys.up;
        ui.p_down = keys.down;
        ui.p_left = keys.left;
        ui.p_right = keys.right;
        ui.p_enter = keys.enter;
    }
    let width = if ui.buff_modal { WIN_W } else { MAIN_W };
    TickOutcome { visible: menu, width, first_tick }
}

} // verus!
