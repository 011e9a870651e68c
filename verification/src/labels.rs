//! The text of each overlay row.

use vstd::prelude::*;
use crate::state::{
    buff_kind_name, item_preset, kind_name, preset_id, preset_name, preset_position, BuffOption,
    TrainerState,
};
use crate::text::{dec_int, fixed1, fixed2, push_fixed1, push_fixed2, push_i32};
use crate::menu::{bit_set, clamp, WIN_H};

verus! {

/// The mark of a toggle: `x` when on, a space when off.
pub open spec fn mark_char(on: bool) -> char {
    if on {
        'x'
    } else {
        ' '
    }
}

/// The mark of a toggle: `x` when on, a space when off.
pub fn mark(on: bool) -> (res: char)
    ensures
        res == mark_char(on),
{
    if on {
        'x'
    } else {
        ' '
    }
}

/// A toggle's box, `[x]` or `[ ]`.
pub open spec fn check_box(on: bool) -> Seq<char> {
    seq!['[', mark_char(on), ']']
}

/// A toggle's box, `[x]` or `[ ]`.
pub fn check_box_str(on: bool) -> (res: &'static str)
    ensures
        res@ == check_box(on),
{
    proof {
        reveal_strlit("[x]");
        reveal_strlit("[ ]");
    }
    if on {
        "[x]"
    } else {
        "[ ]"
    }
}

/// The text of row `i` of the main menu.
pub open spec fn label_text(st: TrainerState, i: i32) -> Seq<char> {
    let t = st.toggles;
    let v = st.tuning;
    if i == 0 {
        check_box(t.god_mode) + " God Mode (bat tu)"@
    } else if i == 1 {
        check_box(t.speed_hack) + " Speed Hack"@
    } else if i == 2 {
        "    Move Speed: "@ + fixed1(v.speed_tenths as int)
    } else if i == 3 {
        check_box(t.rapid_fire) + " Rapid Fire"@
    } else if i == 4 {
        "    Cooldown: "@ + fixed2(v.cooldown_hundredths as int) + "s"@
    } else if i == 5 {
        check_box(t.fast_bullets) + " Fast Bullets"@
    } else if i == 6 {
        "    Bullet Speed: "@ + fixed1(v.bullet_speed_tenths as int)
    } else if i == 7 {
        check_box(t.maxhp_override) + " Max/Lock HP"@
    } else if i == 8 {
        "    HP: "@ + dec_int(v.maxhp_value as int)
    } else if i == 9 {
        check_box(t.shield_lock) + " Shield Lock"@
    } else if i == 10 {
        "    Shield HP: "@ + dec_int(v.shield_value as int)
    } else if i == 11 {
        check_box(t.one_hit_kill) + " One-Hit Kill"@
    } else if i == 12 {
        "> Revive (Hoi sinh)  [Enter]"@
    } else if i == 13 {
        "> Add Gold: "@ + dec_int(v.gold_amount as int) + "  [Enter]"@
    } else if i == 14 {
        "    Gold amount: "@ + dec_int(v.gold_amount as int)
    } else if i == 15 {
        "> Add EXP: "@ + dec_int(v.exp_amount as int) + "  [Enter]"@
    } else if i == 16 {
        "    EXP amount: "@ + dec_int(v.exp_amount as int)
    } else if i == 17 {
        let p = preset_position(v.item_preset_index as int);
        "> Add item: "@ + preset_name(p) + " ("@ + dec_int(preset_id(p)) + ")  [Enter]"@
    } else if i == 18 {
        "> Get Buffs...  [Enter]"@
    } else if i == 19 {
        "> Add all known items  [Enter]"@
    } else if i == 20 {
        "> Shield ON  [Enter]"@
    } else if i == 21 {
        "> Shield OFF  [Enter]"@
    } else {
        Seq::<char>::empty()
    }
}

/// The text of row `i` of the main menu.
pub fn label(st: &TrainerState, i: i32) -> (res: String)
    ensures
        res@ == label_text(*st, i),
{
    let t = st.toggles;
    let v = st.tuning;
    let mut s = String::new();
    if i == 0 {
        s.append(check_box_str(t.god_mode));
        s.append(" God Mode (bat tu)");
    } else if i == 1 {
        s.append(check_box_str(t.speed_hack));
        s.append(" Speed Hack");
    } else if i == 2 {
        s.append("    Move Speed: ");
        push_fixed1(&mut s, v.speed_tenths);
    } else if i == 3 {
        s.append(check_box_str(t.rapid_fire));
        s.append(" Rapid Fire");
    } else if i == 4 {
        s.append("    Cooldown: ");
        push_fixed2(&mut s, v.cooldown_hundredths);
        s.append("s");
    } else if i == 5 {
        s.append(check_box_str(t.fast_bullets));
        s.append(" Fast Bullets");
    } else if i == 6 {
        s.append("    Bullet Speed: ");
        push_fixed1(&mut s, v.bullet_speed_tenths);
    } else if i == 7 {
        s.append(check_box_str(t.maxhp_override));
        s.append(" Max/Lock HP");
    } else if i == 8 {
        s.append("    HP: ");
        push_i32(&mut s, v.maxhp_value);
    } else if i == 9 {
        s.append(check_box_str(t.shield_lock));
        s.append(" Shield Lock");
    } else if i == 10 {
        s.append("    Shield HP: ");
        push_i32(&mut s, v.shield_value);
    } else if i == 11 {
        s.append(check_box_str(t.one_hit_kill));
        s.append(" One-Hit Kill");
    } else if i == 12 {
        s.append("> Revive (Hoi sinh)  [Enter]");
    } else if i == 13 {
        s.append("> Add Gold: ");
        push_i32(&mut s, v.gold_amount);
        s.append("  [Enter]");
    } else if i == 14 {
        s.append("    Gold amount: ");
        push_i32(&mut s, v.gold_amount);
    } else if i == 15 {
        s.append("> Add EXP: ");
        push_i32(&mut s, v.exp_amount);
        s.append("  [Enter]");
    } else if i == 16 {
        s.append("    EXP amount: ");
        push_i32(&mut s, v.exp_amount);
    } else if i == 17 {
        let item = item_preset(v.item_preset_index);
        s.append("> Add item: ");
        s.append(item.name);
        s.append(" (");
        push_i32(&mut s, item.id);
        s.append(")  [Enter]");
    } else if i == 18 {
        s.append("> Get Buffs...  [Enter]");
    } else if i == 19 {
        s.append("> Add all known items  [Enter]");
    } else if i == 20 {
        s.append("> Shield ON  [Enter]");
    } else if i == 21 {
        s.append("> Shield OFF  [Enter]");
    }
    assert(s@ =~= label_text(*st, i));
    s
}

/// The text of an offered buff in the picker: its box, its kind, its value
/// (with `%` for a percent buff) and its cost when it has one.
pub open spec fn buff_row_text(buff: BuffOption, checked: bool) -> Seq<char> {
    check_box(checked) + " "@ + kind_name(buff.stat_type, buff.is_percent) + "  val="@
        + dec_int(buff.value as int) + (if buff.is_percent {
        "%"@
    } else {
        Seq::<char>::empty()
    }) + (if buff.cost > 0 {
        "  cost="@ + dec_int(buff.cost as int)
    } else {
        Seq::<char>::empty()
    })
}

/// The text of an offered buff in the picker.
pub fn buff_row_label(buff: &BuffOption, checked: bool) -> (res: String)
    ensures
        res@ == buff_row_text(*buff, checked),
{
    let mut s = String::new();
    s.append(check_box_str(checked));
    s.append(" ");
    s.append(buff_kind_name(buff.stat_type, buff.is_percent));
    s.append("  val=");
    push_i32(&mut s, buff.value);
    if buff.is_percent {
        s.append("%");
    }
    if buff.cost > 0 {
        s.append("  cost=");
        push_i32(&mut s, buff.cost);
    }
    assert(s@ =~= buff_row_text(*buff, checked));
    s
}

/// The text of row `row` of the buff picker: a buff row shows that buff with
/// its box ticked when its bit of `mask` is set, the row after the buffs
/// applies the ticked ones and every later row closes the picker.
pub open spec fn picker_row_text(buffs: Seq<BuffOption>, mask: usize, row: int) -> Seq<char> {
    if 0 <= row < buffs.len() {
        buff_row_text(buffs[row], bit_set(mask, row))
    } else if row == buffs.len() {
        "> Apply selected buffs"@
    } else {
        "> Close"@
    }
}

/// The text of row `row` of the buff picker.
pub fn picker_row_label(buffs: &Vec<BuffOption>, mask: usize, row: usize) -> (res: String)
    ensures
        res@ == picker_row_text(buffs@, mask, row as int),
{
    if row < buffs.len() {
        let checked = row < usize::BITS as usize && (mask >> row) & 1usize == 1usize;
        buff_row_label(&buffs[row], checked)
    } else if row == buffs.len() {
        proof {
            reveal_strlit("> Apply selected buffs");
        }
        String::from_str("> Apply selected buffs")
    } else {
        proof {
            reveal_strlit("> Close");
        }
        String::from_str("> Close")
    }
}

/// Height of the buff picker box for `n` offered buffs: a header and one row
/// per buff plus two, kept between 180 and the window height less 36.
pub fn buff_panel_height(n: usize) -> (res: i32)
    requires
        n <= 97_000_000,
    ensures
        res == clamp(92 + (n + 2) * 22, 180, (WIN_H - 36) as int),
{
    let h: i32 = 92 + (n as i32 + 2) * 22;
    if h < 180 {
        180
    } else if h > WIN_H - 36 {
        WIN_H - 36
    } else {
        h
    }
}

} // verus!
