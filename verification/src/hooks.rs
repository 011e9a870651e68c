//! What the game hooks decide each time the game calls them: which stat
//! fields to overwrite or restore, which powers to run, how a buff changes the
//! player, and what the damage and max-HP hooks return.

use vstd::prelude::*;
use crate::state::{
    item_preset, item_presets, known_buffs_snapshot, offered_buffs, preset_id, preset_position,
    upsert_captured_buff, clear_captured_buffs, upserted, BuffOption, BuffStore, Callable, Powers,
    no_requests, Requests, TrainerState, ITEM_PRESET_COUNT,
};
use crate::menu::{acted, bit_set, entered, Ui};

verus! {

// ───────────────────────── stat overwrite with restore ─────────────────────────

/// What to do with one stat field this frame.
#[derive(Clone, Copy, Debug, PartialEq, Eq, Structural)]
pub enum FieldWrite {
    /// Leave the field alone.
    Keep,
    /// Write the tuned value.
    Configured,
    /// Write back the value the field had before the cheat took it over
    /// (its bit pattern).
    Restore(u32),
}

/// What is remembered about one stat field: whether its own value was saved,
/// that value (as a bit pattern), and whether the cheat was on last frame.
#[derive(Clone, Copy, Debug, PartialEq, Eq, Structural)]
pub struct FieldTrack {
    pub valid: bool,
    pub orig: u32,
    pub last_on: bool,
}

/// The remembered values of the three overwritten fields, for one player.
#[derive(Clone, Copy, Debug, PartialEq, Eq, Structural)]
pub struct StatSnapshot {
    pub player: usize,
    pub move_speed: FieldTrack,
    pub bullet_speed: FieldTrack,
    pub fire_rate: FieldTrack,
}

/// The current bit patterns of the three fields, as read this frame.
#[derive(Clone, Copy, Debug, PartialEq, Eq, Structural)]
pub struct FieldBits {
    pub move_speed: u32,
    pub bullet_speed: u32,
    pub fire_rate: u32,
}

/// The writes to the three fields this frame. A `Configured` fire rate also
/// resets the shot timers.
#[derive(Clone, Copy, Debug, PartialEq, Eq, Structural)]
pub struct StatWrites {
    pub move_speed: FieldWrite,
    pub bullet_speed: FieldWrite,
    pub fire_rate: FieldWrite,
}

/// Nothing remembered.
pub open spec fn fresh_track() -> FieldTrack {
    FieldTrack { valid: false, orig: 0, last_on: false }
}

impl StatSnapshot {
    /// A snapshot for no player yet.
    pub fn new() -> (res: Self)
        ensures
            res.player == 0,
            res.move_speed == fresh_track(),
            res.bullet_speed == fresh_track(),
            res.fire_rate == fresh_track(),
    {
        StatSnapshot {
            player: 0,
            move_speed: FieldTrack { valid: false, orig: 0, last_on: false },
            bullet_speed: FieldTrack { valid: false, orig: 0, last_on: false },
            fire_rate: FieldTrack { valid: false, orig: 0, last_on: false },
        }
    }
}

/// One frame for one field: while the cheat is on the tuned value is written,
/// and the field's own value is saved the first time; on the first frame the
/// cheat is off again the saved value is written back; otherwise the field is
/// left alone.
pub open spec fn track_step(t: FieldTrack, on: bool, current: u32) -> (FieldTrack, FieldWrite) {
    if on {
        (
            FieldTrack { valid: true, orig: if t.valid { t.orig } else { current }, last_on: true },
            FieldWrite::Configured,
        )
    } else if t.last_on && t.valid {
        (FieldTrack { valid: false, orig: t.orig, last_on: false }, FieldWrite::Restore(t.orig))
    } else {
        (FieldTrack { last_on: false, ..t }, FieldWrite::Keep)
    }
}

fn track(t: FieldTrack, on: bool, current: u32) -> (res: (FieldTrack, FieldWrite))
    ensures
        res == track_step(t, on, current),
{
    if on {
        let orig = if t.valid { t.orig } else { current };
        (FieldTrack { valid: true, orig, last_on: true }, FieldWrite::Configured)
    } else if t.last_on && t.valid {
        (FieldTrack { valid: false, orig: t.orig, last_on: false }, FieldWrite::Restore(t.orig))
    } else {
        (FieldTrack { valid: t.valid, orig: t.orig, last_on: false }, FieldWrite::Keep)
    }
}

/// The snapshot a frame starts from: a new player starts with nothing saved.
pub open spec fn snapshot_for(s: StatSnapshot, player: usize) -> StatSnapshot {
    if s.player != player {
        StatSnapshot {
            player,
            move_speed: fresh_track(),
            bullet_speed: fresh_track(),
            fire_rate: fresh_track(),
        }
    } else {
        s
    }
}

/// One frame of the stat cheats for `player`: speed hack drives the move
/// speed, fast bullets the bullet speed, rapid fire the fire cooldown.
pub open spec fn stats_step(
    s: StatSnapshot,
    player: usize,
    st: TrainerState,
    cur: FieldBits,
) -> (StatSnapshot, StatWrites) {
    let b = snapshot_for(s, player);
    let m = track_step(b.move_speed, st.toggles.speed_hack, cur.move_speed);
    let u = track_step(b.bullet_speed, st.toggles.fast_bullets, cur.bullet_speed);
    let f = track_step(b.fire_rate, st.toggles.rapid_fire, cur.fire_rate);
    (
        StatSnapshot { player, move_speed: m.0, bullet_speed: u.0, fire_rate: f.0 },
        StatWrites { move_speed: m.1, bullet_speed: u.1, fire_rate: f.1 },
    )
}

/// Decides this frame's writes to the move speed, bullet speed and fire
/// cooldown fields of `player`, and updates what is remembered of them.
pub fn apply_stats(snap: &mut StatSnapshot, player: usize, st: &TrainerState, cur: FieldBits) -> (res: StatWrites)
    ensures
        (*final(snap), res) == stats_step(*old(snap), player, *st, cur),
{
    if snap.player != player {
        *snap = StatSnapshot::new();
        snap.player = player;
    }
    let m = track(snap.move_speed, st.toggles.speed_hack, cur.move_speed);
    let u = track(snap.bullet_speed, st.toggles.fast_bullets, cur.bullet_speed);
    let f = track(snap.fire_rate, st.toggles.rapid_fire, cur.fire_rate);
    snap.move_speed = m.0;
    snap.bullet_speed = u.0;
    snap.fire_rate = f.0;
    StatWrites { move_speed: m.1, bullet_speed: u.1, fire_rate: f.1 }
}

/// The track after a run of frames with the cheat on, reading `cs` from the
/// field one frame after another.
pub open spec fn on_frames(t: FieldTrack, cs: Seq<u32>) -> FieldTrack
    decreases cs.len(),
{
    if cs.len() == 0 {
        t
    } else {
        track_step(on_frames(t, cs.drop_last()), true, cs.last()).0
    }
}

/// Switching a cheat on and later off writes back the value the field had on
/// the first frame it was on, whatever the game wrote in between.
pub proof fn law_toggle_off_restores(t: FieldTrack, cs: Seq<u32>, c_off: u32)
    requires
        !t.valid,
        cs.len() >= 1,
    ensures
        track_step(on_frames(t, cs), false, c_off).1 == FieldWrite::Restore(cs[0]),
        !track_step(on_frames(t, cs), false, c_off).0.valid,
    decreases cs.len(),
{
    lemma_on_frames_saved(t, cs);
}

proof fn lemma_on_frames_saved(t: FieldTrack, cs: Seq<u32>)
    requires
        !t.valid,
        cs.len() >= 1,
    ensures
        on_frames(t, cs).valid,
        on_frames(t, cs).last_on,
        on_frames(t, cs).orig == cs[0],
    decreases cs.len(),
{
    if cs.len() > 1 {
        lemma_on_frames_saved(t, cs.drop_last());
        assert(cs.drop_last()[0] == cs[0]);
    } else {
        assert(on_frames(t, cs.drop_last()) == t);
    }
}

/// A cheat that stays off never touches its field.
pub proof fn law_off_keeps(t: FieldTrack, c: u32)
    requires
        !t.last_on,
    ensures
        track_step(t, false, c).1 == FieldWrite::Keep,
{
}

/// A new player object starts with nothing saved: values saved for the
/// previous player are never written into the new one.
pub proof fn law_new_player_starts_fresh(s: StatSnapshot, player: usize, st: TrainerState, cur: FieldBits)
    requires
        s.player != player,
    ensures
        !(stats_step(s, player, st, cur).1.move_speed is Restore),
        !(stats_step(s, player, st, cur).1.bullet_speed is Restore),
        !(stats_step(s, player, st, cur).1.fire_rate is Restore),
        stats_step(s, player, st, cur).0.player == player,
{
}

/// The snapshot after the first `n` frames of `player`, frame `i` seeing the
/// trainer state `sts[i]` and the field values `curs[i]`.
pub open spec fn stats_run(
    s: StatSnapshot,
    player: usize,
    sts: Seq<TrainerState>,
    curs: Seq<FieldBits>,
    n: nat,
) -> StatSnapshot
    decreases n,
{
    if n == 0 {
        s
    } else {
        stats_step(stats_run(s, player, sts, curs, (n - 1) as nat), player, sts[n - 1], curs[n - 1]).0
    }
}

proof fn lemma_stats_run(s: StatSnapshot, player: usize, sts: Seq<TrainerState>, curs: Seq<FieldBits>, n: nat)
    requires
        s.player != player,
        n >= 1,
    ensures
        stats_run(s, player, sts, curs, n).player == player,
        (forall|i: int| 0 <= i < n ==> (#[trigger] sts[i]).toggles.speed_hack) ==> {
            let t = stats_run(s, player, sts, curs, n).move_speed;
            t.valid && t.last_on && t.orig == curs[0].move_speed
        },
        (forall|i: int| 0 <= i < n ==> (#[trigger] sts[i]).toggles.fast_bullets) ==> {
            let t = stats_run(s, player, sts, curs, n).bullet_speed;
            t.valid && t.last_on && t.orig == curs[0].bullet_speed
        },
        (forall|i: int| 0 <= i < n ==> (#[trigger] sts[i]).toggles.rapid_fire) ==> {
            let t = stats_run(s, player, sts, curs, n).fire_rate;
            t.valid && t.last_on && t.orig == curs[0].fire_rate
        },
    decreases n,
{
    if n > 1 {
        lemma_stats_run(s, player, sts, curs, (n - 1) as nat);
        assert forall|i: int| 0 <= i < n - 1 implies (#[trigger] sts[i]) == sts[i] by {}
    } else {
        assert(stats_run(s, player, sts, curs, 0) == s);
    }
}

/// Over any run of frames of one player that starts with nothing saved for
/// it: while a stat cheat stays on, each frame writes the tuned value; the
/// first frame with it off writes back the value the field had on the first
/// frame of the run, whatever the game wrote in between; a frame after that
/// with it still off leaves the field alone. Likewise for each of the three
/// fields.
pub proof fn law_stats_restore_after_run(
    s: StatSnapshot,
    player: usize,
    sts: Seq<TrainerState>,
    curs: Seq<FieldBits>,
    n: nat,
    off: TrainerState,
    c_off: FieldBits,
    off2: TrainerState,
    c_off2: FieldBits,
)
    requires
        s.player != player,
        n >= 1,
    ensures
        ({
            let run = stats_run(s, player, sts, curs, n);
            let (s1, w1) = stats_step(run, player, off, c_off);
            let w2 = stats_step(s1, player, off2, c_off2).1;
            &&& (forall|i: int| 0 <= i < n && (#[trigger] sts[i]).toggles.speed_hack ==>
                stats_step(stats_run(s, player, sts, curs, i as nat), player, sts[i], curs[i]).1.move_speed
                    == FieldWrite::Configured)
            &&& ((forall|i: int| 0 <= i < n ==> (#[trigger] sts[i]).toggles.speed_hack)
                && !off.toggles.speed_hack ==> w1.move_speed == FieldWrite::Restore(curs[0].move_speed)
                && (!off2.toggles.speed_hack ==> w2.move_speed == FieldWrite::Keep))
            &&& ((forall|i: int| 0 <= i < n ==> (#[trigger] sts[i]).toggles.fast_bullets)
                && !off.toggles.fast_bullets ==> w1.bullet_speed == FieldWrite::Restore(curs[0].bullet_speed)
                && (!off2.toggles.fast_bullets ==> w2.bullet_speed == FieldWrite::Keep))
            &&& ((forall|i: int| 0 <= i < n ==> (#[trigger] sts[i]).toggles.rapid_fire)
                && !off.toggles.rapid_fire ==> w1.fire_rate == FieldWrite::Restore(curs[0].fire_rate)
                && (!off2.toggles.rapid_fire ==> w2.fire_rate == FieldWrite::Keep))
        }),
{
    lemma_stats_run(s, player, sts, curs, n);
}

// ───────────────────────── powers ─────────────────────────

/// A call the game thread makes on behalf of the overlay. Calls without a
/// target go to the player controller of this frame.
#[derive(Clone, Copy, Debug, PartialEq, Eq, Structural)]
pub enum PowerAction {
    Revive(Callable),
    AddExp(Callable, i32),
    /// Add to the gold field, saturating.
    AddGold(i32),
    AddItem(Callable, i32),
    SaveGame(Callable),
    ApplyBuff(BuffOption),
    /// Call on the given shield object.
    ShieldOn(Callable, usize),
    ShieldOff(Callable, usize),
}

/// A save after a change, when the save method was found.
pub open spec fn save_after(pw: Powers) -> Seq<PowerAction> {
    match pw.save_game {
        Some(c) => seq![PowerAction::SaveGame(c)],
        None => Seq::empty(),
    }
}

/// `v`, or 0 when negative.
pub open spec fn non_negative(v: i32) -> i32 {
    if v < 0 {
        0
    } else {
        v
    }
}

/// The buffs of `s` among its first `k` whose bit is set in `mask`, in order.
pub open spec fn selected_upto(s: Seq<BuffOption>, mask: usize, k: int) -> Seq<PowerAction>
    decreases k,
{
    if k <= 0 {
        Seq::empty()
    } else {
        selected_upto(s, mask, k - 1) + (if bit_set(mask, k - 1) {
            seq![PowerAction::ApplyBuff(s[k - 1])]
        } else {
            Seq::empty()
        })
    }
}

/// A revive, when requested and found.
pub open spec fn revive_part(st: TrainerState, pw: Powers) -> Seq<PowerAction> {
    if st.requests.revive && pw.revive is Some {
        seq![PowerAction::Revive(pw.revive->0)]
    } else {
        Seq::empty()
    }
}

/// Experience (never negative) then a save, when requested and found.
pub open spec fn exp_part(st: TrainerState, pw: Powers) -> Seq<PowerAction> {
    if st.requests.add_exp && pw.add_exp is Some {
        seq![PowerAction::AddExp(pw.add_exp->0, non_negative(st.tuning.exp_amount))]
            + save_after(pw)
    } else {
        Seq::empty()
    }
}

/// Gold then a save, when requested and the amount is positive.
pub open spec fn gold_part(st: TrainerState, pw: Powers) -> Seq<PowerAction> {
    if st.requests.add_gold && non_negative(st.tuning.gold_amount) > 0 {
        seq![PowerAction::AddGold(non_negative(st.tuning.gold_amount))] + save_after(pw)
    } else {
        Seq::empty()
    }
}

/// The raw item id then a save, when requested and found.
pub open spec fn item_part(st: TrainerState, pw: Powers) -> Seq<PowerAction> {
    if st.requests.add_item && pw.add_item is Some {
        seq![PowerAction::AddItem(pw.add_item->0, st.tuning.item_id)] + save_after(pw)
    } else {
        Seq::empty()
    }
}

/// The chosen preset then a save, when requested and found.
pub open spec fn preset_part(st: TrainerState, pw: Powers) -> Seq<PowerAction> {
    if st.requests.add_item_preset && pw.add_item is Some {
        seq![
            PowerAction::AddItem(
                pw.add_item->0,
                preset_id(preset_position(st.tuning.item_preset_index as int)) as i32,
            ),
        ] + save_after(pw)
    } else {
        Seq::empty()
    }
}

/// Every preset in list order then a save, when requested and found.
pub open spec fn known_part(st: TrainerState, pw: Powers) -> Seq<PowerAction> {
    if st.requests.add_known_items && pw.add_item is Some {
        Seq::new(
            ITEM_PRESET_COUNT as nat,
            |i: int| PowerAction::AddItem(pw.add_item->0, preset_id(i) as i32),
        ) + save_after(pw)
    } else {
        Seq::empty()
    }
}

/// The selected offered buffs then a save, when requested and at least one
/// is selected.
pub open spec fn buffs_part(st: TrainerState, pw: Powers, offered: Seq<BuffOption>) -> Seq<PowerAction> {
    let mask = st.requests.buff_selected_mask;
    let chosen = selected_upto(offered, mask, offered.len() as int);
    if st.requests.apply_selected_buffs && mask != 0 && chosen.len() > 0 {
        chosen + save_after(pw)
    } else {
        Seq::empty()
    }
}

/// Shield on, when requested, found, and a shield object is known.
pub open spec fn shield_on_part(st: TrainerState, pw: Powers) -> Seq<PowerAction> {
    if st.shield_instance != 0 && st.requests.shield_on && pw.shield_on is Some {
        seq![PowerAction::ShieldOn(pw.shield_on->0, st.shield_instance)]
    } else {
        Seq::empty()
    }
}

/// Shield off, when requested, found, and a shield object is known.
pub open spec fn shield_off_part(st: TrainerState, pw: Powers) -> Seq<PowerAction> {
    if st.shield_instance != 0 && st.requests.shield_off && pw.shield_off is Some {
        seq![PowerAction::ShieldOff(pw.shield_off->0, st.shield_instance)]
    } else {
        Seq::empty()
    }
}

/// The calls for the pending requests, in the order the game thread makes
/// them: revive; add experience then save; add gold then save; add the raw
/// item then save; add the chosen preset then save; add every preset then
/// save; apply the selected offered buffs then save; and, once a shield
/// object is known, shield on and shield off. A request whose method was not
/// found gives no call.
pub open spec fn pump_actions(st: TrainerState, pw: Powers, offered: Seq<BuffOption>) -> Seq<PowerAction> {
    revive_part(st, pw) + exp_part(st, pw) + gold_part(st, pw) + item_part(st, pw) + preset_part(
        st,
        pw,
    ) + known_part(st, pw) + buffs_part(st, pw, offered) + shield_on_part(st, pw)
        + shield_off_part(st, pw)
}

/// The state once the game thread has taken the requests: every request is
/// consumed, except the shield ones while no shield object is known.
pub open spec fn pumped(st: TrainerState) -> TrainerState {
    let r = st.requests;
    let keep_shield = st.shield_instance == 0;
    TrainerState {
        requests: Requests {
            revive: false,
            add_exp: false,
            add_gold: false,
            add_item: false,
            add_item_preset: false,
            add_known_items: false,
            apply_selected_buffs: false,
            buff_selected_mask: r.buff_selected_mask,
            shield_on: keep_shield && r.shield_on,
            shield_off: keep_shield && r.shield_off,
        },
        ..st
    }
}

fn push_save(v: &mut Vec<PowerAction>, pw: &Powers)
    ensures
        final(v)@ == old(v)@ + save_after(*pw),
{
    match pw.save_game {
        Some(c) => {
            v.push(PowerAction::SaveGame(c));
        },
        None => {},
    }
    assert(final(v)@ =~= old(v)@ + save_after(*pw));
}

fn selected_buffs(buffs: &Vec<BuffOption>, mask: usize) -> (res: Vec<PowerAction>)
    ensures
        res@ == selected_upto(buffs@, mask, buffs@.len() as int),
{
    let mut v: Vec<PowerAction> = Vec::new();
    let mut idx: usize = 0;
    while idx < buffs.len()
        invariant
            idx <= buffs@.len(),
            v@ == selected_upto(buffs@, mask, idx as int),
        decreases buffs@.len() - idx,
    {
        if idx < usize::BITS as usize && (mask >> idx) & 1usize == 1usize {
            v.push(PowerAction::ApplyBuff(buffs[idx]));
        }
        idx = idx + 1;
        assert(v@ =~= selected_upto(buffs@, mask, idx as int));
    }
    v
}

fn push_revive(v: &mut Vec<PowerAction>, st: &TrainerState, pw: &Powers)
    ensures
        final(v)@ == old(v)@ + revive_part(*st, *pw),
{
    if st.requests.revive {
        match pw.revive {
            Some(c) => v.push(PowerAction::Revive(c)),
            None => {},
        }
    }
    assert(final(v)@ =~= old(v)@ + revive_part(*st, *pw));
}

fn push_exp(v: &mut Vec<PowerAction>, st: &TrainerState, pw: &Powers)
    ensures
        final(v)@ == old(v)@ + exp_part(*st, *pw),
{
    let ghost v0 = v@;
    if st.requests.add_exp {
        match pw.add_exp {
            Some(c) => {
                let amount = if st.tuning.exp_amount < 0 { 0 } else { st.tuning.exp_amount };
                v.push(PowerAction::AddExp(c, amount));
                push_save(v, pw);
            },
            None => {},
        }
    }
    assert(v@ =~= v0 + exp_part(*st, *pw));
}

fn push_gold(v: &mut Vec<PowerAction>, st: &TrainerState, pw: &Powers)
    ensures
        final(v)@ == old(v)@ + gold_part(*st, *pw),
{
    let ghost v0 = v@;
    if st.requests.add_gold {
        let amount = if st.tuning.gold_amount < 0 { 0 } else { st.tuning.gold_amount };
        if amount > 0 {
            v.push(PowerAction::AddGold(amount));
            push_save(v, pw);
        }
    }
    assert(v@ =~= v0 + gold_part(*st, *pw));
}

fn push_item(v: &mut Vec<PowerAction>, st: &TrainerState, pw: &Powers)
    ensures
        final(v)@ == old(v)@ + item_part(*st, *pw),
{
    let ghost v0 = v@;
    if st.requests.add_item {
        match pw.add_item {
            Some(c) => {
                v.push(PowerAction::AddItem(c, st.tuning.item_id));
                push_save(v, pw);
            },
            None => {},
        }
    }
    assert(v@ =~= v0 + item_part(*st, *pw));
}

fn push_preset(v: &mut Vec<PowerAction>, st: &TrainerState, pw: &Powers)
    ensures
        final(v)@ == old(v)@ + preset_part(*st, *pw),
{
    let ghost v0 = v@;
    if st.requests.add_item_preset {
        match pw.add_item {
            Some(c) => {
                let item = item_preset(st.tuning.item_preset_index);
                v.push(PowerAction::AddItem(c, item.id));
                push_save(v, pw);
            },
            None => {},
        }
    }
    assert(v@ =~= v0 + preset_part(*st, *pw));
}

fn push_known(v: &mut Vec<PowerAction>, st: &TrainerState, pw: &Powers)
    ensures
        final(v)@ == old(v)@ + known_part(*st, *pw),
{
    let ghost v0 = v@;
    if st.requests.add_known_items {
        match pw.add_item {
            Some(c) => {
                let presets = item_presets();
                let mut i: usize = 0;
                while i < presets.len()
                    invariant
                        i <= presets@.len(),
                        presets@.len() == ITEM_PRESET_COUNT,
                        forall|j: int|
                            0 <= j < ITEM_PRESET_COUNT ==> #[trigger] presets@[j].id == preset_id(
                                j,
                            ),
                        v@ == v0 + Seq::new(
                            i as nat,
                            |j: int| PowerAction::AddItem(c, preset_id(j) as i32),
                        ),
                    decreases presets@.len() - i,
                {
                    v.push(PowerAction::AddItem(c, presets[i].id));
                    i = i + 1;
                    assert(v@ =~= v0 + Seq::new(
                        i as nat,
                        |j: int| PowerAction::AddItem(c, preset_id(j) as i32),
                    ));
                }
                push_save(v, pw);
            },
            None => {},
        }
    }
    assert(v@ =~= v0 + known_part(*st, *pw));
}

fn push_buffs(v: &mut Vec<PowerAction>, st: &TrainerState, pw: &Powers, store: &BuffStore)
    ensures
        final(v)@ == old(v)@ + buffs_part(*st, *pw, offered_buffs(store@)),
{
    let ghost v0 = v@;
    let mask = st.requests.buff_selected_mask;
    if st.requests.apply_selected_buffs && mask != 0 {
        let buffs = known_buffs_snapshot(store);
        let chosen = selected_buffs(&buffs, mask);
        if chosen.len() != 0 {
            let mut k: usize = 0;
            while k < chosen.len()
                invariant
                    k <= chosen@.len(),
                    v@ == v0 + chosen@.subrange(0, k as int),
                decreases chosen@.len() - k,
            {
                v.push(chosen[k]);
                k = k + 1;
                assert(v@ =~= v0 + chosen@.subrange(0, k as int));
            }
            assert(chosen@.subrange(0, chosen@.len() as int) =~= chosen@);
            push_save(v, pw);
        }
    }
    assert(v@ =~= v0 + buffs_part(*st, *pw, offered_buffs(store@)));
}

fn push_shield(v: &mut Vec<PowerAction>, st: &TrainerState, pw: &Powers)
    ensures
        final(v)@ == old(v)@ + shield_on_part(*st, *pw) + shield_off_part(*st, *pw),
{
    let ghost v0 = v@;
    let shield = st.shield_instance;
    if shield != 0 {
        if st.requests.shield_on {
            match pw.shield_on {
                Some(c) => v.push(PowerAction::ShieldOn(c, shield)),
                None => {},
            }
        }
        if st.requests.shield_off {
            match pw.shield_off {
                Some(c) => v.push(PowerAction::ShieldOff(c, shield)),
                None => {},
            }
        }
    }
    assert(v@ =~= v0 + shield_on_part(*st, *pw) + shield_off_part(*st, *pw));
}

/// The game thread's turn at the requests: consumes them and returns the calls
/// to make, in order.
pub fn pump_powers(st: &mut TrainerState, powers: &Powers, store: &BuffStore) -> (res: Vec<PowerAction>)
    ensures
        res@ == pump_actions(*old(st), *powers, offered_buffs(store@)),
        *final(st) == pumped(*old(st)),
{
    let mut v: Vec<PowerAction> = Vec::new();
    push_revive(&mut v, st, powers);
    push_exp(&mut v, st, powers);
    push_gold(&mut v, st, powers);
    push_item(&mut v, st, powers);
    push_preset(&mut v, st, powers);
    push_known(&mut v, st, powers);
    push_buffs(&mut v, st, powers, store);
    push_shield(&mut v, st, powers);
    let keep_shield = st.shield_instance == 0;
    st.requests = Requests {
        revive: false,
        add_exp: false,
        add_gold: false,
        add_item: false,
        add_item_preset: false,
        add_known_items: false,
        apply_selected_buffs: false,
        buff_selected_mask: st.requests.buff_selected_mask,
        shield_on: keep_shield && st.requests.shield_on,
        shield_off: keep_shield && st.requests.shield_off,
    };
    proof {
        assert(v@ =~= pump_actions(*old(st), *powers, offered_buffs(store@)));
    }
    v
}

/// Once the requests have been taken, taking them again makes no call: each
/// request is carried out at most once.
pub proof fn law_pump_drains(st: TrainerState, pw: Powers, offered: Seq<BuffOption>)
    ensures
        pump_actions(pumped(st), pw, offered) =~= Seq::<PowerAction>::empty(),
{
    let chosen = selected_upto(offered, st.requests.buff_selected_mask, offered.len() as int);
    assert(Seq::<PowerAction>::empty() + Seq::<PowerAction>::empty() =~= Seq::<PowerAction>::empty());
}

/// A call that changes the player's inventory, experience, gold or stats.
pub open spec fn is_change(a: PowerAction) -> bool {
    a is AddExp || a is AddGold || a is AddItem || a is ApplyBuff
}

/// Every change in `acts` is followed, later in `acts`, by a save with `save`.
pub open spec fn saved_after(acts: Seq<PowerAction>, save: Callable) -> bool {
    forall|i: int|
        0 <= i < acts.len() && is_change(#[trigger] acts[i]) ==> exists|j: int|
            i < j < acts.len() && acts[j] == PowerAction::SaveGame(save)
}

proof fn lemma_ends_saved(p: Seq<PowerAction>, save: Callable)
    requires
        p.len() == 0 || p.last() == PowerAction::SaveGame(save),
    ensures
        saved_after(p, save),
{
    assert forall|i: int| 0 <= i < p.len() && is_change(#[trigger] p[i]) implies exists|j: int|
        i < j < p.len() && p[j] == PowerAction::SaveGame(save) by {
        assert(i < p.len() - 1);
        assert(p[p.len() - 1] == PowerAction::SaveGame(save));
    }
}

proof fn lemma_no_change(p: Seq<PowerAction>, save: Callable)
    requires
        forall|i: int| 0 <= i < p.len() ==> !is_change(#[trigger] p[i]),
    ensures
        saved_after(p, save),
{
}

proof fn lemma_saved_concat(a: Seq<PowerAction>, b: Seq<PowerAction>, save: Callable)
    requires
        saved_after(a, save),
        saved_after(b, save),
    ensures
        saved_after(a + b, save),
{
    let ab = a + b;
    assert forall|i: int| 0 <= i < ab.len() && is_change(#[trigger] ab[i]) implies exists|j: int|
        i < j < ab.len() && ab[j] == PowerAction::SaveGame(save) by {
        if i < a.len() {
            assert(ab[i] == a[i]);
            let j = choose|j: int| i < j < a.len() && a[j] == PowerAction::SaveGame(save);
            assert(ab[j] == a[j]);
        } else {
            let k = i - a.len();
            assert(ab[i] == b[k]);
            let j = choose|j: int| k < j < b.len() && b[j] == PowerAction::SaveGame(save);
            assert(ab[j + a.len()] == b[j]);
        }
    }
}

/// With the save method resolved, every change the game thread makes for the
/// requests (experience, gold, items, buffs) is followed by a save in the
/// same turn.
pub proof fn law_changes_are_saved(st: TrainerState, pw: Powers, offered: Seq<BuffOption>)
    requires
        pw.save_game is Some,
    ensures
        saved_after(pump_actions(st, pw, offered), pw.save_game->0),
{
    let s = pw.save_game->0;
    let sv = seq![PowerAction::SaveGame(s)];
    assert(save_after(pw) == sv);
    lemma_no_change(revive_part(st, pw), s);
    lemma_ends_saved(exp_part(st, pw), s);
    lemma_ends_saved(gold_part(st, pw), s);
    lemma_ends_saved(item_part(st, pw), s);
    lemma_ends_saved(preset_part(st, pw), s);
    lemma_ends_saved(known_part(st, pw), s);
    lemma_ends_saved(buffs_part(st, pw, offered), s);
    lemma_no_change(shield_on_part(st, pw), s);
    lemma_no_change(shield_off_part(st, pw), s);
    let p1 = revive_part(st, pw) + exp_part(st, pw);
    lemma_saved_concat(revive_part(st, pw), exp_part(st, pw), s);
    let p2 = p1 + gold_part(st, pw);
    lemma_saved_concat(p1, gold_part(st, pw), s);
    let p3 = p2 + item_part(st, pw);
    lemma_saved_concat(p2, item_part(st, pw), s);
    let p4 = p3 + preset_part(st, pw);
    lemma_saved_concat(p3, preset_part(st, pw), s);
    let p5 = p4 + known_part(st, pw);
    lemma_saved_concat(p4, known_part(st, pw), s);
    let p6 = p5 + buffs_part(st, pw, offered);
    lemma_saved_concat(p5, buffs_part(st, pw, offered), s);
    let p7 = p6 + shield_on_part(st, pw);
    lemma_saved_concat(p6, shield_on_part(st, pw), s);
    lemma_saved_concat(p7, shield_off_part(st, pw), s);
}

/// When adding every known item is the only request, the game thread adds the
/// items with ids 1 to 9, in order, then saves once.
pub proof fn law_known_items_then_save(st: TrainerState, pw: Powers, offered: Seq<BuffOption>)
    requires
        st.requests == (Requests { add_known_items: true, ..no_requests(st.requests.buff_selected_mask) }),
        pw.add_item is Some,
        pw.save_game is Some,
    ensures
        pump_actions(st, pw, offered) == Seq::new(9, |i: int| PowerAction::AddItem(pw.add_item->0, (i + 1) as i32)).push(
            PowerAction::SaveGame(pw.save_game->0),
        ),
{
    assert(pump_actions(st, pw, offered) =~= known_part(st, pw));
    assert(known_part(st, pw) =~= Seq::new(9, |i: int| PowerAction::AddItem(pw.add_item->0, (i + 1) as i32)).push(
        PowerAction::SaveGame(pw.save_game->0),
    ));
}

/// When one experience, gold or item request is the only one, the game
/// thread makes that change and then saves.
pub proof fn law_single_change_then_save(st: TrainerState, pw: Powers, offered: Seq<BuffOption>)
    requires
        pw.save_game is Some,
    ensures
        st.requests == (Requests { add_exp: true, ..no_requests(st.requests.buff_selected_mask) })
            && pw.add_exp is Some ==> pump_actions(st, pw, offered) == seq![
            PowerAction::AddExp(pw.add_exp->0, if st.tuning.exp_amount < 0 { 0 } else { st.tuning.exp_amount }),
            PowerAction::SaveGame(pw.save_game->0),
        ],
        st.requests == (Requests { add_gold: true, ..no_requests(st.requests.buff_selected_mask) })
            && st.tuning.gold_amount > 0 ==> pump_actions(st, pw, offered) == seq![
            PowerAction::AddGold(st.tuning.gold_amount),
            PowerAction::SaveGame(pw.save_game->0),
        ],
        st.requests == (Requests { add_item: true, ..no_requests(st.requests.buff_selected_mask) })
            && pw.add_item is Some ==> pump_actions(st, pw, offered) == seq![
            PowerAction::AddItem(pw.add_item->0, st.tuning.item_id),
            PowerAction::SaveGame(pw.save_game->0),
        ],
        st.requests == (Requests { add_item_preset: true, ..no_requests(st.requests.buff_selected_mask) })
            && pw.add_item is Some && 0 <= st.tuning.item_preset_index < ITEM_PRESET_COUNT
            ==> pump_actions(st, pw, offered) == seq![
            PowerAction::AddItem(pw.add_item->0, (st.tuning.item_preset_index + 1) as i32),
            PowerAction::SaveGame(pw.save_game->0),
        ],
{
    if st.requests == (Requests { add_item_preset: true, ..no_requests(st.requests.buff_selected_mask) })
        && pw.add_item is Some && 0 <= st.tuning.item_preset_index < ITEM_PRESET_COUNT {
        assert(pump_actions(st, pw, offered) =~= preset_part(st, pw));
    }
    if st.requests == (Requests { add_exp: true, ..no_requests(st.requests.buff_selected_mask) })
        && pw.add_exp is Some {
        assert(pump_actions(st, pw, offered) =~= exp_part(st, pw));
    }
    if st.requests == (Requests { add_gold: true, ..no_requests(st.requests.buff_selected_mask) })
        && st.tuning.gold_amount > 0 {
        assert(pump_actions(st, pw, offered) =~= gold_part(st, pw));
    }
    if st.requests == (Requests { add_item: true, ..no_requests(st.requests.buff_selected_mask) })
        && pw.add_item is Some {
        assert(pump_actions(st, pw, offered) =~= item_part(st, pw));
    }
}

// ───────────────────────── buffs applied to the player ─────────────────────────

/// The integer fields of the player controller that buffs and powers change.
#[derive(Clone, Copy, Debug, PartialEq, Eq, Structural)]
pub struct PlayerFields {
    pub gold: i32,
    pub cur_hp: i32,
    pub max_hp: i32,
    pub hp_flat_bonus: i32,
    pub hp_percent_bonus: i32,
    pub atk_flat_bonus: i32,
    pub atk_percent_bonus: i32,
    pub heal_flag: i32,
    pub shield_unlocked: i32,
    pub extra_bullets: i32,
    pub shield_hp: i32,
}

/// What is left to do after a buff has changed the integer fields.
#[derive(Clone, Copy, Debug, PartialEq, Eq, Structural)]
pub enum BuffFollowUp {
    Nothing,
    /// Ask the game for the maximum HP again and store it.
    RefreshMaxHp,
    /// Add to the move speed field.
    AddMoveSpeed(i32),
    /// Lower the fire cooldown by this much (at least 0.01 remains) and
    /// reset the shot timers.
    ReduceCooldown(i32),
    /// Add to the bullet speed field.
    AddBulletSpeed(i32),
    /// Mark the given shield object active.
    ActivateShield(usize),
}

/// `a + b` held within the 32-bit range.
pub open spec fn sat_add(a: i32, b: i32) -> i32 {
    if a + b > i32::MAX {
        i32::MAX
    } else if a + b < i32::MIN {
        i32::MIN
    } else {
        (a + b) as i32
    }
}

/// Saturating 32-bit addition.
pub fn saturating_add_i32(a: i32, b: i32) -> (res: i32)
    ensures
        res == sat_add(a, b),
{
    let s = a as i64 + b as i64;
    if s > i32::MAX as i64 {
        i32::MAX
    } else if s < i32::MIN as i64 {
        i32::MIN
    } else {
        s as i32
    }
}

/// The gold field after the add-gold power: saturating.
pub fn credit_gold(gold: i32, amount: i32) -> (res: i32)
    ensures
        res == sat_add(gold, amount),
{
    saturating_add_i32(gold, amount)
}

/// The integer fields after buff `b`: HP and attack buffs add to the flat or
/// percent bonus, full heal sets the HP to the maximum and raises the heal
/// flag, the shield buff unlocks the shield with at least 1 HP, extra bullets
/// add to their count. Other kinds leave the integer fields alone.
pub open spec fn buff_fields(f: PlayerFields, b: BuffOption) -> PlayerFields {
    if b.stat_type == 0 && b.is_percent {
        PlayerFields { hp_percent_bonus: sat_add(f.hp_percent_bonus, b.value), ..f }
    } else if b.stat_type == 0 {
        PlayerFields { hp_flat_bonus: sat_add(f.hp_flat_bonus, b.value), ..f }
    } else if b.stat_type == 1 && b.is_percent {
        PlayerFields { atk_percent_bonus: sat_add(f.atk_percent_bonus, b.value), ..f }
    } else if b.stat_type == 1 {
        PlayerFields { atk_flat_bonus: sat_add(f.atk_flat_bonus, b.value), ..f }
    } else if b.stat_type == 5 {
        PlayerFields { cur_hp: f.max_hp, heal_flag: 1, ..f }
    } else if b.stat_type == 6 {
        PlayerFields {
            shield_unlocked: 1,
            shield_hp: if f.shield_hp < 1 { 1 } else { f.shield_hp },
            ..f
        }
    } else if b.stat_type == 7 {
        PlayerFields { extra_bullets: sat_add(f.extra_bullets, b.value), ..f }
    } else {
        f
    }
}

/// What remains to do after buff `b`: refresh the maximum HP after an HP
/// buff, change a float speed field, or activate the known shield object.
pub open spec fn buff_follow_up(b: BuffOption, shield_instance: usize) -> BuffFollowUp {
    if b.stat_type == 0 {
        BuffFollowUp::RefreshMaxHp
    } else if b.stat_type == 2 {
        BuffFollowUp::AddMoveSpeed(b.value)
    } else if b.stat_type == 3 {
        BuffFollowUp::ReduceCooldown(if b.value < 1 { 1 } else { b.value })
    } else if b.stat_type == 4 {
        BuffFollowUp::AddBulletSpeed(b.value)
    } else if b.stat_type == 6 && shield_instance != 0 {
        BuffFollowUp::ActivateShield(shield_instance)
    } else {
        BuffFollowUp::Nothing
    }
}

/// Applies a selected buff to the player's integer fields and says what else
/// to change.
pub fn apply_captured_buff(f: &mut PlayerFields, buff: &BuffOption, shield_instance: usize) -> (res: BuffFollowUp)
    ensures
        *final(f) == buff_fields(*old(f), *buff),
        res == buff_follow_up(*buff, shield_instance),
{
    let b = *buff;
    if b.stat_type == 0 {
        if b.is_percent {
            f.hp_percent_bonus = saturating_add_i32(f.hp_percent_bonus, b.value);
        } else {
            f.hp_flat_bonus = saturating_add_i32(f.hp_flat_bonus, b.value);
        }
        BuffFollowUp::RefreshMaxHp
    } else if b.stat_type == 1 {
        if b.is_percent {
            f.atk_percent_bonus = saturating_add_i32(f.atk_percent_bonus, b.value);
        } else {
            f.atk_flat_bonus = saturating_add_i32(f.atk_flat_bonus, b.value);
        }
        BuffFollowUp::Nothing
    } else if b.stat_type == 2 {
        BuffFollowUp::AddMoveSpeed(b.value)
    } else if b.stat_type == 3 {
        BuffFollowUp::ReduceCooldown(if b.value < 1 { 1 } else { b.value })
    } else if b.stat_type == 4 {
        BuffFollowUp::AddBulletSpeed(b.value)
    } else if b.stat_type == 5 {
        f.cur_hp = f.max_hp;
        f.heal_flag = 1;
        BuffFollowUp::Nothing
    } else if b.stat_type == 6 {
        f.shield_unlocked = 1;
        if f.shield_hp < 1 {
            f.shield_hp = 1;
        }
        if shield_instance != 0 {
            BuffFollowUp::ActivateShield(shield_instance)
        } else {
            BuffFollowUp::Nothing
        }
    } else if b.stat_type == 7 {
        f.extra_bullets = saturating_add_i32(f.extra_bullets, b.value);
        BuffFollowUp::Nothing
    } else {
        BuffFollowUp::Nothing
    }
}

/// `v` held within the 32-bit range.
pub open spec fn in_i32(v: int) -> int {
    if v > i32::MAX {
        i32::MAX as int
    } else if v < i32::MIN {
        i32::MIN as int
    } else {
        v
    }
}

/// An HP, ATK or extra-bullets buff adds its value to the matching counter,
/// whatever that counter was (held within the 32-bit range), and leaves every
/// other integer field alone; so two buffs of one kind add both values. Full
/// heal fills the HP to the maximum, and the shield buff unlocks the shield
/// with at least 1 HP.
pub proof fn law_buff_adds_to_its_bonus(f: PlayerFields, b: BuffOption)
    ensures
        b.stat_type == 0 && !b.is_percent ==> buff_fields(f, b) == (PlayerFields {
            hp_flat_bonus: in_i32(f.hp_flat_bonus + b.value) as i32,
            ..f
        }),
        b.stat_type == 0 && b.is_percent ==> buff_fields(f, b) == (PlayerFields {
            hp_percent_bonus: in_i32(f.hp_percent_bonus + b.value) as i32,
            ..f
        }),
        b.stat_type == 1 && !b.is_percent ==> buff_fields(f, b) == (PlayerFields {
            atk_flat_bonus: in_i32(f.atk_flat_bonus + b.value) as i32,
            ..f
        }),
        b.stat_type == 1 && b.is_percent ==> buff_fields(f, b) == (PlayerFields {
            atk_percent_bonus: in_i32(f.atk_percent_bonus + b.value) as i32,
            ..f
        }),
        b.stat_type == 7 ==> buff_fields(f, b) == (PlayerFields {
            extra_bullets: in_i32(f.extra_bullets + b.value) as i32,
            ..f
        }),
        b.stat_type == 5 ==> buff_fields(f, b).cur_hp == f.max_hp && buff_fields(f, b).heal_flag == 1,
        b.stat_type == 6 ==> buff_fields(f, b).shield_unlocked == 1 && buff_fields(f, b).shield_hp
            >= 1 && (f.shield_hp >= 1 ==> buff_fields(f, b).shield_hp == f.shield_hp),
        (b.stat_type < 0 || b.stat_type > 7 || b.stat_type == 2 || b.stat_type == 3 || b.stat_type == 4)
            ==> buff_fields(f, b) == f,
{
}

/// Two HP or ATK buffs of one kind raise the matching bonus by the sum of
/// their values, when that sum stays within the 32-bit range.
pub proof fn law_two_buffs_add_up(f: PlayerFields, b1: BuffOption, b2: BuffOption)
    requires
        b1.stat_type == 0 || b1.stat_type == 1,
        b2.stat_type == b1.stat_type,
        b2.is_percent == b1.is_percent,
        b1.stat_type == 0 && !b1.is_percent ==> i32::MIN <= f.hp_flat_bonus + b1.value <= i32::MAX
            && i32::MIN <= f.hp_flat_bonus + b1.value + b2.value <= i32::MAX,
        b1.stat_type == 0 && b1.is_percent ==> i32::MIN <= f.hp_percent_bonus + b1.value <= i32::MAX
            && i32::MIN <= f.hp_percent_bonus + b1.value + b2.value <= i32::MAX,
        b1.stat_type == 1 && !b1.is_percent ==> i32::MIN <= f.atk_flat_bonus + b1.value <= i32::MAX
            && i32::MIN <= f.atk_flat_bonus + b1.value + b2.value <= i32::MAX,
        b1.stat_type == 1 && b1.is_percent ==> i32::MIN <= f.atk_percent_bonus + b1.value <= i32::MAX
            && i32::MIN <= f.atk_percent_bonus + b1.value + b2.value <= i32::MAX,
    ensures
        ({
            let g = buff_fields(buff_fields(f, b1), b2);
            &&& b1.stat_type == 0 && !b1.is_percent ==> g.hp_flat_bonus == f.hp_flat_bonus + b1.value + b2.value
            &&& b1.stat_type == 0 && b1.is_percent ==> g.hp_percent_bonus == f.hp_percent_bonus + b1.value + b2.value
            &&& b1.stat_type == 1 && !b1.is_percent ==> g.atk_flat_bonus == f.atk_flat_bonus + b1.value + b2.value
            &&& b1.stat_type == 1 && b1.is_percent ==> g.atk_percent_bonus == f.atk_percent_bonus + b1.value + b2.value
        }),
{
    law_buff_adds_to_its_bonus(f, b1);
    law_buff_adds_to_its_bonus(buff_fields(f, b1), b2);
}

// ───────────────────────── per-call hook decisions ─────────────────────────

/// What the max-HP getter returns: the locked value while the HP lock is on,
/// the game's own value otherwise.
pub fn max_hp_result(st: &TrainerState, orig: i32) -> (res: i32)
    ensures
        res == (if st.toggles.maxhp_override { st.tuning.maxhp_value } else { orig }),
{
    if st.toggles.maxhp_override {
        st.tuning.maxhp_value
    } else {
        orig
    }
}

/// The player took damage: remembers the player object and says whether the
/// damage goes through (not in god mode).
pub fn on_take_damage(st: &mut TrainerState, this: usize) -> (pass: bool)
    ensures
        *final(st) == (TrainerState { player_instance: this, ..*old(st) }),
        pass == !old(st).toggles.god_mode,
{
    st.player_instance = this;
    !st.toggles.god_mode
}

/// Damage dealt to an enemy: a killing blow with one-hit kill on.
pub fn enemy_damage(st: &TrainerState, amount: i32) -> (res: i32)
    ensures
        res == (if st.toggles.one_hit_kill { 999_999 } else { amount }),
{
    if st.toggles.one_hit_kill {
        999_999
    } else {
        amount
    }
}

/// The trainer state seen by the player's frame: the player object is `this`.
pub open spec fn frame_state(st: TrainerState, this: usize) -> TrainerState {
    TrainerState { player_instance: this, ..st }
}

/// What the shield lock writes each frame.
#[derive(Clone, Copy, Debug, PartialEq, Eq, Structural)]
pub struct ShieldLockWrite {
    /// The player's shield HP.
    pub shield_hp: i32,
    /// The shield object to mark active, when one is known.
    pub activate: Option<usize>,
}

/// The shield lock's writes: none when off; otherwise the locked shield HP
/// (at least 1), and the known shield object is kept active.
pub open spec fn shield_lock_of(st: TrainerState) -> Option<ShieldLockWrite> {
    if st.toggles.shield_lock {
        Some(
            ShieldLockWrite {
                shield_hp: if st.tuning.shield_value < 1 { 1 } else { st.tuning.shield_value },
                activate: if st.shield_instance != 0 {
                    Some(st.shield_instance)
                } else {
                    None
                },
            },
        )
    } else {
        None
    }
}

/// The HP lock's write: the locked value while the HP lock is on.
pub open spec fn hp_lock_of(st: TrainerState) -> Option<i32> {
    if st.toggles.maxhp_override {
        Some(st.tuning.maxhp_value)
    } else {
        None
    }
}

/// The shield lock's writes.
pub fn shield_lock_write(st: &TrainerState) -> (res: Option<ShieldLockWrite>)
    ensures
        res == shield_lock_of(*st),
{
    if st.toggles.shield_lock {
        let hp = if st.tuning.shield_value < 1 { 1 } else { st.tuning.shield_value };
        let activate = if st.shield_instance != 0 { Some(st.shield_instance) } else { None };
        Some(ShieldLockWrite { shield_hp: hp, activate })
    } else {
        None
    }
}

/// The HP written after the game's own frame: the locked value while the HP
/// lock is on.
pub fn hp_lock_write(st: &TrainerState) -> (res: Option<i32>)
    ensures
        res == hp_lock_of(*st),
{
    if st.toggles.maxhp_override {
        Some(st.tuning.maxhp_value)
    } else {
        None
    }
}

/// What the player's frame does before the game's own frame runs, in this
/// order: the stat writes, the shield lock, then the calls of the requested
/// powers.
#[derive(Debug)]
pub struct FramePlan {
    pub stats: StatWrites,
    pub shield_before: Option<ShieldLockWrite>,
    pub actions: Vec<PowerAction>,
}

/// The player's frame starts, on the game thread, for the player object
/// `this` whose stat fields read `cur`: remembers the player object, decides
/// the stat writes (updating what is remembered of the fields) and the shield
/// lock, and, once the power methods are resolved, takes the pending requests
/// and returns the calls to make. While the power methods are not resolved,
/// no request is taken.
pub fn on_player_update(
    st: &mut TrainerState,
    snap: &mut StatSnapshot,
    powers: Option<&Powers>,
    store: &BuffStore,
    this: usize,
    cur: FieldBits,
) -> (plan: FramePlan)
    ensures
        final(st).player_instance == this,
        (*final(snap), plan.stats) == stats_step(*old(snap), this, frame_state(*old(st), this), cur),
        plan.shield_before == shield_lock_of(frame_state(*old(st), this)),
        match powers {
            Some(pw) => {
                &&& plan.actions@ == pump_actions(frame_state(*old(st), this), *pw, offered_buffs(store@))
                &&& *final(st) == pumped(frame_state(*old(st), this))
            },
            None => {
                &&& plan.actions@.len() == 0
                &&& *final(st) == frame_state(*old(st), this)
            },
        },
{
    st.player_instance = this;
    let stats = apply_stats(snap, this, st, cur);
    let shield_before = shield_lock_write(st);
    let actions = match powers {
        Some(pw) => pump_powers(st, pw, store),
        None => Vec::new(),
    };
    FramePlan { stats, shield_before, actions }
}

/// With the power methods resolved, a request is carried out by one player
/// frame only: the next frame, for any player object, makes no call.
pub proof fn law_frame_takes_requests_once(
    st: TrainerState,
    pw: Powers,
    offered: Seq<BuffOption>,
    this: usize,
    next: usize,
)
    ensures
        pump_actions(frame_state(pumped(frame_state(st, this)), next), pw, offered).len() == 0,
{
    let s1 = frame_state(st, this);
    assert(frame_state(pumped(s1), next) == pumped(frame_state(s1, next)));
    law_pump_drains(frame_state(s1, next), pw, offered);
}

/// What the player's frame writes after the game's own frame: the HP lock and
/// the shield lock, overwriting whatever the game changed.
#[derive(Clone, Copy, Debug, PartialEq, Eq, Structural)]
pub struct AfterUpdate {
    pub cur_hp: Option<i32>,
    pub shield: Option<ShieldLockWrite>,
}

/// The writes after the game's own player frame, from the trainer state as it
/// stands then.
pub fn after_player_update(st: &TrainerState) -> (res: AfterUpdate)
    ensures
        res.cur_hp == hp_lock_of(*st),
        res.shield == shield_lock_of(*st),
{
    AfterUpdate { cur_hp: hp_lock_write(st), shield: shield_lock_write(st) }
}

/// The shield object started: remembers it.
pub fn on_shield_start(st: &mut TrainerState, this: usize)
    ensures
        *final(st) == (TrainerState { shield_instance: this, ..*old(st) }),
{
    st.shield_instance = this;
}

/// The shield object's frame: remembers it and says whether to force it
/// active (while the shield lock is on).
pub fn on_shield_update(st: &mut TrainerState, this: usize) -> (force_active: bool)
    ensures
        *final(st) == (TrainerState { shield_instance: this, ..*old(st) }),
        force_active == old(st).toggles.shield_lock,
{
    st.shield_instance = this;
    st.toggles.shield_lock
}

/// The captured list after the game set up the buff in `slot`: the first slot
/// starts a new offer, so the earlier captures are forgotten first.
pub open spec fn buff_setup_recorded(
    s: Seq<BuffOption>,
    slot: i32,
    cost: i32,
    stat_type: i32,
    value: i32,
    is_percent: i32,
) -> Seq<BuffOption> {
    let b = BuffOption { slot, cost, stat_type, value, is_percent: is_percent != 0 };
    upserted(if slot <= 0 { Seq::empty() } else { s }, b)
}

/// The game set up an offered buff: records it.
pub fn record_buff_setup(store: &mut BuffStore, slot: i32, cost: i32, stat_type: i32, value: i32, is_percent: i32)
    ensures
        final(store)@ == buff_setup_recorded(old(store)@, slot, cost, stat_type, value, is_percent),
{
    if slot <= 0 {
        clear_captured_buffs(store);
    }
    upsert_captured_buff(
        store,
        BuffOption { slot, cost, stat_type, value, is_percent: is_percent != 0 },
    );
}

/// A revive chosen in the menu is carried out on the next frame of the game
/// thread, and only once.
pub proof fn law_menu_revive_runs_once(ui: Ui, st: TrainerState, pw: Powers, offered: Seq<BuffOption>)
    requires
        pw.revive is Some,
    ensures
        ({
            let s1 = entered(ui, st, 12).1;
            &&& pump_actions(s1, pw, offered).len() >= 1
            &&& pump_actions(s1, pw, offered)[0] == PowerAction::Revive(pw.revive->0)
            &&& pump_actions(pumped(s1), pw, offered).len() == 0
        }),
{
    reveal(entered);
    let s1 = entered(ui, st, 12).1;
    law_pump_drains(s1, pw, offered);
}

/// Switching the speed hack on from the menu makes the next frame write the
/// tuned move speed; switching it off after that writes back the player's own
/// speed.
pub proof fn law_menu_speed_hack_round_trip(
    st: TrainerState,
    s: StatSnapshot,
    player: usize,
    c1: FieldBits,
    c2: FieldBits,
)
    requires
        s.player != player,
    ensures
        ({
            let on = acted(st, 1, 1);
            let (s1, w1) = stats_step(s, player, on, c1);
            let off = acted(on, 1, -1i32);
            let (s2, w2) = stats_step(s1, player, off, c2);
            w1.move_speed == FieldWrite::Configured && w2.move_speed == FieldWrite::Restore(
                c1.move_speed,
            )
        }),
{
    reveal(acted);
}

} // verus!
