//! State shared between the overlay and the game hooks: the toggles and tuned
//! values, the one-shot power requests, the item presets and the buff catalog
//! with the buffs captured from the game.
//!
//! Tuned movement values are held in fixed point: move speed and bullet speed
//! in tenths, the fire cooldown in hundredths of a second.

use vstd::prelude::*;

verus! {

// ───────────────────────────── item presets ─────────────────────────────

/// An item id that the game knows, with the name found for it.
#[derive(Clone, Copy, Debug)]
pub struct ItemPreset {
    pub id: i32,
    pub name: &'static str,
}

/// Number of item presets.
pub const ITEM_PRESET_COUNT: usize = 9;

/// The name of the preset at position `i` (positions 0 to 8).
pub open spec fn preset_name(i: int) -> Seq<char> {
    if i == 0 {
        "GateKey"@
    } else if i == 1 {
        "GateKey1"@
    } else if i == 2 {
        "GateKey2"@
    } else if i == 3 {
        "GateKey3"@
    } else if i == 4 {
        "RedBulletGift"@
    } else if i == 5 {
        "GreenBulletGift"@
    } else if i == 6 {
        "YellowBulletGift"@
    } else if i == 7 {
        "Key1"@
    } else {
        "Key3"@
    }
}

/// The preset position chosen by a requested index: negative indices pick the
/// first preset, larger ones wrap around the list.
pub open spec fn preset_position(index: int) -> int {
    (if index < 0 { 0 } else { index }) % (ITEM_PRESET_COUNT as int)
}

/// The item id of the preset at position `i`: ids run from 1 in list order.
pub open spec fn preset_id(i: int) -> int {
    i + 1
}

/// The preset at position `i`, as a pair of its id and its name.
pub fn preset_at(i: usize) -> (res: ItemPreset)
    requires
        i < ITEM_PRESET_COUNT,
    ensures
        res.id == preset_id(i as int),
        res.name@ == preset_name(i as int),
{
    if i == 0 {
        ItemPreset { id: 1, name: "GateKey" }
    } else if i == 1 {
        ItemPreset { id: 2, name: "GateKey1" }
    } else if i == 2 {
        ItemPreset { id: 3, name: "GateKey2" }
    } else if i == 3 {
        ItemPreset { id: 4, name: "GateKey3" }
    } else if i == 4 {
        ItemPreset { id: 5, name: "RedBulletGift" }
    } else if i == 5 {
        ItemPreset { id: 6, name: "GreenBulletGift" }
    } else if i == 6 {
        ItemPreset { id: 7, name: "YellowBulletGift" }
    } else if i == 7 {
        ItemPreset { id: 8, name: "Key1" }
    } else {
        ItemPreset { id: 9, name: "Key3" }
    }
}

/// The preset chosen by `index`: negative indices give the first preset,
/// indices past the end wrap around.
pub fn item_preset(index: i32) -> (res: ItemPreset)
    ensures
        res.id == preset_id(preset_position(index as int)),
        res.name@ == preset_name(preset_position(index as int)),
{
    let base: usize = if index < 0 { 0 } else { index as usize };
    preset_at(base % ITEM_PRESET_COUNT)
}

/// Number of presets, as the menu counts them.
pub fn item_preset_count() -> (res: i32)
    ensures
        res == ITEM_PRESET_COUNT as i32,
{
    ITEM_PRESET_COUNT as i32
}

/// All presets in list order.
pub fn item_presets() -> (res: Vec<ItemPreset>)
    ensures
        res@.len() == ITEM_PRESET_COUNT,
        forall|i: int|
            0 <= i < ITEM_PRESET_COUNT ==> #[trigger] res@[i].id == preset_id(i) && res@[i].name@
                == preset_name(i),
{
    let mut v: Vec<ItemPreset> = Vec::new();
    let mut i: usize = 0;
    while i < ITEM_PRESET_COUNT
        invariant
            i <= ITEM_PRESET_COUNT,
            v@.len() == i,
            forall|j: int|
                0 <= j < i ==> #[trigger] v@[j].id == preset_id(j) && v@[j].name@ == preset_name(j),
        decreases ITEM_PRESET_COUNT - i,
    {
        v.push(preset_at(i));
        i = i + 1;
    }
    v
}

// ───────────────────────────── buffs ─────────────────────────────

/// A buff as the game's buff picker offers it.
#[derive(Clone, Copy, Debug, PartialEq, Eq, Structural)]
pub struct BuffOption {
    pub slot: i32,
    pub cost: i32,
    pub stat_type: i32,
    pub value: i32,
    pub is_percent: bool,
}

/// The all-zero buff that fills slots nobody has reported yet.
pub open spec fn empty_buff() -> BuffOption {
    BuffOption { slot: 0, cost: 0, stat_type: 0, value: 0, is_percent: false }
}

impl Default for BuffOption {
    fn default() -> (res: Self)
        ensures
            res == empty_buff(),
    {
        BuffOption { slot: 0, cost: 0, stat_type: 0, value: 0, is_percent: false }
    }
}

/// Whether a buff is of the given kind: same stat and same flat/percent form.
pub open spec fn same_kind(b: BuffOption, stat_type: i32, is_percent: bool) -> bool {
    b.stat_type == stat_type && b.is_percent == is_percent
}

/// The built-in buff catalog, one entry per known kind.
pub open spec fn known_catalog() -> Seq<BuffOption> {
    seq![
        BuffOption { slot: 0, cost: 0, stat_type: 0, value: 25, is_percent: false },
        BuffOption { slot: 1, cost: 0, stat_type: 0, value: 10, is_percent: true },
        BuffOption { slot: 2, cost: 0, stat_type: 1, value: 5, is_percent: false },
        BuffOption { slot: 3, cost: 0, stat_type: 1, value: 10, is_percent: true },
        BuffOption { slot: 4, cost: 0, stat_type: 2, value: 2, is_percent: false },
        BuffOption { slot: 5, cost: 0, stat_type: 3, value: 1, is_percent: false },
        BuffOption { slot: 6, cost: 0, stat_type: 4, value: 5, is_percent: false },
        BuffOption { slot: 7, cost: 0, stat_type: 5, value: 1, is_percent: false },
        BuffOption { slot: 8, cost: 0, stat_type: 6, value: 1, is_percent: false },
        BuffOption { slot: 9, cost: 0, stat_type: 7, value: 1, is_percent: false },
    ]
}

/// The built-in buff catalog.
pub fn known_buffs() -> (res: Vec<BuffOption>)
    ensures
        res@ == known_catalog(),
{
    let mut v: Vec<BuffOption> = Vec::new();
    v.push(BuffOption { slot: 0, cost: 0, stat_type: 0, value: 25, is_percent: false });
    v.push(BuffOption { slot: 1, cost: 0, stat_type: 0, value: 10, is_percent: true });
    v.push(BuffOption { slot: 2, cost: 0, stat_type: 1, value: 5, is_percent: false });
    v.push(BuffOption { slot: 3, cost: 0, stat_type: 1, value: 10, is_percent: true });
    v.push(BuffOption { slot: 4, cost: 0, stat_type: 2, value: 2, is_percent: false });
    v.push(BuffOption { slot: 5, cost: 0, stat_type: 3, value: 1, is_percent: false });
    v.push(BuffOption { slot: 6, cost: 0, stat_type: 4, value: 5, is_percent: false });
    v.push(BuffOption { slot: 7, cost: 0, stat_type: 5, value: 1, is_percent: false });
    v.push(BuffOption { slot: 8, cost: 0, stat_type: 6, value: 1, is_percent: false });
    v.push(BuffOption { slot: 9, cost: 0, stat_type: 7, value: 1, is_percent: false });
    assert(v@ =~= known_catalog());
    v
}

/// The buffs that the game reported through its buff picker, by slot.
pub struct BuffStore {
    buffs: Vec<BuffOption>,
}

impl View for BuffStore {
    type V = Seq<BuffOption>;

    closed spec fn view(&self) -> Seq<BuffOption> {
        self.buffs@
    }
}

impl BuffStore {
    /// A store with nothing captured yet.
    pub fn new() -> (res: Self)
        ensures
            res@ == Seq::<BuffOption>::empty(),
    {
        BuffStore { buffs: Vec::new() }
    }

    /// Number of captured slots.
    pub fn len(&self) -> (res: usize)
        ensures
            res == self@.len(),
    {
        self.buffs.len()
    }
}

/// The slot a buff is stored at: negative slots go to slot 0.
pub open spec fn slot_index(b: BuffOption) -> int {
    if b.slot < 0 {
        0
    } else {
        b.slot as int
    }
}

/// The captured list after recording `b` at its slot: the list grows with
/// empty buffs up to that slot when it is shorter, then the slot is replaced.
pub open spec fn upserted(s: Seq<BuffOption>, b: BuffOption) -> Seq<BuffOption> {
    let slot = slot_index(b);
    let padded = if slot >= s.len() {
        s + Seq::new((slot + 1 - s.len()) as nat, |i: int| empty_buff())
    } else {
        s
    };
    padded.update(slot, b)
}

/// Forgets every captured buff.
pub fn clear_captured_buffs(store: &mut BuffStore)
    ensures
        final(store)@ == Seq::<BuffOption>::empty(),
{
    store.buffs.clear();
}

/// Records a buff at its slot, replacing what was there.
pub fn upsert_captured_buff(store: &mut BuffStore, buff: BuffOption)
    ensures
        final(store)@ == upserted(old(store)@, buff),
{
    let slot: usize = if buff.slot < 0 { 0 } else { buff.slot as usize };
    let ghost s0 = store.buffs@;
    while store.buffs.len() <= slot
        invariant
            s0.len() <= store.buffs@.len() <= (if slot >= s0.len() { slot + 1 } else { s0.len() as int }),
            store.buffs@.subrange(0, s0.len() as int) == s0,
            forall|i: int| s0.len() <= i < store.buffs@.len() ==> store.buffs@[i] == empty_buff(),
        decreases slot + 1 - store.buffs.len(),
    {
        store.buffs.push(BuffOption { slot: 0, cost: 0, stat_type: 0, value: 0, is_percent: false });
    }
    store.buffs.set(slot, buff);
    proof {
        let s = slot_index(buff);
        let padded = if s >= s0.len() {
            s0 + Seq::new((s + 1 - s0.len()) as nat, |i: int| empty_buff())
        } else {
            s0
        };
        assert(old(store).buffs@ == s0);
        assert forall|i: int| 0 <= i < store.buffs@.len() implies store.buffs@[i] == padded.update(
            s,
            buff,
        )[i] by {
            if i < s0.len() && i != s {
                assert(store.buffs@.subrange(0, s0.len() as int)[i] == s0[i]);
            }
        }
        assert(store.buffs@ =~= upserted(s0, buff));
    }
}

/// A copy of the captured buffs, by slot.
pub fn captured_buffs_snapshot(store: &BuffStore) -> (res: Vec<BuffOption>)
    ensures
        res@ == store@,
{
    let mut v: Vec<BuffOption> = Vec::new();
    let mut i: usize = 0;
    while i < store.buffs.len()
        invariant
            i <= store.buffs@.len(),
            v@ == store.buffs@.subrange(0, i as int),
        decreases store.buffs@.len() - i,
    {
        v.push(store.buffs[i]);
        i = i + 1;
        assert(v@ =~= store.buffs@.subrange(0, i as int));
    }
    assert(v@ =~= store.buffs@);
    v
}

/// Position of the first buff of the given kind at or after `from`, or -1.
pub open spec fn first_of_kind(s: Seq<BuffOption>, stat_type: i32, is_percent: bool, from: int) -> int
    decreases s.len() - from,
{
    if from < 0 || from >= s.len() {
        -1
    } else if same_kind(s[from], stat_type, is_percent) {
        from
    } else {
        first_of_kind(s, stat_type, is_percent, from + 1)
    }
}

/// Folds one captured buff into the catalog: a catalog entry of the same kind
/// takes its cost, and its value unless that value is zero; a buff of a new
/// kind is appended.
pub open spec fn merge_one(s: Seq<BuffOption>, cap: BuffOption) -> Seq<BuffOption> {
    let i = first_of_kind(s, cap.stat_type, cap.is_percent, 0);
    if i >= 0 {
        s.update(
            i,
            BuffOption {
                cost: cap.cost,
                value: if cap.value != 0 { cap.value } else { s[i].value },
                ..s[i]
            },
        )
    } else {
        s.push(cap)
    }
}

/// Folds the captured buffs, in slot order, into the catalog `base`.
pub open spec fn merge_captured(base: Seq<BuffOption>, caps: Seq<BuffOption>) -> Seq<BuffOption>
    decreases caps.len(),
{
    if caps.len() == 0 {
        base
    } else {
        merge_one(merge_captured(base, caps.drop_last()), caps.last())
    }
}

/// The buffs the menu offers: the catalog, updated with what was captured.
pub open spec fn offered_buffs(captured: Seq<BuffOption>) -> Seq<BuffOption> {
    merge_captured(known_catalog(), captured)
}

proof fn lemma_first_of_kind(s: Seq<BuffOption>, st: i32, p: bool, from: int, found: int)
    requires
        0 <= from <= found <= s.len(),
        forall|j: int| from <= j < found ==> !same_kind(#[trigger] s[j], st, p),
        found < s.len() ==> same_kind(s[found], st, p),
    ensures
        first_of_kind(s, st, p, from) == (if found < s.len() { found } else { -1 }),
    decreases found - from,
{
    if from < found {
        lemma_first_of_kind(s, st, p, from + 1, found);
    }
}

/// Position of the first buff of the given kind in `v`, if any.
fn find_kind(v: &Vec<BuffOption>, stat_type: i32, is_percent: bool) -> (res: Option<usize>)
    ensures
        res matches Some(i) ==> i < v@.len() && first_of_kind(v@, stat_type, is_percent, 0) == i,
        res is None ==> first_of_kind(v@, stat_type, is_percent, 0) == -1,
{
    let mut i: usize = 0;
    while i < v.len()
        invariant
            i <= v@.len(),
            forall|j: int| 0 <= j < i ==> !same_kind(#[trigger] v@[j], stat_type, is_percent),
        decreases v@.len() - i,
    {
        if v[i].stat_type == stat_type && v[i].is_percent == is_percent {
            proof {
                lemma_first_of_kind(v@, stat_type, is_percent, 0, i as int);
            }
            return Some(i);
        }
        i = i + 1;
    }
    proof {
        lemma_first_of_kind(v@, stat_type, is_percent, 0, v@.len() as int);
    }
    None
}

/// The buffs the menu offers: the built-in catalog, where each captured buff
/// updates the cost (and a non-zero value) of the first entry of its kind, and
/// captured buffs of kinds not in the list are appended.
pub fn known_buffs_snapshot(store: &BuffStore) -> (res: Vec<BuffOption>)
    ensures
        res@ == offered_buffs(store@),
{
    let mut buffs = known_buffs();
    let caps = &store.buffs;
    let mut k: usize = 0;
    while k < caps.len()
        invariant
            k <= caps@.len(),
            buffs@ == merge_captured(known_catalog(), caps@.subrange(0, k as int)),
        decreases caps@.len() - k,
    {
        let cap = caps[k];
        let ghost before = buffs@;
        match find_kind(&buffs, cap.stat_type, cap.is_percent) {
            Some(slot) => {
                let mut b = buffs[slot];
                b.cost = cap.cost;
                if cap.value != 0 {
                    b.value = cap.value;
                }
                buffs.set(slot, b);
            },
            None => {
                buffs.push(cap);
            },
        }
        proof {
            let next = caps@.subrange(0, k + 1);
            assert(next.drop_last() =~= caps@.subrange(0, k as int));
            assert(next.last() == cap);
            assert(buffs@ =~= merge_one(before, cap));
        }
        k = k + 1;
    }
    assert(caps@.subrange(0, caps@.len() as int) =~= caps@);
    buffs
}

/// The display name of a buff kind.
pub open spec fn kind_name(stat_type: i32, is_percent: bool) -> Seq<char> {
    if stat_type == 0 && !is_percent {
        "HP Flat"@
    } else if stat_type == 0 {
        "HP Percent"@
    } else if stat_type == 1 && !is_percent {
        "ATK Flat"@
    } else if stat_type == 1 {
        "ATK Percent"@
    } else if stat_type == 2 {
        "Move Speed"@
    } else if stat_type == 3 {
        "Rapid Fire"@
    } else if stat_type == 4 {
        "Bullet Speed"@
    } else if stat_type == 5 {
        "Full Heal"@
    } else if stat_type == 6 {
        "Shield"@
    } else if stat_type == 7 {
        "Extra Bullets"@
    } else {
        "Unknown Buff"@
    }
}

/// The display name of a buff kind.
pub fn buff_kind_name(stat_type: i32, is_percent: bool) -> (res: &'static str)
    ensures
        res@ == kind_name(stat_type, is_percent),
{
    if stat_type == 0 && !is_percent {
        "HP Flat"
    } else if stat_type == 0 {
        "HP Percent"
    } else if stat_type == 1 && !is_percent {
        "ATK Flat"
    } else if stat_type == 1 {
        "ATK Percent"
    } else if stat_type == 2 {
        "Move Speed"
    } else if stat_type == 3 {
        "Rapid Fire"
    } else if stat_type == 4 {
        "Bullet Speed"
    } else if stat_type == 5 {
        "Full Heal"
    } else if stat_type == 6 {
        "Shield"
    } else if stat_type == 7 {
        "Extra Bullets"
    } else {
        "Unknown Buff"
    }
}

/// The first position of a kind, when there is one, is a valid position.
pub proof fn lemma_first_of_kind_range(s: Seq<BuffOption>, st: i32, p: bool, from: int)
    ensures
        first_of_kind(s, st, p, from) == -1 || (from <= first_of_kind(s, st, p, from) < s.len()
            && same_kind(s[first_of_kind(s, st, p, from)], st, p)),
    decreases s.len() - from,
{
    if 0 <= from < s.len() && !same_kind(s[from], st, p) {
        lemma_first_of_kind_range(s, st, p, from + 1);
    }
}

/// Length of the offered list: the catalog plus at most one entry per capture.
pub proof fn lemma_merge_len(base: Seq<BuffOption>, caps: Seq<BuffOption>)
    ensures
        base.len() <= merge_captured(base, caps).len() <= base.len() + caps.len(),
    decreases caps.len(),
{
    if caps.len() > 0 {
        lemma_merge_len(base, caps.drop_last());
        let prev = merge_captured(base, caps.drop_last());
        lemma_first_of_kind_range(prev, caps.last().stat_type, caps.last().is_percent, 0);
    }
}

// ───────────────────────────── trainer state ─────────────────────────────

/// Lowest and highest move speed, in tenths.
pub const SPEED_MIN: i32 = 0;
pub const SPEED_MAX: i32 = 400;
/// Lowest and highest fire cooldown, in hundredths of a second.
pub const COOLDOWN_MIN: i32 = 1;
pub const COOLDOWN_MAX: i32 = 500;
/// Lowest and highest bullet speed, in tenths.
pub const BULLET_MIN: i32 = 0;
pub const BULLET_MAX: i32 = 1200;

/// The cheats the overlay switches on and off.
#[derive(Clone, Copy, Debug, PartialEq, Eq, Structural)]
pub struct Toggles {
    pub god_mode: bool,
    pub speed_hack: bool,
    pub rapid_fire: bool,
    pub fast_bullets: bool,
    pub maxhp_override: bool,
    pub shield_lock: bool,
    pub one_hit_kill: bool,
}

/// The values the overlay tunes.
#[derive(Clone, Copy, Debug, PartialEq, Eq, Structural)]
pub struct Tuning {
    /// Move speed written while the speed hack is on, in tenths.
    pub speed_tenths: i32,
    /// Cooldown between two shots while rapid fire is on, in hundredths of a
    /// second: smaller shoots faster.
    pub cooldown_hundredths: i32,
    /// Bullet speed written while fast bullets are on, in tenths.
    pub bullet_speed_tenths: i32,
    /// HP held while the HP lock is on, and returned as the maximum.
    pub maxhp_value: i32,
    /// Shield HP held while the shield lock is on.
    pub shield_value: i32,
    pub exp_amount: i32,
    pub gold_amount: i32,
    /// Item id added by the raw add-item power.
    pub item_id: i32,
    /// Preset added by the add-preset power.
    pub item_preset_index: i32,
}

/// One-shot powers that the overlay requests and the game thread carries out.
#[derive(Clone, Copy, Debug, PartialEq, Eq, Structural)]
pub struct Requests {
    pub revive: bool,
    pub add_exp: bool,
    pub add_gold: bool,
    pub add_item: bool,
    pub add_item_preset: bool,
    pub add_known_items: bool,
    pub apply_selected_buffs: bool,
    /// Bit `i` selects entry `i` of the offered buffs.
    pub buff_selected_mask: usize,
    pub shield_on: bool,
    pub shield_off: bool,
}

/// Everything the overlay sets and the hooks read.
#[derive(Clone, Copy, Debug, PartialEq, Eq, Structural)]
pub struct TrainerState {
    /// Whether the overlay menu is shown.
    pub menu_visible: bool,
    pub toggles: Toggles,
    pub tuning: Tuning,
    pub requests: Requests,
    /// Address of the player controller seen by the hooks, 0 when none yet.
    pub player_instance: usize,
    /// Address of the player shield seen by the hooks, 0 when none yet.
    pub shield_instance: usize,
}

/// No power requested.
pub open spec fn no_requests(mask: usize) -> Requests {
    Requests {
        revive: false,
        add_exp: false,
        add_gold: false,
        add_item: false,
        add_item_preset: false,
        add_known_items: false,
        apply_selected_buffs: false,
        buff_selected_mask: mask,
        shield_on: false,
        shield_off: false,
    }
}

/// The state when the trainer starts: everything off, nothing requested.
pub open spec fn initial_state() -> TrainerState {
    TrainerState {
        menu_visible: false,
        toggles: Toggles {
            god_mode: false,
            speed_hack: false,
            rapid_fire: false,
            fast_bullets: false,
            maxhp_override: false,
            shield_lock: false,
            one_hit_kill: false,
        },
        tuning: Tuning {
            speed_tenths: 80,
            cooldown_hundredths: 5,
            bullet_speed_tenths: 300,
            maxhp_value: 9999,
            shield_value: 9999,
            exp_amount: 1000,
            gold_amount: 1000,
            item_id: 1,
            item_preset_index: 0,
        },
        requests: no_requests(0),
        player_instance: 0,
        shield_instance: 0,
    }
}

impl TrainerState {
    /// The state when the trainer starts.
    pub fn new() -> (res: Self)
        ensures
            res == initial_state(),
    {
        TrainerState {
            menu_visible: false,
            toggles: Toggles {
                god_mode: false,
                speed_hack: false,
                rapid_fire: false,
                fast_bullets: false,
                maxhp_override: false,
                shield_lock: false,
                one_hit_kill: false,
            },
            tuning: Tuning {
                speed_tenths: 80,
                cooldown_hundredths: 5,
                bullet_speed_tenths: 300,
                maxhp_value: 9999,
                shield_value: 9999,
                exp_amount: 1000,
                gold_amount: 1000,
                item_id: 1,
                item_preset_index: 0,
            },
            requests: Requests {
                revive: false,
                add_exp: false,
                add_gold: false,
                add_item: false,
                add_item_preset: false,
                add_known_items: false,
                apply_selected_buffs: false,
                buff_selected_mask: 0,
                shield_on: false,
                shield_off: false,
            },
            player_instance: 0,
            shield_instance: 0,
        }
    }
}

impl Tuning {
    /// The tuned values lie within the ranges the menu keeps them in.
    pub open spec fn in_range(self) -> bool {
        &&& SPEED_MIN <= self.speed_tenths <= SPEED_MAX
        &&& COOLDOWN_MIN <= self.cooldown_hundredths <= COOLDOWN_MAX
        &&& BULLET_MIN <= self.bullet_speed_tenths <= BULLET_MAX
        &&& self.maxhp_value >= 1
        &&& self.shield_value >= 1
        &&& self.gold_amount >= 0
        &&& self.exp_amount >= 0
        &&& 0 <= self.item_preset_index < ITEM_PRESET_COUNT
    }
}

// ───────────────────────────── resolved powers ─────────────────────────────

/// A managed method that can be called directly: its native code address and
/// its `MethodInfo*`.
#[derive(Clone, Copy, Debug, PartialEq, Eq, Structural)]
pub struct Callable {
    pub code: usize,
    pub method: usize,
}

/// The methods resolved at install time that the powers call.
#[derive(Clone, Copy, Debug, PartialEq, Eq, Structural)]
pub struct Powers {
    pub revive: Option<Callable>,
    pub add_exp: Option<Callable>,
    pub add_item: Option<Callable>,
    pub get_max_hp: Option<Callable>,
    pub save_game: Option<Callable>,
    pub shield_on: Option<Callable>,
    pub shield_off: Option<Callable>,
}

impl Default for Powers {
    fn default() -> (res: Self)
        ensures
            res.revive is None,
            res.add_exp is None,
            res.add_item is None,
            res.get_max_hp is None,
            res.save_game is None,
            res.shield_on is None,
            res.shield_off is None,
    {
        Powers {
            revive: None,
            add_exp: None,
            add_item: None,
            get_max_hp: None,
            save_game: None,
            shield_on: None,
            shield_off: None,
        }
    }
}

/// The entry of a resolved method: none when the method was not found or has
/// no compiled body.
pub fn callable_from(method: usize, code: usize) -> (res: Option<Callable>)
    ensures
        res == (if method == 0 || code == 0 {
            None::<Callable>
        } else {
            Some(Callable { code, method })
        }),
{
    if method == 0 || code == 0 {
        None
    } else {
        Some(Callable { code, method })
    }
}

// ───────────────────────────── laws ─────────────────────────────

/// A recorded buff is read back at its slot; the list is long enough to hold
/// that slot; earlier slots keep their buffs and new gap slots are empty.
pub proof fn law_upsert_then_read(s: Seq<BuffOption>, b: BuffOption)
    ensures
        upserted(s, b).len() == (if slot_index(b) >= s.len() {
            slot_index(b) + 1
        } else {
            s.len() as int
        }),
        upserted(s, b)[slot_index(b)] == b,
        forall|i: int| 0 <= i < s.len() && i != slot_index(b) ==> #[trigger] upserted(s, b)[i] == s[i],
        forall|i: int|
            s.len() <= i < slot_index(b) ==> #[trigger] upserted(s, b)[i] == empty_buff(),
{
}

/// With nothing captured, the menu offers the built-in catalog.
pub proof fn law_offered_without_captures()
    ensures
        offered_buffs(Seq::<BuffOption>::empty()) == known_catalog(),
{
}

/// Captures never remove or reorder catalog entries: the first ten offered
/// buffs keep the catalog's slots and kinds, and captured values only touch
/// cost and value.
pub proof fn law_catalog_kinds_kept(caps: Seq<BuffOption>)
    ensures
        offered_buffs(caps).len() >= known_catalog().len(),
        forall|i: int|
            0 <= i < known_catalog().len() ==> (#[trigger] offered_buffs(caps)[i]).slot
                == known_catalog()[i].slot && offered_buffs(caps)[i].stat_type
                == known_catalog()[i].stat_type && offered_buffs(caps)[i].is_percent
                == known_catalog()[i].is_percent,
    decreases caps.len(),
{
    lemma_merge_len(known_catalog(), caps);
    if caps.len() > 0 {
        law_catalog_kinds_kept(caps.drop_last());
        let prev = merge_captured(known_catalog(), caps.drop_last());
        lemma_first_of_kind_range(prev, caps.last().stat_type, caps.last().is_percent, 0);
    }
}

/// A captured buff of a catalog kind sets the cost of the first catalog entry
/// of that kind, and its value unless the captured value is zero.
pub proof fn law_capture_updates_entry(cap: BuffOption, k: int)
    requires
        0 <= k < known_catalog().len(),
        same_kind(known_catalog()[k], cap.stat_type, cap.is_percent),
        forall|j: int| 0 <= j < k ==> !same_kind(#[trigger] known_catalog()[j], cap.stat_type, cap.is_percent),
    ensures
        offered_buffs(seq![cap]).len() == known_catalog().len(),
        offered_buffs(seq![cap])[k].cost == cap.cost,
        offered_buffs(seq![cap])[k].value == (if cap.value != 0 {
            cap.value
        } else {
            known_catalog()[k].value
        }),
{
    let caps = seq![cap];
    assert(caps.drop_last() =~= Seq::<BuffOption>::empty());
    assert(caps.last() == cap);
    assert(merge_captured(known_catalog(), caps.drop_last()) == known_catalog());
    assert(offered_buffs(caps) == merge_one(known_catalog(), cap));
    lemma_first_of_kind(known_catalog(), cap.stat_type, cap.is_percent, 0, k);
}

/// The kind of a buff: its stat and whether it is a percent buff.
pub open spec fn kind_of(b: BuffOption) -> (i32, bool) {
    (b.stat_type, b.is_percent)
}

/// The kinds of a list of buffs, in order.
pub open spec fn kinds(s: Seq<BuffOption>) -> Seq<(i32, bool)> {
    s.map_values(|b: BuffOption| kind_of(b))
}

/// The kinds of `caps` found neither in `base` nor earlier in `caps`, in order
/// of first appearance.
pub open spec fn fresh_kinds(base: Seq<BuffOption>, caps: Seq<BuffOption>) -> Seq<(i32, bool)>
    decreases caps.len(),
{
    if caps.len() == 0 {
        Seq::empty()
    } else {
        let prev = fresh_kinds(base, caps.drop_last());
        let k = kind_of(caps.last());
        if (kinds(base) + prev).contains(k) {
            prev
        } else {
            prev.push(k)
        }
    }
}

proof fn lemma_first_of_kind_none(s: Seq<BuffOption>, st: i32, p: bool, from: int)
    requires
        0 <= from,
        first_of_kind(s, st, p, from) == -1,
    ensures
        forall|j: int| from <= j < s.len() ==> !same_kind(#[trigger] s[j], st, p),
    decreases s.len() - from,
{
    if from < s.len() {
        lemma_first_of_kind_none(s, st, p, from + 1);
    }
}

proof fn lemma_merge_kinds(base: Seq<BuffOption>, caps: Seq<BuffOption>)
    ensures
        kinds(merge_captured(base, caps)) == kinds(base) + fresh_kinds(base, caps),
    decreases caps.len(),
{
    if caps.len() > 0 {
        lemma_merge_kinds(base, caps.drop_last());
        let prev = merge_captured(base, caps.drop_last());
        let cap = caps.last();
        let k = kind_of(cap);
        let i = first_of_kind(prev, cap.stat_type, cap.is_percent, 0);
        lemma_first_of_kind_range(prev, cap.stat_type, cap.is_percent, 0);
        if i >= 0 {
            let m = merge_one(prev, cap);
            assert(kinds(m) =~= kinds(prev));
            assert(kinds(prev)[i] == k);
        } else {
            lemma_first_of_kind_none(prev, cap.stat_type, cap.is_percent, 0);
            assert(!kinds(prev).contains(k)) by {
                if kinds(prev).contains(k) {
                    let j = choose|j: int| 0 <= j < kinds(prev).len() && kinds(prev)[j] == k;
                    assert(same_kind(prev[j], cap.stat_type, cap.is_percent));
                }
            }
            assert(kinds(prev.push(cap)) =~= kinds(prev).push(k));
        }
        assert(kinds(base) + fresh_kinds(base, caps.drop_last()) == kinds(prev));
        if (kinds(base) + fresh_kinds(base, caps.drop_last())).contains(k) {
        } else {
            assert((kinds(base) + fresh_kinds(base, caps.drop_last())).push(k) =~= kinds(base)
                + fresh_kinds(base, caps.drop_last()).push(k));
        }
    }
}

proof fn lemma_fresh_kinds(base: Seq<BuffOption>, caps: Seq<BuffOption>)
    requires
        kinds(base).no_duplicates(),
    ensures
        (kinds(base) + fresh_kinds(base, caps)).no_duplicates(),
        forall|i: int| 0 <= i < caps.len() ==> (kinds(base) + fresh_kinds(base, caps)).contains(
            kind_of(#[trigger] caps[i]),
        ),
    decreases caps.len(),
{
    if caps.len() > 0 {
        let cs = caps.drop_last();
        lemma_fresh_kinds(base, cs);
        let prev = kinds(base) + fresh_kinds(base, cs);
        let k = kind_of(caps.last());
        if !prev.contains(k) {
            assert(kinds(base) + fresh_kinds(base, caps) =~= prev.push(k));
            assert forall|i: int| 0 <= i < caps.len() implies prev.push(k).contains(
                kind_of(#[trigger] caps[i]),
            ) by {
                if i < caps.len() - 1 {
                    assert(cs[i] == caps[i]);
                    let j = choose|j: int| 0 <= j < prev.len() && prev[j] == kind_of(cs[i]);
                    assert(prev.push(k)[j] == kind_of(caps[i]));
                } else {
                    assert(prev.push(k)[prev.len() as int] == k);
                }
            }
        } else {
            assert forall|i: int| 0 <= i < caps.len() implies prev.contains(
                kind_of(#[trigger] caps[i]),
            ) by {
                if i < caps.len() - 1 {
                    assert(cs[i] == caps[i]);
                }
            }
        }
    }
}

/// The kinds the menu offers: the catalog's kinds in catalog order, then each
/// captured kind that is not a catalog kind, once, in order of its first
/// capture. No kind is offered twice, and every captured kind is offered.
pub proof fn law_offered_kinds(caps: Seq<BuffOption>)
    ensures
        kinds(offered_buffs(caps)) == kinds(known_catalog()) + fresh_kinds(known_catalog(), caps),
        offered_buffs(caps).len() == known_catalog().len() + fresh_kinds(known_catalog(), caps).len(),
        kinds(offered_buffs(caps)).no_duplicates(),
        forall|i: int| 0 <= i < caps.len() ==> kinds(offered_buffs(caps)).contains(
            kind_of(#[trigger] caps[i]),
        ),
{
    lemma_merge_kinds(known_catalog(), caps);
    assert(kinds(known_catalog()).no_duplicates()) by {
        reveal_with_fuel(Seq::no_duplicates, 1);
        let ks = kinds(known_catalog());
        assert(ks =~= seq![(0i32, false), (0i32, true), (1i32, false), (1i32, true), (2i32, false),
            (3i32, false), (4i32, false), (5i32, false), (6i32, false), (7i32, false)]);
    }
    lemma_fresh_kinds(known_catalog(), caps);
    assert(kinds(offered_buffs(caps)).len() == offered_buffs(caps).len());
}

/// The cost of the last buff of kind `k` in `caps` (0 when there is none).
pub open spec fn last_cost(caps: Seq<BuffOption>, k: (i32, bool)) -> i32
    decreases caps.len(),
{
    if caps.len() == 0 {
        0
    } else if kind_of(caps.last()) == k {
        caps.last().cost
    } else {
        last_cost(caps.drop_last(), k)
    }
}

/// The value of the last buff of kind `k` in `caps` whose value is not zero,
/// or `d` when there is none.
pub open spec fn last_value(caps: Seq<BuffOption>, k: (i32, bool), d: i32) -> i32
    decreases caps.len(),
{
    if caps.len() == 0 {
        d
    } else if kind_of(caps.last()) == k && caps.last().value != 0 {
        caps.last().value
    } else {
        last_value(caps.drop_last(), k, d)
    }
}

/// The value of the first buff of kind `k` in `base`, or 0 when there is none.
pub open spec fn base_value(base: Seq<BuffOption>, k: (i32, bool)) -> i32 {
    let i = first_of_kind(base, k.0, k.1, 0);
    if i >= 0 {
        base[i].value
    } else {
        0
    }
}

proof fn lemma_last_value_absent(caps: Seq<BuffOption>, k: (i32, bool), d: i32)
    requires
        !kinds(caps).contains(k),
    ensures
        last_value(caps, k, d) == d,
    decreases caps.len(),
{
    if caps.len() > 0 {
        assert(kinds(caps)[caps.len() - 1] == kind_of(caps.last()));
        assert(!kinds(caps.drop_last()).contains(k)) by {
            if kinds(caps.drop_last()).contains(k) {
                let j = choose|j: int| 0 <= j < kinds(caps.drop_last()).len() && kinds(caps.drop_last())[j] == k;
                assert(kinds(caps)[j] == k);
            }
        }
        lemma_last_value_absent(caps.drop_last(), k, d);
    }
}

proof fn lemma_base_value_at(base: Seq<BuffOption>, j: int)
    requires
        kinds(base).no_duplicates(),
        0 <= j < base.len(),
    ensures
        base_value(base, kind_of(base[j])) == base[j].value,
{
    let b = base[j];
    assert forall|l: int| 0 <= l < j implies !same_kind(#[trigger] base[l], b.stat_type, b.is_percent) by {
        assert(kinds(base)[l] != kinds(base)[j]);
    }
    lemma_first_of_kind(base, b.stat_type, b.is_percent, 0, j);
}

proof fn lemma_base_value_absent(base: Seq<BuffOption>, k: (i32, bool))
    requires
        !kinds(base).contains(k),
    ensures
        base_value(base, k) == 0,
{
    lemma_first_of_kind_range(base, k.0, k.1, 0);
    let i = first_of_kind(base, k.0, k.1, 0);
    if i >= 0 {
        assert(kinds(base)[i] == k);
    }
}

/// Each offered entry of a captured kind, in the merge of `caps` into `base`:
/// its cost is that of the last capture of its kind, and its value that of
/// the last capture of its kind with a non-zero value, else the base value.
/// An entry of a kind never captured keeps the base value.
proof fn lemma_merge_last_wins(base: Seq<BuffOption>, caps: Seq<BuffOption>)
    requires
        kinds(base).no_duplicates(),
    ensures
        forall|j: int| 0 <= j < merge_captured(base, caps).len() ==> {
            let e = #[trigger] merge_captured(base, caps)[j];
            &&& kinds(caps).contains(kind_of(e)) ==> e.cost == last_cost(caps, kind_of(e))
            &&& e.value == last_value(caps, kind_of(e), base_value(base, kind_of(e)))
        },
    decreases caps.len(),
{
    let m = merge_captured(base, caps);
    if caps.len() == 0 {
        assert forall|j: int| 0 <= j < m.len() implies {
            let e = #[trigger] m[j];
            &&& kinds(caps).contains(kind_of(e)) ==> e.cost == last_cost(caps, kind_of(e))
            &&& e.value == last_value(caps, kind_of(e), base_value(base, kind_of(e)))
        } by {
            lemma_base_value_at(base, j);
        }
    } else {
        let cs = caps.drop_last();
        let cap = caps.last();
        let kc = kind_of(cap);
        let prev = merge_captured(base, cs);
        lemma_merge_last_wins(base, cs);
        lemma_merge_kinds(base, cs);
        lemma_fresh_kinds(base, cs);
        assert(kinds(prev).no_duplicates());
        let i = first_of_kind(prev, cap.stat_type, cap.is_percent, 0);
        lemma_first_of_kind_range(prev, cap.stat_type, cap.is_percent, 0);
        assert(kinds(caps) =~= kinds(cs).push(kc));
        assert forall|k: (i32, bool)| k != kc implies kinds(caps).contains(k) == kinds(cs).contains(k) by {
            if kinds(caps).contains(k) {
                let j = choose|j: int| 0 <= j < kinds(caps).len() && kinds(caps)[j] == k;
                assert(kinds(cs)[j] == k);
            }
            if kinds(cs).contains(k) {
                let j = choose|j: int| 0 <= j < kinds(cs).len() && kinds(cs)[j] == k;
                assert(kinds(caps)[j] == k);
            }
        }
        assert(kinds(caps).contains(kc)) by {
            assert(kinds(caps)[caps.len() - 1] == kc);
        }
        if i < 0 {
            lemma_first_of_kind_none(prev, cap.stat_type, cap.is_percent, 0);
            assert(!kinds(prev).contains(kc)) by {
                if kinds(prev).contains(kc) {
                    let j = choose|j: int| 0 <= j < kinds(prev).len() && kinds(prev)[j] == kc;
                    assert(same_kind(prev[j], cap.stat_type, cap.is_percent));
                }
            }
            assert(!kinds(base).contains(kc)) by {
                if kinds(base).contains(kc) {
                    let j = choose|j: int| 0 <= j < kinds(base).len() && kinds(base)[j] == kc;
                    assert((kinds(base) + fresh_kinds(base, cs))[j] == kc);
                }
            }
            assert(!kinds(cs).contains(kc)) by {
                if kinds(cs).contains(kc) {
                    let j = choose|j: int| 0 <= j < kinds(cs).len() && kinds(cs)[j] == kc;
                    assert(cs[j] == caps[j]);
                    assert(kind_of(caps[j]) == kc);
                }
            }
            lemma_base_value_absent(base, kc);
            lemma_last_value_absent(cs, kc, 0);
        } else {
            assert(kinds(prev)[i] == kc);
            assert forall|j: int| 0 <= j < prev.len() && j != i implies kind_of(#[trigger] prev[j]) != kc by {
                assert(kinds(prev)[j] != kinds(prev)[i]);
            }
            if !kinds(cs).contains(kc) {
                lemma_last_value_absent(cs, kc, base_value(base, kc));
            }
        }
        assert forall|j: int| 0 <= j < m.len() implies {
            let e = #[trigger] m[j];
            &&& kinds(caps).contains(kind_of(e)) ==> e.cost == last_cost(caps, kind_of(e))
            &&& e.value == last_value(caps, kind_of(e), base_value(base, kind_of(e)))
        } by {
            if j < prev.len() {
                let _ = prev[j];
            }
        }
    }
}

/// The last capture of a kind wins: the offered entry of a captured kind has
/// the cost of the last capture of that kind, and the value of the last
/// capture of that kind with a non-zero value, or else the catalog's value
/// for that kind (0 for a kind not in the catalog). An entry of a kind never
/// captured keeps the catalog's value.
pub proof fn law_last_capture_wins(caps: Seq<BuffOption>)
    ensures
        forall|j: int| 0 <= j < offered_buffs(caps).len() ==> {
            let e = #[trigger] offered_buffs(caps)[j];
            &&& kinds(caps).contains(kind_of(e)) ==> e.cost == last_cost(caps, kind_of(e))
            &&& e.value == last_value(caps, kind_of(e), base_value(known_catalog(), kind_of(e)))
        },
{
    law_offered_kinds(Seq::empty());
    assert(kinds(known_catalog()) == kinds(offered_buffs(Seq::empty())));
    lemma_merge_last_wins(known_catalog(), caps);
}

/// Preset indices wrap around the list.
pub proof fn law_preset_wraps(index: int)
    requires
        index >= 0,
    ensures
        preset_position(index + ITEM_PRESET_COUNT) == preset_position(index),
        0 <= preset_position(index) < ITEM_PRESET_COUNT,
{
}

} // verus!
