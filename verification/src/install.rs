//! Install-time decisions: which loaded image is the game's, how a resolved
//! method becomes callable, and the report of what was hooked and found.

use vstd::prelude::*;
use crate::state::Powers;
use vstd::string::StringSliceAdditionalSpecFns;

verus! {

/// The short marker of the hook report: `OK` or `x`.
pub open spec fn ok_text(b: bool) -> Seq<char> {
    if b {
        "OK"@
    } else {
        "x"@
    }
}

/// The short marker of the hook report: `OK` or `x`.
pub fn ok(b: bool) -> (res: &'static str)
    ensures
        res@ == ok_text(b),
{
    if b {
        "OK"
    } else {
        "x"
    }
}

/// Which hooks were enabled.
#[derive(Clone, Copy, Debug, PartialEq, Eq, Structural)]
pub struct HookStatus {
    pub max_hp: bool,
    pub take_damage: bool,
    pub update: bool,
    pub shield_start: bool,
    pub shield_update: bool,
    pub enemy_damage: bool,
    pub buff_setup: bool,
}

/// The three-line install report: the hooks, the stat features, and the
/// powers found (the shield needs both its on and its off method).
pub open spec fn report_text(h: HookStatus, pw: Powers) -> Seq<char> {
    "Hooks: MaxHp="@ + ok_text(h.max_hp) + " TakeDamage="@ + ok_text(h.take_damage)
        + " Update="@ + ok_text(h.update) + " ShieldStart="@ + ok_text(h.shield_start)
        + " ShieldUpdate="@ + ok_text(h.shield_update) + " EnemyDamage="@ + ok_text(
        h.enemy_damage,
    ) + " BuffSetup="@ + ok_text(h.buff_setup)
        + "\nStats: snapshot/restore Speed/Bullet/Cooldown + HP/Shield lock + captured buffs\nPowers: Revive="@
        + ok_text(pw.revive is Some) + " AddExp="@ + ok_text(pw.add_exp is Some) + " AddItem="@
        + ok_text(pw.add_item is Some) + " GetMaxHp="@ + ok_text(pw.get_max_hp is Some)
        + " SaveGame="@ + ok_text(pw.save_game is Some) + " Shield="@ + ok_text(
        pw.shield_on is Some && pw.shield_off is Some,
    )
}

/// The install report.
pub fn hook_report(h: &HookStatus, pw: &Powers) -> (res: String)
    ensures
        res@ == report_text(*h, *pw),
{
    let mut s = String::new();
    s.append("Hooks: MaxHp=");
    s.append(ok(h.max_hp));
    s.append(" TakeDamage=");
    s.append(ok(h.take_damage));
    s.append(" Update=");
    s.append(ok(h.update));
    s.append(" ShieldStart=");
    s.append(ok(h.shield_start));
    s.append(" ShieldUpdate=");
    s.append(ok(h.shield_update));
    s.append(" EnemyDamage=");
    s.append(ok(h.enemy_damage));
    s.append(" BuffSetup=");
    s.append(ok(h.buff_setup));
    s.append(
        "\nStats: snapshot/restore Speed/Bullet/Cooldown + HP/Shield lock + captured buffs\nPowers: Revive=",
    );
    s.append(ok(pw.revive.is_some()));
    s.append(" AddExp=");
    s.append(ok(pw.add_exp.is_some()));
    s.append(" AddItem=");
    s.append(ok(pw.add_item.is_some()));
    s.append(" GetMaxHp=");
    s.append(ok(pw.get_max_hp.is_some()));
    s.append(" SaveGame=");
    s.append(ok(pw.save_game.is_some()));
    s.append(" Shield=");
    s.append(ok(pw.shield_on.is_some() && pw.shield_off.is_some()));
    assert(s@ =~= report_text(*h, *pw));
    s
}

/// Whether `s` begins with `prefix`.
pub open spec fn starts_with(s: Seq<char>, prefix: Seq<char>) -> bool {
    prefix.len() <= s.len() && s.subrange(0, prefix.len() as int) == prefix
}

fn str_starts_with(s: &str, prefix: &str) -> (res: bool)
    ensures
        res == starts_with(s@, prefix@),
{
    let n = prefix.unicode_len();
    let m = s.unicode_len();
    if n > m {
        return false;
    }
    let mut i: usize = 0;
    while i < n
        invariant
            n == prefix@.len(),
            m == s@.len(),
            n <= m,
            i <= n,
            forall|j: int| 0 <= j < i ==> s@[j] == prefix@[j],
        decreases n - i,
    {
        if s.get_char(i) != prefix.get_char(i) {
            assert(s@.subrange(0, n as int)[i as int] != prefix@[i as int]);
            return false;
        }
        i = i + 1;
    }
    assert(s@.subrange(0, n as int) =~= prefix@);
    true
}

/// The first image whose name begins with `prefix`, by position in `names`.
pub fn find_game_image(names: &Vec<String>, prefix: &str) -> (res: Option<usize>)
    ensures
        res matches Some(i) ==> i < names@.len() && starts_with(names@[i as int]@, prefix@)
            && forall|j: int| 0 <= j < i ==> !starts_with(#[trigger] names@[j]@, prefix@),
        res is None ==> forall|j: int|
            0 <= j < names@.len() ==> !starts_with(#[trigger] names@[j]@, prefix@),
{
    let mut i: usize = 0;
    while i < names.len()
        invariant
            i <= names@.len(),
            forall|j: int| 0 <= j < i ==> !starts_with(#[trigger] names@[j]@, prefix@),
        decreases names@.len() - i,
    {
        if str_starts_with(names[i].as_str(), prefix) {
            return Some(i);
        }
        i = i + 1;
    }
    None
}

/// The bytes of `s` followed by a terminating zero, as the runtime's C API
/// takes names.
pub fn to_cstr(s: &str) -> (res: Vec<u8>)
    ensures
        res@ == s.spec_bytes().push(0u8),
{
    let b = s.as_bytes();
    let mut v: Vec<u8> = Vec::new();
    let mut i: usize = 0;
    while i < b.len()
        invariant
            i <= b@.len(),
            b@ == s.spec_bytes(),
            v@ == b@.subrange(0, i as int),
        decreases b@.len() - i,
    {
        v.push(b[i]);
        i = i + 1;
        assert(v@ =~= b@.subrange(0, i as int));
    }
    assert(b@.subrange(0, b@.len() as int) =~= b@);
    v.push(0u8);
    v
}

/// How many times the loader thread looks for the runtime, and how often it
/// logs while waiting.
pub const RUNTIME_ATTEMPTS: u32 = 150;
pub const RUNTIME_LOG_EVERY: u32 = 20;
/// How many times it looks for the game image.
pub const IMAGE_ATTEMPTS: u32 = 100;

/// What to do after one attempt to find something at start-up.
#[derive(Clone, Copy, Debug, PartialEq, Eq, Structural)]
pub enum WaitStep {
    /// Found: go on.
    Ready,
    /// Not found: log if asked, wait, and try again.
    Retry { log: bool },
    /// Not found on the last attempt: log if asked, wait, and give up.
    GiveUp { log: bool },
}

/// The decision after attempt number `attempt` (from 0) out of `attempts`:
/// go on when found, otherwise retry until the attempts run out, logging on
/// every `log_every`-th attempt (never when `log_every` is 0).
pub open spec fn wait_decision(attempt: u32, found: bool, attempts: u32, log_every: u32) -> WaitStep {
    let log = log_every != 0 && attempt % log_every == 0;
    if found {
        WaitStep::Ready
    } else if attempt as int + 1 >= attempts {
        WaitStep::GiveUp { log }
    } else {
        WaitStep::Retry { log }
    }
}

/// The decision after one start-up attempt.
pub fn wait_step(attempt: u32, found: bool, attempts: u32, log_every: u32) -> (res: WaitStep)
    ensures
        res == wait_decision(attempt, found, attempts, log_every),
{
    let log = log_every != 0 && attempt % log_every == 0;
    if found {
        WaitStep::Ready
    } else if attempt as u64 + 1 >= attempts as u64 {
        WaitStep::GiveUp { log }
    } else {
        WaitStep::Retry { log }
    }
}

} // verus!
