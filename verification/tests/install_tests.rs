use darksaber::install::{
    find_game_image, hook_report, ok, to_cstr, wait_step, HookStatus, WaitStep, RUNTIME_ATTEMPTS,
    RUNTIME_LOG_EVERY,
};
use darksaber::state::{Callable, Powers};

#[test]
fn ok_markers() {
    assert_eq!(ok(true), "OK");
    assert_eq!(ok(false), "x");
}

#[test]
fn report_text() {
    let h = HookStatus {
        max_hp: true,
        take_damage: true,
        update: true,
        shield_start: false,
        shield_update: true,
        enemy_damage: false,
        buff_setup: true,
    };
    let mut pw = Powers::default();
    pw.revive = Some(Callable { code: 1, method: 2 });
    pw.shield_on = Some(Callable { code: 3, method: 4 });
    assert_eq!(
        hook_report(&h, &pw),
        "Hooks: MaxHp=OK TakeDamage=OK Update=OK ShieldStart=x ShieldUpdate=OK EnemyDamage=x BuffSetup=OK\n\
         Stats: snapshot/restore Speed/Bullet/Cooldown + HP/Shield lock + captured buffs\n\
         Powers: Revive=OK AddExp=x AddItem=x GetMaxHp=x SaveGame=x Shield=x"
    );
}

#[test]
fn find_image_by_prefix() {
    let names: Vec<String> =
        vec!["mscorlib.dll".into(), "Assembly-CSharp.dll".into(), "Assembly-CSharp-firstpass.dll".into()];
    assert_eq!(find_game_image(&names, "Assembly-CSharp"), Some(1));
    assert_eq!(find_game_image(&names, "mscorlib"), Some(0));
    assert_eq!(find_game_image(&names, "UnityEngine"), None);
    assert_eq!(find_game_image(&names, ""), Some(0));
    assert_eq!(find_game_image(&Vec::new(), "x"), None);
    assert_eq!(find_game_image(&names, "Assembly-CSharp.dll.extra"), None);
}

#[test]
fn c_strings() {
    assert_eq!(to_cstr("GetMaxHp"), b"GetMaxHp\0".to_vec());
    assert_eq!(to_cstr(""), vec![0u8]);
    assert_eq!(to_cstr("Tổng"), "Tổng\0".as_bytes().to_vec());
}

#[test]
fn start_up_waiting() {
    assert_eq!(wait_step(0, true, RUNTIME_ATTEMPTS, RUNTIME_LOG_EVERY), WaitStep::Ready);
    assert_eq!(wait_step(0, false, RUNTIME_ATTEMPTS, RUNTIME_LOG_EVERY), WaitStep::Retry { log: true });
    assert_eq!(wait_step(19, false, RUNTIME_ATTEMPTS, RUNTIME_LOG_EVERY), WaitStep::Retry { log: false });
    assert_eq!(wait_step(40, false, RUNTIME_ATTEMPTS, RUNTIME_LOG_EVERY), WaitStep::Retry { log: true });
    assert_eq!(wait_step(149, false, RUNTIME_ATTEMPTS, RUNTIME_LOG_EVERY), WaitStep::GiveUp { log: false });
    assert_eq!(wait_step(140, false, 141, 20), WaitStep::GiveUp { log: true });
    assert_eq!(wait_step(0, false, 100, 0), WaitStep::Retry { log: false });
    assert_eq!(wait_step(u32::MAX, false, 0, 0), WaitStep::GiveUp { log: false });
}
