use darksaber::loader::{c_string, last_error_message, loader_targets};

#[test]
fn targets_default() {
    let t = loader_targets(&vec!["darksaber_loader.exe".to_string()]);
    assert_eq!(t.exe, "Echo.exe");
    assert_eq!(t.dll, "echo.dll");
    let t = loader_targets(&vec![]);
    assert_eq!((t.exe.as_str(), t.dll.as_str()), ("Echo.exe", "echo.dll"));
}

#[test]
fn targets_from_arguments() {
    let args: Vec<String> = vec!["l".into(), "Game.exe".into()];
    let t = loader_targets(&args);
    assert_eq!((t.exe.as_str(), t.dll.as_str()), ("Game.exe", "echo.dll"));
    let args: Vec<String> = vec!["l".into(), "Game.exe".into(), "mod.dll".into(), "extra".into()];
    let t = loader_targets(&args);
    assert_eq!((t.exe.as_str(), t.dll.as_str()), ("Game.exe", "mod.dll"));
}

#[test]
fn c_string_ok_and_nul() {
    assert_eq!(c_string("kernel32.dll"), Ok(b"kernel32.dll\0".to_vec()));
    assert_eq!(c_string("bad\0name"), Err("string contains NUL: bad\0name".to_string()));
}

#[test]
fn error_messages() {
    assert_eq!(
        last_error_message("CreateProcessA", 2),
        "CreateProcessA failed: GetLastError=2"
    );
    assert_eq!(
        last_error_message("VirtualAllocEx", u32::MAX),
        format!("VirtualAllocEx failed: GetLastError={}", u32::MAX)
    );
}
