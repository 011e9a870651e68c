//! The loader's own logic: which game and which DLL it starts, the C strings
//! it hands to the system, and its error messages.

use vstd::prelude::*;
use crate::text::{dec, push_dec};
use crate::install::to_cstr;
use vstd::string::StringSliceAdditionalSpecFns;

verus! {

/// The game executable and the DLL the loader works with.
pub struct LoaderTargets {
    pub exe: String,
    pub dll: String,
}

/// The executable: the first argument after the program name, or `Echo.exe`.
pub open spec fn target_exe(args: Seq<String>) -> Seq<char> {
    if args.len() > 1 {
        args[1]@
    } else {
        "Echo.exe"@
    }
}

/// The DLL: the second argument after the program name, or `echo.dll`.
pub open spec fn target_dll(args: Seq<String>) -> Seq<char> {
    if args.len() > 2 {
        args[2]@
    } else {
        "echo.dll"@
    }
}

/// Reads the targets from the command line (`args[0]` is the program).
pub fn loader_targets(args: &Vec<String>) -> (res: LoaderTargets)
    ensures
        res.exe@ == target_exe(args@),
        res.dll@ == target_dll(args@),
{
    let exe = if args.len() > 1 {
        args[1].clone()
    } else {
        String::from_str("Echo.exe")
    };
    let dll = if args.len() > 2 {
        args[2].clone()
    } else {
        String::from_str("echo.dll")
    };
    LoaderTargets { exe, dll }
}

/// The message for a string that cannot be handed to the system.
pub open spec fn nul_message(s: Seq<char>) -> Seq<char> {
    "string contains NUL: "@ + s
}

/// `s` as a zero-terminated C string; refused when `s` holds a NUL.
pub fn c_string(s: &str) -> (res: Result<Vec<u8>, String>)
    ensures
        s@.contains('\0') ==> (res matches Err(e) && e@ == nul_message(s@)),
        !s@.contains('\0') ==> (res matches Ok(b) && b@ == s.spec_bytes().push(0u8)),
{
    let n = s.unicode_len();
    let mut i: usize = 0;
    while i < n
        invariant
            n == s@.len(),
            i <= n,
            forall|j: int| 0 <= j < i ==> s@[j] != '\0',
        decreases n - i,
    {
        if s.get_char(i) == '\0' {
            let mut e = String::from_str("string contains NUL: ");
            e.append(s);
            return Err(e);
        }
        i = i + 1;
    }
    Ok(to_cstr(s))
}

/// The message for a failed system call: the call, then the error code.
pub open spec fn failure_message(context: Seq<char>, code: u32) -> Seq<char> {
    context + " failed: GetLastError="@ + dec(code as nat)
}

/// The message for a failed system call.
pub fn last_error_message(context: &str, code: u32) -> (res: String)
    ensures
        res@ == failure_message(context@, code),
{
    let mut s = String::from_str(context);
    s.append(" failed: GetLastError=");
    push_dec(&mut s, code as u64);
    s
}

} // verus!
