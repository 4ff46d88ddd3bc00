//! The rules of the `os` module.

use vstd::prelude::*;

use crate::text::{owned, str_eq};

verus! {

/// The name `os.type()` gives for a target operating system.
pub open spec fn os_type_text(target_os: Seq<char>) -> Seq<char> {
    if target_os == "windows"@ {
        "Windows_NT"@
    } else if target_os == "linux"@ {
        "Linux"@
    } else if target_os == "macos"@ {
        "Darwin"@
    } else {
        target_os
    }
}

/// The operating-system name of `os.type()` for the target `target_os`
/// (as `std::env::consts::OS` names it): the names Node.js uses for Windows,
/// Linux and macOS, and the target's own name otherwise.
pub fn os_type(target_os: &str) -> (res: String)
    ensures
        res@ == os_type_text(target_os@),
{
    if str_eq(target_os, "windows") {
        owned("Windows_NT")
    } else if str_eq(target_os, "linux") {
        owned("Linux")
    } else if str_eq(target_os, "macos") {
        owned("Darwin")
    } else {
        owned(target_os)
    }
}

/// The text of an optional value, or nothing.
pub open spec fn or_empty(v: Option<String>) -> Seq<char> {
    match v {
        Some(s) => s@,
        None => Seq::empty(),
    }
}

/// The home directory `os.homedir()` reports, from the environment: on
/// Windows `USERPROFILE`, else `HOME`; elsewhere `HOME`; empty when unset.
pub fn home_dir(windows: bool, userprofile: Option<String>, home: Option<String>) -> (res: String)
    ensures
        res@ == (if windows && userprofile is Some {
            or_empty(userprofile)
        } else {
            or_empty(home)
        }),
{
    if windows {
        if let Some(p) = userprofile {
            return p;
        }
    }
    match home {
        Some(h) => h,
        None => String::new(),
    }
}

} // verus!

verus! {

/// `os.type()` names Windows `Windows_NT`, Linux `Linux` and macOS
/// `Darwin`, and passes any other target's name through.
pub proof fn lemma_os_type_names(other: Seq<char>)
    ensures
        os_type_text("windows"@) == "Windows_NT"@,
        os_type_text("linux"@) == "Linux"@,
        os_type_text("macos"@) == "Darwin"@,
        other != "windows"@ && other != "linux"@ && other != "macos"@ ==> os_type_text(other) == other,
{
    reveal_strlit("windows");
    reveal_strlit("linux");
    reveal_strlit("macos");
    assert("windows"@.len() == 7 && "linux"@.len() == 5 && "macos"@.len() == 5);
    assert("linux"@[0] == 'l' && "macos"@[0] == 'm');
}

} // verus!
