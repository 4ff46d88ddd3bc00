//! The rules of the `registry` module (Windows registry access).

use vstd::prelude::*;
use vstd::string::*;

use crate::text::{owned, str_eq, to_uppercase, upper_case};

verus! {

/// A predefined registry hive.
#[derive(Clone, Copy, PartialEq, Eq, Structural, Debug)]
pub enum RootKey {
    CurrentUser,
    LocalMachine,
    ClassesRoot,
    Users,
    CurrentConfig,
}

/// The hive an uppercase root name denotes: its short or its long name.
pub open spec fn root_key_named(upper: Seq<char>) -> Option<RootKey> {
    if upper == "HKCU"@ || upper == "HKEY_CURRENT_USER"@ {
        Some(RootKey::CurrentUser)
    } else if upper == "HKLM"@ || upper == "HKEY_LOCAL_MACHINE"@ {
        Some(RootKey::LocalMachine)
    } else if upper == "HKCR"@ || upper == "HKEY_CLASSES_ROOT"@ {
        Some(RootKey::ClassesRoot)
    } else if upper == "HKU"@ || upper == "HKEY_USERS"@ {
        Some(RootKey::Users)
    } else if upper == "HKCC"@ || upper == "HKEY_CURRENT_CONFIG"@ {
        Some(RootKey::CurrentConfig)
    } else {
        None
    }
}

/// The hive a script names, in any letter case; `None` for an unknown name.
pub fn get_hkey(name: &str) -> (res: Option<RootKey>)
    ensures
        res == root_key_named(upper_case(name@)),
{
    let upper = to_uppercase(name);
    let u = upper.as_str();
    if str_eq(u, "HKCU") || str_eq(u, "HKEY_CURRENT_USER") {
        Some(RootKey::CurrentUser)
    } else if str_eq(u, "HKLM") || str_eq(u, "HKEY_LOCAL_MACHINE") {
        Some(RootKey::LocalMachine)
    } else if str_eq(u, "HKCR") || str_eq(u, "HKEY_CLASSES_ROOT") {
        Some(RootKey::ClassesRoot)
    } else if str_eq(u, "HKU") || str_eq(u, "HKEY_USERS") {
        Some(RootKey::Users)
    } else if str_eq(u, "HKCC") || str_eq(u, "HKEY_CURRENT_CONFIG") {
        Some(RootKey::CurrentConfig)
    } else {
        None
    }
}

/// The key under which policies for `subkey` are stored.
pub open spec fn policy_path_text(subkey: Seq<char>) -> Seq<char> {
    "SOFTWARE\\Policies\\"@ + subkey
}

/// Where a policy value for `subkey` is written: the local-machine hive,
/// under `SOFTWARE\Policies\<subkey>`.
pub fn policy_location(subkey: &str) -> (res: (RootKey, String))
    ensures
        res.0 == RootKey::LocalMachine,
        res.1@ == policy_path_text(subkey@),
{
    let mut path = owned("SOFTWARE\\Policies\\");
    path.append(subkey);
    (RootKey::LocalMachine, path)
}

} // verus!

verus! {

/// Each hive is found by its short and by its long name, and the names of
/// different hives are different.
pub proof fn lemma_root_key_names()
    ensures
        root_key_named("HKCU"@) == Some(RootKey::CurrentUser),
        root_key_named("HKEY_CURRENT_USER"@) == Some(RootKey::CurrentUser),
        root_key_named("HKLM"@) == Some(RootKey::LocalMachine),
        root_key_named("HKEY_LOCAL_MACHINE"@) == Some(RootKey::LocalMachine),
        root_key_named("HKCR"@) == Some(RootKey::ClassesRoot),
        root_key_named("HKEY_CLASSES_ROOT"@) == Some(RootKey::ClassesRoot),
        root_key_named("HKU"@) == Some(RootKey::Users),
        root_key_named("HKEY_USERS"@) == Some(RootKey::Users),
        root_key_named("HKCC"@) == Some(RootKey::CurrentConfig),
        root_key_named("HKEY_CURRENT_CONFIG"@) == Some(RootKey::CurrentConfig),
{
    reveal_strlit("HKCU");
    reveal_strlit("HKEY_CURRENT_USER");
    reveal_strlit("HKLM");
    reveal_strlit("HKEY_LOCAL_MACHINE");
    reveal_strlit("HKCR");
    reveal_strlit("HKEY_CLASSES_ROOT");
    reveal_strlit("HKU");
    reveal_strlit("HKEY_USERS");
    reveal_strlit("HKCC");
    reveal_strlit("HKEY_CURRENT_CONFIG");
    assert("HKCU"@.len() == 4 && "HKLM"@.len() == 4 && "HKCR"@.len() == 4 && "HKCC"@.len() == 4);
    assert("HKU"@.len() == 3 && "HKEY_USERS"@.len() == 10);
    assert("HKEY_CURRENT_USER"@.len() == 17 && "HKEY_LOCAL_MACHINE"@.len() == 18);
    assert("HKEY_CLASSES_ROOT"@.len() == 17 && "HKEY_CURRENT_CONFIG"@.len() == 19);
    assert("HKCU"@[2] == 'C' && "HKCU"@[3] == 'U');
    assert("HKLM"@[2] == 'L');
    assert("HKCR"@[2] == 'C' && "HKCR"@[3] == 'R');
    assert("HKCC"@[2] == 'C' && "HKCC"@[3] == 'C');
    assert("HKEY_CURRENT_USER"@[6] == 'U' && "HKEY_CLASSES_ROOT"@[6] == 'L');
}

/// Only those ten names denote a hive.
pub proof fn lemma_root_key_only_names(upper: Seq<char>)
    requires
        upper != "HKCU"@,
        upper != "HKEY_CURRENT_USER"@,
        upper != "HKLM"@,
        upper != "HKEY_LOCAL_MACHINE"@,
        upper != "HKCR"@,
        upper != "HKEY_CLASSES_ROOT"@,
        upper != "HKU"@,
        upper != "HKEY_USERS"@,
        upper != "HKCC"@,
        upper != "HKEY_CURRENT_CONFIG"@,
    ensures
        root_key_named(upper) is None,
{
}

/// A policy key lies under `SOFTWARE\Policies\`, followed by the subkey.
pub proof fn lemma_policy_path(subkey: Seq<char>)
    ensures
        policy_path_text(subkey).len() == 18 + subkey.len(),
        policy_path_text(subkey).subrange(0, 18) == "SOFTWARE\\Policies\\"@,
        policy_path_text(subkey).subrange(18, (18 + subkey.len()) as int) == subkey,
{
    reveal_strlit("SOFTWARE\\Policies\\");
    assert(policy_path_text(subkey).subrange(0, 18) =~= "SOFTWARE\\Policies\\"@);
    assert(policy_path_text(subkey).subrange(18, (18 + subkey.len()) as int) =~= subkey);
}

} // verus!
