//! Where the tool registers a program for notifications: one value under
//! a key of the current user that is named after the program.

use crate::wstring::{terminated_units, WideString};
use vstd::prelude::*;
use vstd::string::*;

verus! {

/// The key, under the current user's root, that holds one subkey for each
/// program that may send notifications. It ends in a backslash.
pub const SETTINGS_KEY: &'static str =
    "SOFTWARE\\Microsoft\\Windows\\CurrentVersion\\Notifications\\Settings\\";

/// The name of the value that lets a program's notifications be shown.
pub const VALUE_NAME: &'static str = "ShowInActionCenter";

/// What that value is set to. It is stored as a 32-bit number.
pub const VALUE_DATA: u32 = 1;

/// The path of a program's subkey: the settings key, then the program's
/// identity as it is.
pub open spec fn registry_subkey_text(identity: Seq<char>) -> Seq<char> {
    SETTINGS_KEY@ + identity
}

/// The path of the subkey of the program with the given identity.
pub fn registry_subkey_path(identity: &str) -> (path: String)
    ensures
        path@ == registry_subkey_text(identity@),
{
    let mut path = String::from_str(SETTINGS_KEY);
    path.append(identity);
    path
}

/// The path of the program's subkey as a terminated wide string, ready to
/// be lent to the registry.
pub fn registry_subkey(identity: &str) -> (subkey: WideString)
    ensures
        subkey@ == terminated_units(registry_subkey_text(identity@)),
{
    let path = registry_subkey_path(identity);
    WideString::from_str(path.as_str())
}

} // verus!
