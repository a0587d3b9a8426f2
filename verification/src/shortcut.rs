//! The Start Menu shortcut that gives the program an identity to send
//! notifications under.

use crate::wstring::{fits, padded_units, WideString, WideStringError};
use vstd::prelude::*;
use vstd::string::*;

verus! {

/// Where the shortcut lies below the directory of the user's application
/// data.
pub const SHORTCUT_LOCATION: &'static str =
    "\\Microsoft\\Windows\\Start Menu\\Programs\\Toaster.lnk";

/// The number of units of the buffer in which the shortcut's path is lent
/// to the shell.
pub const SHORTCUT_BUFFER_SIZE: usize = 256;

/// The path of the shortcut: the directory of the user's application data
/// as it is, then the shortcut's location below it.
pub open spec fn shortcut_path_text(app_data: Seq<char>) -> Seq<char> {
    app_data + SHORTCUT_LOCATION@
}

/// The path of the shortcut below the given directory of application data.
pub fn shortcut_path(app_data: &str) -> (path: String)
    ensures
        path@ == shortcut_path_text(app_data@),
{
    let mut path = String::from_str(app_data);
    path.append(SHORTCUT_LOCATION);
    path
}

/// The shortcut's path in the fixed-size buffer that the shell saves it
/// from. A path that leaves no room for the terminator is rejected.
pub fn shortcut_name(path: &str) -> (name: Result<WideString, WideStringError>)
    ensures
        name.is_ok() <==> fits(path@, SHORTCUT_BUFFER_SIZE as nat),
        name matches Ok(buffer) ==> buffer@ == padded_units(path@, SHORTCUT_BUFFER_SIZE as nat),
        name matches Err(error) ==> error == WideStringError::InvalidArgument,
{
    WideString::from_str_with_size(path, SHORTCUT_BUFFER_SIZE)
}

} // verus!
