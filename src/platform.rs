//! The build target's conventions: executable file names, permission fix-up
//! and the quarantine attribute.
use vstd::prelude::*;

verus! {

/// The operating systems the provisioning logic distinguishes.
#[derive(Clone, Copy, Debug, PartialEq, Eq, Structural)]
pub enum Platform {
    Windows,
    MacOs,
    Linux,
}

/// The POSIX mode of an installed binary: read and execute for all, write
/// for the owner.
pub const EXECUTABLE_MODE: u32 = 0o755;

/// The file name of the executable `name` on `platform`.
pub open spec fn spec_binary_file_name(name: Seq<char>, platform: Platform) -> Seq<char> {
    if platform == Platform::Windows {
        name + ".exe"@
    } else {
        name
    }
}

/// The file name of the executable `name`: with the `.exe` suffix on
/// Windows, unchanged elsewhere.
pub fn binary_file_name(name: &str, platform: Platform) -> (r: String)
    ensures
        r@ == spec_binary_file_name(name@, platform),
{
    let mut r = String::from_str(name);
    if platform == Platform::Windows {
        r.append(".exe");
    }
    r
}

/// How the executable permission is set on `platform`: the mode to apply to
/// the file on POSIX systems, nothing where the file system has no such
/// notion.
pub fn set_executable_permission(platform: Platform) -> (r: Option<u32>)
    ensures
        platform == Platform::Windows ==> r is None,
        platform != Platform::Windows ==> r == Some(EXECUTABLE_MODE),
{
    if platform == Platform::Windows {
        None
    } else {
        Some(EXECUTABLE_MODE)
    }
}

/// Whether a downloaded binary carries a quarantine attribute to be cleared
/// on `platform`.
pub fn clears_quarantine(platform: Platform) -> (r: bool)
    ensures
        r == (platform == Platform::MacOs),
{
    platform == Platform::MacOs
}

} // verus!
