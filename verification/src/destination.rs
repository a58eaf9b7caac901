//! Where a descriptor is installed.
//!
//! A descriptor named `<name>.desktop` goes into one of two directories: the
//! user's own, below the home directory, or the one that all users share.
//! Both paths are plain joins; nothing here looks at the disk.

use vstd::prelude::*;

verus! {

/// The file name of the descriptor for an application of this name.
pub open spec fn file_name(name: Seq<char>) -> Seq<char> {
    name + ".desktop"@
}

/// The path of the descriptor that all users see.
pub open spec fn system_path(name: Seq<char>) -> Seq<char> {
    "/usr/share/applications/"@ + file_name(name)
}

/// The path of the descriptor that only the user with this home directory sees.
pub open spec fn user_path(home_dir: Seq<char>, name: Seq<char>) -> Seq<char> {
    home_dir + "/.local/share/applications/"@ + file_name(name)
}

/// The system-wide destination, `/usr/share/applications/<name>.desktop`.
pub fn system_destination(name: &str) -> (path: String)
    ensures
        path@ == system_path(name@),
{
    let mut path = String::from_str("/usr/share/applications/");
    path.append(name);
    path.append(".desktop");
    assert(path@ =~= system_path(name@));
    path
}

/// The per-user destination,
/// `<home_dir>/.local/share/applications/<name>.desktop`.
pub fn user_destination(home_dir: &str, name: &str) -> (path: String)
    ensures
        path@ == user_path(home_dir@, name@),
{
    let mut path = String::from_str(home_dir);
    path.append("/.local/share/applications/");
    path.append(name);
    path.append(".desktop");
    assert(path@ =~= user_path(home_dir@, name@));
    path
}

/// Whether `home_dir` is the superuser's home, `/root`. A program that runs
/// with raised privilege finds this in place of the home of the user who
/// started it, so a per-user descriptor would land in the wrong place.
pub fn is_superuser_home(home_dir: &str) -> (is_root: bool)
    ensures
        is_root == (home_dir@ == "/root"@),
{
    String::from_str(home_dir) == String::from_str("/root")
}

} // verus!
