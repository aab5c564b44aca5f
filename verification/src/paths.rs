//! File-system locations the daemon and the CLI use by default.

use vstd::prelude::*;

use crate::text::owned;

verus! {

/// What `Path::join` gives for a base path and a relative path.
pub uninterp spec fn joined_path(base: Seq<char>, rel: Seq<char>) -> Seq<char>;

/// `std::path::Path::join` (rendered back to text): `rel` appended to
/// `base` with a separator.
#[verifier::external_body]
pub(crate) fn path_join(base: &str, rel: &str) -> (r: String)
    ensures
        r@ == joined_path(base@, rel@),
{
    std::path::Path::new(base).join(rel).to_string_lossy().into_owned()
}

/// `dirs::home_dir`: the user's home directory, if one is known. It comes
/// from the environment, so nothing is stated of it.
#[verifier::external_body]
pub(crate) fn home_dir() -> (r: Option<String>)
{
    dirs::home_dir().map(|p| p.to_string_lossy().into_owned())
}

/// `dirs::data_local_dir`: the user's local data directory, if one is
/// known. It comes from the environment, so nothing is stated of it.
#[verifier::external_body]
pub(crate) fn data_local_dir() -> (r: Option<String>)
{
    dirs::data_local_dir().map(|p| p.to_string_lossy().into_owned())
}

/// The daemon's socket for a user with home directory `home`:
/// `~/.fabricks/fabricks.sock`, or `/tmp/fabricks.sock` without a home.
pub open spec fn socket_path_text(home: Option<Seq<char>>) -> Seq<char> {
    match home {
        Some(h) => joined_path(h, ".fabricks/fabricks.sock"@),
        None => "/tmp/fabricks.sock"@,
    }
}

/// The daemon's socket path for the given home directory.
pub fn socket_path_for(home: Option<String>) -> (r: String)
    ensures
        r@ == socket_path_text(crate::policy::model::opt_text(home)),
{
    match home {
        Some(h) => path_join(h.as_str(), ".fabricks/fabricks.sock"),
        None => owned("/tmp/fabricks.sock"),
    }
}

/// The daemon's data directory: `fabricks` in the local data directory,
/// else `~/.local/share/fabricks`, else `/tmp/fabricks`.
pub open spec fn data_dir_text(data_local: Option<Seq<char>>, home: Option<Seq<char>>) -> Seq<char> {
    match data_local {
        Some(d) => joined_path(d, "fabricks"@),
        None => match home {
            Some(h) => joined_path(h, ".local/share/fabricks"@),
            None => "/tmp/fabricks"@,
        },
    }
}

/// The daemon's data directory for the given local data and home directories.
pub fn data_dir_for(data_local: Option<String>, home: Option<String>) -> (r: String)
    ensures
        r@ == data_dir_text(crate::policy::model::opt_text(data_local), crate::policy::model::opt_text(home)),
{
    match data_local {
        Some(d) => path_join(d.as_str(), "fabricks"),
        None => match home {
            Some(h) => path_join(h.as_str(), ".local/share/fabricks"),
            None => owned("/tmp/fabricks"),
        },
    }
}

/// The default socket path of the current user.
pub fn default_socket_path() -> (r: String)
    ensures
        exists|home: Option<Seq<char>>| r@ == socket_path_text(home),
{
    let home = home_dir();
    socket_path_for(home)
}

/// The default data directory of the current user.
pub fn default_data_dir() -> (r: String)
    ensures
        exists|data_local: Option<Seq<char>>, home: Option<Seq<char>>| r@ == data_dir_text(data_local, home),
{
    let data_local = data_local_dir();
    let home = home_dir();
    data_dir_for(data_local, home)
}

} // verus!
