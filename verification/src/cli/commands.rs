//! What the `fabricks` commands decide before they touch the file system,
//! the keyring or the daemon.

use vstd::prelude::*;

use crate::error::cat2;
use crate::text::{chars_of, seq_ends_with, str_ends_with, str_eq, string_of};

use super::args::FileType;

verus! {

/// The file type a file name announces: a Fabrickfile ("Fabrickfile" or a
/// ".fabrickfile" suffix) or a mortar file ("fabricks-mortar.toml" or a
/// "-mortar.toml" suffix).
pub open spec fn file_type_of_name(name: Seq<char>) -> Option<FileType> {
    if name == "Fabrickfile"@ || seq_ends_with(name, ".fabrickfile"@) {
        Some(FileType::Fabrickfile)
    } else if name == "fabricks-mortar.toml"@ || seq_ends_with(name, "-mortar.toml"@) {
        Some(FileType::Mortar)
    } else {
        None
    }
}

/// Detects the type of a configuration file from its name.
pub fn file_type_for_name(filename: &str) -> (r: Option<FileType>)
    ensures
        r == file_type_of_name(filename@),
{
    if str_eq(filename, "Fabrickfile") || str_ends_with(filename, ".fabrickfile") {
        Some(FileType::Fabrickfile)
    } else if str_eq(filename, "fabricks-mortar.toml") || str_ends_with(filename, "-mortar.toml") {
        Some(FileType::Mortar)
    } else {
        None
    }
}

/// Detects the type of configuration in a directory from the files it
/// holds: a mortar file wins over a Fabrickfile.
pub fn file_type_in_dir(has_fabrickfile: bool, has_mortar: bool) -> (r: Option<FileType>)
    ensures
        has_mortar ==> r == Some(FileType::Mortar),
        !has_mortar && has_fabrickfile ==> r == Some(FileType::Fabrickfile),
        !has_mortar && !has_fabrickfile ==> r is None,
{
    if has_mortar {
        Some(FileType::Mortar)
    } else if has_fabrickfile {
        Some(FileType::Fabrickfile)
    } else {
        None
    }
}

/// The line the logout command prints.
pub open spec fn logout_text(registry: Seq<char>, removed: bool) -> Seq<char> {
    if removed { "✓ Logged out from "@ + registry } else { "No credentials found for "@ + registry }
}

/// The logout command's report: whether credentials were removed.
pub fn logout_message(registry: &str, removed: bool) -> (r: String)
    ensures
        r@ == logout_text(registry@, removed),
{
    if removed {
        cat2("✓ Logged out from ", registry)
    } else {
        cat2("No credentials found for ", registry)
    }
}

/// The version command's line: "fabricks" and the version.
pub fn version_message(version: &str) -> (r: String)
    ensures
        r@ == "fabricks "@ + version@,
{
    cat2("fabricks ", version)
}

/// The `KEY=VALUE` assignment in `s`, split at its first '=': `None` when
/// there is no '='.
pub open spec fn env_assignment(s: Seq<char>) -> Option<(Seq<char>, Seq<char>)> {
    if s.contains('=') {
        let i = choose|i: int| 0 <= i < s.len() && s[i] == '=' && forall|j: int| 0 <= j < i ==> s[j] != '=';
        Some((s.take(i), s.skip(i + 1)))
    } else {
        None
    }
}

/// The assignments among `args`, in order, skipping those with no '='.
pub open spec fn env_assignments(args: Seq<Seq<char>>) -> Seq<(Seq<char>, Seq<char>)>
    decreases args.len(),
{
    if args.len() == 0 {
        Seq::empty()
    } else {
        let rest = env_assignments(args.drop_last());
        match env_assignment(args.last()) {
            Some(a) => rest.push(a),
            None => rest,
        }
    }
}

/// Splits one `KEY=VALUE` argument at its first '='.
fn split_assignment(arg: &str) -> (r: Option<(String, String)>)
    ensures
        match env_assignment(arg@) {
            Some((k, v)) => r matches Some((rk, rv)) && rk@ == k && rv@ == v,
            None => r is None,
        },
{
    let cs = chars_of(arg);
    let mut i: usize = 0;
    while i < cs.len()
        invariant
            cs@ == arg@,
            i <= cs.len(),
            forall|j: int| 0 <= j < i ==> cs@[j] != '=',
        decreases cs.len() - i,
    {
        if cs[i] == '=' {
            let mut key: Vec<char> = Vec::new();
            let mut value: Vec<char> = Vec::new();
            let mut k: usize = 0;
            while k < i
                invariant
                    k <= i < cs.len(),
                    key@ == cs@.take(k as int),
                decreases i - k,
            {
                key.push(cs[k]);
                assert(key@ =~= cs@.take(k + 1));
                k = k + 1;
            }
            let mut m: usize = i + 1;
            while m < cs.len()
                invariant
                    i + 1 <= m <= cs.len(),
                    value@ == cs@.subrange(i + 1, m as int),
                decreases cs.len() - m,
            {
                value.push(cs[m]);
                assert(value@ =~= cs@.subrange(i + 1, m + 1));
                m = m + 1;
            }
            proof {
                let s = arg@;
                assert(s.contains('=')) by {
                    assert(s[i as int] == '=');
                }
                let c = choose|c: int| 0 <= c < s.len() && s[c] == '=' && forall|j: int| 0 <= j < c ==> s[j] != '=';
                if c < i {
                    assert(s[c] != '=');
                }
                if c > i {
                    assert(s[i as int] != '=');
                }
                assert(c == i);
                assert(value@ =~= s.skip(i + 1));
            }
            return Some((string_of(&key), string_of(&value)));
        }
        i = i + 1;
    }
    proof {
        if arg@.contains('=') {
            let j = choose|j: int| 0 <= j < arg@.len() && arg@[j] == '=';
            assert(cs@[j] != '=');
        }
    }
    None
}

/// The environment overrides given as `KEY=VALUE` arguments, in order;
/// arguments with no '=' are skipped.
pub fn parse_env_assignments(args: &Vec<String>) -> (r: Vec<(String, String)>)
    ensures
        r@.map_values(|p: (String, String)| (p.0@, p.1@))
            == env_assignments(args@.map_values(|s: String| s@)),
{
    let ghost av = args@.map_values(|s: String| s@);
    let mut out: Vec<(String, String)> = Vec::new();
    let mut i: usize = 0;
    while i < args.len()
        invariant
            i <= args@.len(),
            av == args@.map_values(|s: String| s@),
            out@.map_values(|p: (String, String)| (p.0@, p.1@)) == env_assignments(av.take(i as int)),
        decreases args.len() - i,
    {
        proof {
            assert(av.take(i + 1).drop_last() =~= av.take(i as int));
            assert(av.take(i + 1).last() == args@[i as int]@);
        }
        match split_assignment(args[i].as_str()) {
            Some(pair) => {
                let ghost before = out@;
                out.push(pair);
                assert(out@.map_values(|p: (String, String)| (p.0@, p.1@))
                    =~= before.map_values(|p: (String, String)| (p.0@, p.1@)).push((pair.0@, pair.1@)));
            },
            None => {},
        }
        i = i + 1;
    }
    assert(av.take(av.len() as int) =~= av);
    out
}

/// A login field must not be empty: "<label> cannot be empty" otherwise.
pub fn required_field(value: &str, label: &str) -> (r: Result<(), String>)
    ensures
        value@.len() > 0 ==> r is Ok,
        value@.len() == 0 ==> (r matches Err(m) && m@ == label@ + " cannot be empty"@),
{
    if chars_of(value).len() == 0 {
        Err(cat2(label, " cannot be empty"))
    } else {
        Ok(())
    }
}

/// "✓ Logged in to <registry>".
pub fn logged_in_message(registry: &str) -> (r: String)
    ensures
        r@ == "\u{2713} Logged in to "@ + registry@,
{
    cat2("\u{2713} Logged in to ", registry)
}

} // verus!
