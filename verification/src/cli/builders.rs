//! Language builders: what they run and what they require of the toolchain.

use vstd::prelude::*;

use crate::error::{cat2, cat3};
use crate::paths::{joined_path, path_join};
use crate::text::{decimal, owned, push_decimal, push_str, seq_ends_with, str_ends_with, str_eq};
use crate::toolchain::{banner_version, parse_tinygo_version};

verus! {

/// Result of a successful build.
pub struct BuildOutput {
    /// Path to the generated WASM file.
    pub wasm_path: String,
}

/// Builder for Go projects using TinyGo.
pub struct GoBuilder;

/// Builder for Rust projects using cargo-component.
pub struct RustBuilder;

/// A (major, minor) version is older than 0.32, the oldest TinyGo that
/// builds WASI Preview 2 components.
pub open spec fn before_min_tinygo(v: (u32, u32)) -> bool {
    v.0 == 0 && v.1 < 32
}

/// The complaint about a TinyGo that is too old.
pub open spec fn old_tinygo_text(v: (u32, u32)) -> Seq<char> {
    "TinyGo version "@ + decimal(v.0 as nat) + "."@ + decimal(v.1 as nat)
        + " found, but 0.32 or later is required.\n\nUpdate TinyGo: https://tinygo.org/getting-started/install/"@
}

impl GoBuilder {
    /// Judges the banner `tinygo version` printed: a version older than 0.32
    /// is refused; an unreadable banner is accepted.
    pub fn check_version(version_output: &str) -> (r: Result<(), String>)
        ensures
            match banner_version(version_output@) {
                Some(v) => if before_min_tinygo(v) {
                    r matches Err(e) && e@ == old_tinygo_text(v)
                } else {
                    r is Ok
                },
                None => r is Ok,
            },
    {
        match parse_tinygo_version(version_output) {
            Some((major, minor)) => {
                if major == 0 && minor < 32 {
                    let mut e = owned("TinyGo version ");
                    push_decimal(&mut e, major as u64);
                    push_str(&mut e, ".");
                    push_decimal(&mut e, minor as u64);
                    push_str(&mut e, " found, but 0.32 or later is required.\n\nUpdate TinyGo: https://tinygo.org/getting-started/install/");
                    Err(e)
                } else {
                    Ok(())
                }
            },
            None => Ok(()),
        }
    }

    /// The arguments of `tinygo build` for an output file: the WASI
    /// Preview 2 target, optimisation for release builds, the current
    /// directory as the package.
    pub fn build_args(wasm_filename: &str, release: bool) -> (r: Vec<String>)
        ensures
            r@.len() == if release { 6nat } else { 5nat },
            r@[0]@ == "build"@,
            r@[1]@ == "-target=wasip2"@,
            r@[2]@ == "-o"@,
            r@[3]@ == wasm_filename@,
            release ==> r@[4]@ == "-opt=2"@,
            r@[r@.len() - 1]@ == "."@,
    {
        let mut args: Vec<String> = Vec::new();
        args.push(owned("build"));
        args.push(owned("-target=wasip2"));
        args.push(owned("-o"));
        args.push(owned(wasm_filename));
        if release {
            args.push(owned("-opt=2"));
        }
        args.push(owned("."));
        args
    }

    /// The file a Go build writes: the module name and ".wasm".
    pub fn wasm_filename(name: &str) -> (r: String)
        ensures
            r@ == name@ + ".wasm"@,
    {
        cat2(name, ".wasm")
    }
}

impl RustBuilder {
    /// The arguments of `cargo` for a component build, in release mode when asked.
    pub fn build_args(release: bool) -> (r: Vec<String>)
        ensures
            r@.len() == if release { 3nat } else { 2nat },
            r@[0]@ == "component"@,
            r@[1]@ == "build"@,
            release ==> r@[2]@ == "--release"@,
    {
        let mut args: Vec<String> = Vec::new();
        args.push(owned("component"));
        args.push(owned("build"));
        if release {
            args.push(owned("--release"));
        }
        args
    }

    /// The build profile directory: "release" or "debug".
    pub fn profile(release: bool) -> (r: &'static str)
        ensures
            r@ == if release { "release"@ } else { "debug"@ },
    {
        if release { "release" } else { "debug" }
    }
}

/// Source languages a Fabrickfile can name.
#[derive(Debug, Clone, Copy, PartialEq, Eq, Structural)]
pub enum SourceLanguage {
    /// Python.
    Python,
    /// JavaScript.
    Javascript,
    /// Rust.
    Rust,
    /// Go.
    Go,
    /// C#.
    Csharp,
}

/// The builders there are.
#[derive(Debug, Clone, Copy, PartialEq, Eq, Structural)]
pub enum BuilderKind {
    /// Builds Rust with cargo-component.
    Rust,
    /// Packages Python sources.
    Python,
}

/// The refusal for a language without a builder.
pub open spec fn unsupported_builder_text(language: Seq<char>) -> Seq<char> {
    language + " builder is not yet implemented.\nTrack progress at: https://github.com/user/fabricks/issues/XX"@
}

/// The builder for a source language: Rust and Python have one; Go,
/// JavaScript and C# are refused.
pub fn get_builder(language: SourceLanguage) -> (r: Result<BuilderKind, String>)
    ensures
        language == SourceLanguage::Rust ==> r == Ok::<BuilderKind, String>(BuilderKind::Rust),
        language == SourceLanguage::Python ==> r == Ok::<BuilderKind, String>(BuilderKind::Python),
        language == SourceLanguage::Go ==> (r matches Err(e) && e@ == unsupported_builder_text("Go"@)),
        language == SourceLanguage::Javascript ==> (r matches Err(e) && e@ == unsupported_builder_text("JavaScript"@)),
        language == SourceLanguage::Csharp ==> (r matches Err(e) && e@ == unsupported_builder_text("C#"@)),
{
    let suffix = " builder is not yet implemented.\nTrack progress at: https://github.com/user/fabricks/issues/XX";
    match language {
        SourceLanguage::Rust => Ok(BuilderKind::Rust),
        SourceLanguage::Python => Ok(BuilderKind::Python),
        SourceLanguage::Go => Err(cat2("Go", suffix)),
        SourceLanguage::Javascript => Err(cat2("JavaScript", suffix)),
        SourceLanguage::Csharp => Err(cat2("C#", suffix)),
    }
}

/// The report of a failed build command.
pub open spec fn build_failure_text(language: Seq<char>, stdout: Seq<char>, stderr: Seq<char>) -> Seq<char> {
    language + " build failed:\n\nstdout:\n"@ + stdout + "\n\nstderr:\n"@ + stderr
}

/// Reports a failed build command with what it printed.
pub fn build_failure(language: &str, stdout: &str, stderr: &str) -> (r: String)
    ensures
        r@ == build_failure_text(language@, stdout@, stderr@),
{
    let mut m = owned(language);
    push_str(&mut m, " build failed:\n\nstdout:\n");
    push_str(&mut m, stdout);
    push_str(&mut m, "\n\nstderr:\n");
    push_str(&mut m, stderr);
    m
}

/// A directory entry is a WASM module: its extension (the part after the
/// last '.', when that '.' is not the name's first character) is "wasm".
pub open spec fn is_wasm_file_name(name: Seq<char>) -> bool {
    seq_ends_with(name, ".wasm"@) && name.len() > 5
}

/// Whether a file name has the "wasm" extension.
pub fn is_wasm_file(name: &str) -> (r: bool)
    ensures
        r == is_wasm_file_name(name@),
{
    proof { reveal_strlit(".wasm"); }
    str_ends_with(name, ".wasm") && crate::text::chars_of(name).len() > 5
}

impl GoBuilder {
    /// The directory a Go build runs in: the Fabrickfile's directory, or its
    /// `[source].path` below it ("." meaning the directory itself).
    pub fn source_dir(workdir: &str, source_path: Option<&str>) -> (r: String)
        ensures
            match source_path {
                Some(p) => r@ == if p@ == "."@ { workdir@ } else { joined_path(workdir@, p@) },
                None => r@ == workdir@,
            },
    {
        match source_path {
            Some(p) => if str_eq(p, ".") { owned(workdir) } else { path_join(workdir, p) },
            None => owned(workdir),
        }
    }

    /// Judges the toolchain: TinyGo must answer `tinygo version` (its
    /// banner, when it did) and be 0.32 or later, and wasm-tools must be
    /// installed.
    pub fn toolchain_check(tinygo_banner: Option<&str>, wasm_tools_found: bool) -> (r: Result<(), String>)
        ensures
            tinygo_banner is None ==> (r matches Err(e) && e@ == "TinyGo not found.\n\nGo builder requires TinyGo 0.32+.\nInstall: https://tinygo.org/getting-started/install/"@),
            tinygo_banner matches Some(b) ==> match banner_version(b@) {
                Some(v) if before_min_tinygo(v) => r matches Err(e) && e@ == old_tinygo_text(v),
                _ => if wasm_tools_found {
                    r is Ok
                } else {
                    r matches Err(e) && e@ == "wasm-tools not found.\n\nGo builder requires wasm-tools for WASI Preview 2 component generation.\nInstall: cargo install wasm-tools"@
                },
            },
    {
        match tinygo_banner {
            None => Err(owned("TinyGo not found.\n\nGo builder requires TinyGo 0.32+.\nInstall: https://tinygo.org/getting-started/install/")),
            Some(b) => {
                match GoBuilder::check_version(b) {
                    Err(e) => Err(e),
                    Ok(()) => if wasm_tools_found {
                        Ok(())
                    } else {
                        Err(owned("wasm-tools not found.\n\nGo builder requires wasm-tools for WASI Preview 2 component generation.\nInstall: cargo install wasm-tools"))
                    },
                }
            },
        }
    }

    /// The complaint when the build succeeded but left no module behind.
    pub fn missing_output(wasm_path: &str) -> (r: String)
        ensures
            r@ == "TinyGo build succeeded but WASM output not found at: "@ + wasm_path@,
    {
        cat2("TinyGo build succeeded but WASM output not found at: ", wasm_path)
    }
}

impl RustBuilder {
    /// The directory a Rust build runs in: the Fabrickfile's directory, or
    /// its `[source].path` below it.
    pub fn source_dir(workdir: &str, source_path: Option<&str>) -> (r: String)
        ensures
            match source_path {
                Some(p) => r@ == joined_path(workdir@, p@),
                None => r@ == workdir@,
            },
    {
        match source_path {
            Some(p) => path_join(workdir, p),
            None => owned(workdir),
        }
    }

    /// Judges the toolchain: cargo must be installed, and cargo-component
    /// must answer `cargo component --version`.
    pub fn toolchain_check(cargo_found: bool, component_found: bool) -> (r: Result<(), String>)
        ensures
            !cargo_found ==> (r matches Err(e) && e@ == "Rust toolchain not found.\n\nInstall Rust: https://rustup.rs/\nThen install cargo-component: cargo install cargo-component"@),
            cargo_found && !component_found ==> (r matches Err(e) && e@ == "cargo-component not found.\n\nInstall it with: cargo install cargo-component\nDocumentation: https://github.com/bytecodealliance/cargo-component"@),
            cargo_found && component_found ==> r is Ok,
    {
        if !cargo_found {
            Err(owned("Rust toolchain not found.\n\nInstall Rust: https://rustup.rs/\nThen install cargo-component: cargo install cargo-component"))
        } else if !component_found {
            Err(owned("cargo-component not found.\n\nInstall it with: cargo install cargo-component\nDocumentation: https://github.com/bytecodealliance/cargo-component"))
        } else {
            Ok(())
        }
    }

    /// The directories a component build leaves its module in, in the
    /// order they are searched: `target/wasm32-wasip1/<profile>`, then
    /// `target/wasm32-wasi/<profile>`.
    pub fn wasm_output_dirs(source_path: &str, release: bool) -> (r: Vec<String>)
        ensures
            r@.len() == 2,
            r@[0]@ == joined_path(joined_path(joined_path(source_path@, "target"@), "wasm32-wasip1"@),
                if release { "release"@ } else { "debug"@ }),
            r@[1]@ == joined_path(joined_path(joined_path(source_path@, "target"@), "wasm32-wasi"@),
                if release { "release"@ } else { "debug"@ }),
    {
        let profile = RustBuilder::profile(release);
        let target = path_join(source_path, "target");
        let first = path_join(path_join(target.as_str(), "wasm32-wasip1").as_str(), profile);
        let second = path_join(path_join(target.as_str(), "wasm32-wasi").as_str(), profile);
        let mut dirs: Vec<String> = Vec::new();
        dirs.push(first);
        dirs.push(second);
        dirs
    }

    /// The complaint when no module was found after a build.
    pub fn missing_output(target_dir: &str) -> (r: String)
        ensures
            r@ == "Could not find WASM output in "@ + target_dir@
                + "\nMake sure the project is configured to build a WASM component."@,
    {
        cat3("Could not find WASM output in ", target_dir, "\nMake sure the project is configured to build a WASM component.")
    }
}

} // verus!
