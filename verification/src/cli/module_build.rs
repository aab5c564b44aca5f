//! Building a module: whether it is interpreted, the entrypoint
//! configuration of an interpreted module, and, from its Fabrickfile's
//! `[build]` section, where the build command runs, with what, where its
//! WASM output lands, and how a failed build is reported.

use vstd::prelude::*;

use crate::cli::builders::SourceLanguage;
use crate::paths::{joined_path, path_join};
use crate::policy::model::{names_view, opt_text};
use crate::text::{owned, push_str};

verus! {

/// The `[build]` section of a Fabrickfile.
pub struct BuildSection {
    /// Shell command that builds the module.
    pub command: String,
    /// Directory to run the command in, relative to the module's directory.
    pub workdir: Option<String>,
    /// Path of the WASM file the command produces, relative to the
    /// directory the command runs in.
    pub output: String,
    /// Environment variables to set for the command.
    pub environment: Option<Vec<(String, String)>>,
}

/// How to run a module's build.
pub struct BuildPlan {
    /// The program to run.
    pub program: String,
    /// Its arguments.
    pub args: Vec<String>,
    /// The directory to run it in.
    pub workdir: String,
    /// Environment variables to add, in order.
    pub environment: Vec<(String, String)>,
    /// Where the WASM output is expected.
    pub output_path: String,
}

/// The directory the build command runs in: the module's directory, joined
/// with the section's own directory when it names one.
pub open spec fn build_dir(workdir: Seq<char>, section_workdir: Option<Seq<char>>) -> Seq<char> {
    match section_workdir {
        Some(w) => joined_path(workdir, w),
        None => workdir,
    }
}

/// The error for a Fabrickfile without a `[build]` section.
pub open spec fn no_build_section_text() -> Seq<char> {
    "Fabrickfile has no [build] section"@
}

/// `p` runs the section's command through `sh -c` in the build directory,
/// with the section's environment, and expects the output under that
/// directory.
pub open spec fn plans_build(p: BuildPlan, b: BuildSection, workdir: Seq<char>) -> bool {
    &&& p.program@ == "sh"@
    &&& names_view(p.args@) == seq!["-c"@, b.command@]
    &&& p.workdir@ == build_dir(workdir, opt_text(b.workdir))
    &&& p.environment@ == match b.environment {
        Some(e) => e@,
        None => Seq::<(String, String)>::empty(),
    }
    &&& p.output_path@ == joined_path(p.workdir@, b.output@)
}

fn clone_pairs(v: &Vec<(String, String)>) -> (r: Vec<(String, String)>)
    ensures
        r@ == v@,
{
    let mut out: Vec<(String, String)> = Vec::new();
    let mut i: usize = 0;
    while i < v.len()
        invariant
            i <= v.len(),
            out@ == v@.take(i as int),
        decreases v.len() - i,
    {
        let (k, x) = &v[i];
        out.push((k.clone(), x.clone()));
        assert(out@ =~= v@.take(i + 1));
        i = i + 1;
    }
    assert(v@.take(v.len() as int) =~= v@);
    out
}

/// Plans the build of a module whose directory is `workdir`. A Fabrickfile
/// without a `[build]` section cannot be built.
pub fn build_plan(build: Option<&BuildSection>, workdir: &str) -> (r: Result<BuildPlan, String>)
    ensures
        match build {
            None => r matches Err(e) && e@ == no_build_section_text(),
            Some(b) => r matches Ok(p) && plans_build(p, *b, workdir@),
        },
{
    let b = match build {
        Some(b) => b,
        None => {
            return Err(owned("Fabrickfile has no [build] section"));
        },
    };
    let dir = match &b.workdir {
        Some(w) => path_join(workdir, w.as_str()),
        None => owned(workdir),
    };
    let environment = match &b.environment {
        Some(e) => clone_pairs(e),
        None => Vec::new(),
    };
    let output_path = path_join(dir.as_str(), b.output.as_str());
    let mut args: Vec<String> = Vec::new();
    args.push(owned("-c"));
    args.push(b.command.clone());
    assert(names_view(args@) =~= seq!["-c"@, b.command@]);
    Ok(BuildPlan { program: owned("sh"), args, workdir: dir, environment, output_path })
}

/// The source languages that are interpreted rather than compiled.
pub open spec fn interpreted(language: SourceLanguage) -> bool {
    language == SourceLanguage::Python || language == SourceLanguage::Javascript
}

/// Whether a module is built in interpreted mode: its source language is
/// interpreted and it has no custom `[build]` section.
pub fn is_interpreted_language(source: Option<SourceLanguage>, build: Option<&BuildSection>) -> (r: bool)
    ensures
        r == (source matches Some(l) && interpreted(l) && build is None),
{
    let interpreted_source = match source {
        Some(SourceLanguage::Python) => true,
        Some(SourceLanguage::Javascript) => true,
        _ => false,
    };
    interpreted_source && build.is_none()
}

/// The entrypoint of an interpreted module when its source names none.
pub open spec fn default_entrypoint() -> Seq<char> {
    "app:handler"@
}

/// The configuration file written next to an interpreted module's source,
/// naming its entrypoint.
pub open spec fn entrypoint_config_text(entrypoint: Seq<char>) -> Seq<char> {
    "# Generated by fabricks build\nentrypoint = \""@ + entrypoint + "\"\n"@
}

/// Writes the entrypoint configuration of an interpreted module: the
/// source's entrypoint, or "app:handler" when it names none.
pub fn create_entrypoint_config(entrypoint: Option<&str>) -> (r: String)
    ensures
        r@ == entrypoint_config_text(match entrypoint {
            Some(e) => e@,
            None => default_entrypoint(),
        }),
{
    let e = match entrypoint {
        Some(e) => e,
        None => "app:handler",
    };
    let mut m = owned("# Generated by fabricks build\nentrypoint = \"");
    push_str(&mut m, e);
    push_str(&mut m, "\"\n");
    m
}

/// The report of a build command that failed, with its exit status and
/// what it printed.
pub open spec fn build_command_failure_text(status: Seq<char>, stdout: Seq<char>, stderr: Seq<char>) -> Seq<char> {
    "Build command failed with exit code "@ + status + "\nstdout: "@ + stdout + "\nstderr: "@ + stderr
}

/// Checks how the build command ended: a command that did not succeed is
/// reported with its exit status (as displayed) and what it printed.
pub fn check_build_status(success: bool, status: &str, stdout: &str, stderr: &str) -> (r: Result<(), String>)
    ensures
        success ==> r is Ok,
        !success ==> (r matches Err(e) && e@ == build_command_failure_text(status@, stdout@, stderr@)),
{
    if success {
        return Ok(());
    }
    let mut m = owned("Build command failed with exit code ");
    push_str(&mut m, status);
    push_str(&mut m, "\nstdout: ");
    push_str(&mut m, stdout);
    push_str(&mut m, "\nstderr: ");
    push_str(&mut m, stderr);
    Err(m)
}

/// The report of a build that left no output where it was expected.
pub open spec fn build_output_missing_text(path: Seq<char>) -> Seq<char> {
    "Build output not found: "@ + path + "\nMake sure the build command creates this file."@
}

/// Checks that the build left its output: a missing output is reported with
/// the path where it was expected.
pub fn check_build_output(exists: bool, output_path: &str) -> (r: Result<(), String>)
    ensures
        exists ==> r is Ok,
        !exists ==> (r matches Err(e) && e@ == build_output_missing_text(output_path@)),
{
    if exists {
        return Ok(());
    }
    let mut m = owned("Build output not found: ");
    push_str(&mut m, output_path);
    push_str(&mut m, "\nMake sure the build command creates this file.");
    Err(m)
}

} // verus!
