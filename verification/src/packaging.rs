//! Where the compiled extension library is found after a build, and how the
//! build is started. The names follow the build tool's layout: a directory
//! per profile under `target`, and a file name made of the platform's
//! prefix, the library's name and the platform's suffix.

use vstd::prelude::*;

verus! {

/// The library's name, without the platform's prefix and suffix.
pub const LIBRARY_STEM: &'static str = "gdiroh";

/// The directory of a build profile's output.
pub open spec fn profile_dir_text(release_build: bool) -> Seq<char> {
    if release_build {
        "release"@
    } else {
        "debug"@
    }
}

/// The file name of the compiled library on a platform with the given prefix and suffix.
pub open spec fn library_name_text(prefix: Seq<char>, suffix: Seq<char>) -> Seq<char> {
    prefix + LIBRARY_STEM@ + suffix
}

/// The path of the compiled library below the project's root.
pub open spec fn library_path_text(release_build: bool, library_name: Seq<char>) -> Seq<char> {
    "target/"@ + profile_dir_text(release_build) + "/"@ + library_name
}

/// The directory of a build profile's output: `release` or `debug`.
pub fn profile_dir(release_build: bool) -> (dir: &'static str)
    ensures
        dir@ == profile_dir_text(release_build),
{
    if release_build {
        "release"
    } else {
        "debug"
    }
}

/// The file name of the compiled library: prefix, [`LIBRARY_STEM`], suffix.
pub fn library_name(prefix: &str, suffix: &str) -> (name: String)
    ensures
        name@ == library_name_text(prefix@, suffix@),
{
    String::from_str(prefix).concat(LIBRARY_STEM).concat(suffix)
}

/// The path of the compiled library below the project's root:
/// `target/<profile>/<library name>`.
pub fn library_path(release_build: bool, library_name: &str) -> (path: String)
    ensures
        path@ == library_path_text(release_build, library_name@),
{
    String::from_str("target/").concat(profile_dir(release_build)).concat("/").concat(
        library_name,
    )
}

/// The arguments that start the build: `build`, followed by `--release`
/// for a release build and by nothing otherwise.
pub fn build_arguments(release_build: bool) -> (arguments: Vec<&'static str>)
    ensures
        arguments@.len() == if release_build {
            2int
        } else {
            1int
        },
        arguments@[0]@ == "build"@,
        release_build ==> arguments@[1]@ == "--release"@,
{
    let mut arguments: Vec<&'static str> = Vec::new();
    arguments.push("build");
    if release_build {
        arguments.push("--release");
    }
    arguments
}

} // verus!
