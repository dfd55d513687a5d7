//! Placement of an embedded native library on disk.
//!
//! A build may carry the native library inside its own binary.  At first
//! use the payload for the running platform is written next to the
//! executable, or — when that directory cannot be written — into a
//! temporary directory that is then put on the dynamic loader's search
//! path.  The writing itself is I/O and happens outside this crate; the
//! decisions are made here.

use vstd::prelude::*;
use vstd::string::*;
use crate::error::ZipError;
use crate::platform::TargetOs;

verus! {

/// Where the extracted native library ends up.
#[derive(Debug)]
pub struct LibraryLocation {
    /// The full path of the extracted library file.
    pub path: String,
    /// Whether the file sits in a temporary directory, so that the
    /// loader's search path must be extended to reach it.
    pub uses_temp_dir: bool,
}

/// Join a directory and a file name with the platform's separator.
pub fn join_path(dir: &str, sep: &str, file: &str) -> (r: String)
    ensures
        r@ == dir@ + sep@ + file@,
{
    let mut s = String::from_str(dir);
    s.append(sep);
    s.append(file);
    assert(s@ =~= dir@ + sep@ + file@);
    s
}

/// Put a directory in front of a search-path list: alone if the list
/// was empty, otherwise separated from the rest.
pub fn prepend_search_path(dir: &str, sep: &str, current: &str) -> (r: String)
    ensures
        current@.len() == 0 ==> r@ == dir@,
        current@.len() > 0 ==> r@ == dir@ + sep@ + current@,
{
    if current.is_empty() {
        String::from_str(dir)
    } else {
        join_path(dir, sep, current)
    }
}

/// The environment variable through which the dynamic loader of each
/// operating system finds shared libraries.
pub fn search_path_var(os: TargetOs) -> (r: Option<&'static str>)
    ensures
        os is Windows ==> (r matches Some(v) && v@ == "PATH"@),
        os is Linux ==> (r matches Some(v) && v@ == "LD_LIBRARY_PATH"@),
        os is MacOs ==> (r matches Some(v) && v@ == "DYLD_LIBRARY_PATH"@),
        os is Other ==> r is None,
{
    match os {
        TargetOs::Windows => Some("PATH"),
        TargetOs::Linux => Some("LD_LIBRARY_PATH"),
        TargetOs::MacOs => Some("DYLD_LIBRARY_PATH"),
        TargetOs::Other => None,
    }
}

/// The separator between the elements of a search-path list.
pub fn search_path_separator(os: TargetOs) -> (r: &'static str)
    ensures
        os is Windows ==> r@ == ";"@,
        !(os is Windows) ==> r@ == ":"@,
{
    match os {
        TargetOs::Windows => ";",
        TargetOs::Linux => ":",
        TargetOs::MacOs => ":",
        TargetOs::Other => ":",
    }
}

/// Decide where the embedded library goes, given what the shell found
/// out: whether a payload exists for the platform, whether the
/// executable's directory is known and writable, and where a temporary
/// directory would be.  A missing payload and an unknown executable
/// directory are the two failures; otherwise the library lands next to
/// the executable when possible and in the temporary directory when
/// not.
pub fn plan_library_load(
    has_embedded: bool,
    platform: &str,
    exe_dir: Option<&str>,
    exe_write_ok: bool,
    temp_dir: &str,
    path_sep: &str,
    filename: &str,
) -> (r: Result<LibraryLocation, ZipError>)
    ensures
        !has_embedded ==> (r matches Err(e) && (e matches ZipError::Unknown(m)
            && m@ == "No embedded library found for platform: "@ + platform@)),
        has_embedded && exe_dir is None ==> (r matches Err(e) && (e matches ZipError::Unknown(m)
            && m@ == "Failed to get executable directory"@)),
        has_embedded && exe_dir is Some && exe_write_ok ==> (r matches Ok(loc)
            && loc.path@ == exe_dir->0@ + path_sep@ + filename@ && !loc.uses_temp_dir),
        has_embedded && exe_dir is Some && !exe_write_ok ==> (r matches Ok(loc)
            && loc.path@ == temp_dir@ + path_sep@ + filename@ && loc.uses_temp_dir),
{
    if !has_embedded {
        let mut m = String::from_str("No embedded library found for platform: ");
        m.append(platform);
        return Err(ZipError::Unknown(m));
    }
    match exe_dir {
        None => Err(ZipError::Unknown(String::from_str("Failed to get executable directory"))),
        Some(d) => {
            if exe_write_ok {
                Ok(LibraryLocation { path: join_path(d, path_sep, filename), uses_temp_dir: false })
            } else {
                Ok(
                    LibraryLocation {
                        path: join_path(temp_dir, path_sep, filename),
                        uses_temp_dir: true,
                    },
                )
            }
        },
    }
}

/// Get the path to the extracted library.
pub fn get_library_path(location: &LibraryLocation) -> (r: &str)
    ensures
        r@ == location.path@,
{
    location.path.as_str()
}

/// Initialize the embedded library loader.  In a build that carries no
/// embedded payload there is nothing to extract, so this succeeds at
/// once; a build with a payload runs [`plan_library_load`] instead.
pub fn initialize() -> (r: Result<(), ZipError>)
    ensures
        r is Ok,
{
    Ok(())
}

/// Ensure the embedded library is initialized.
pub fn ensure_initialized() -> (r: Result<(), ZipError>)
    ensures
        r is Ok,
{
    initialize()
}

} // verus!
