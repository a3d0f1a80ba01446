//! The name of the platform a build targets.

use vstd::prelude::*;
use vstd::string::StringExecFns;

verus! {

/// The platform's name for a target operating system and a target family,
/// as the compiler names them.
pub open spec fn platform_name(target_os: Seq<char>, target_family: Seq<char>) -> Seq<char> {
    if target_os == "windows"@ {
        "windows"@
    } else if target_os == "linux"@ {
        "linux"@
    } else if target_os == "macos"@ {
        "macos"@
    } else if target_family == "wasm"@ {
        "wasm"@
    } else {
        "unknown"@
    }
}

/// Names the platform of a target: `windows`, `linux` or `macos` by its
/// operating system, else `wasm` by its family, else `unknown`.
pub fn detect_platform(target_os: &str, target_family: &str) -> (name: &'static str)
    ensures
        name@ == platform_name(target_os@, target_family@),
{
    if same_text(target_os, "windows") {
        "windows"
    } else if same_text(target_os, "linux") {
        "linux"
    } else if same_text(target_os, "macos") {
        "macos"
    } else if same_text(target_family, "wasm") {
        "wasm"
    } else {
        "unknown"
    }
}

fn same_text(a: &str, b: &str) -> (same: bool)
    ensures
        same == (a@ == b@),
{
    let left = String::from_str(a);
    let right = String::from_str(b);
    left == right
}

} // verus!
