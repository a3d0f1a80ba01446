//! The versions this build reports.

use vstd::prelude::*;
use vstd::string::{StringExecFns, StringSliceAdditionalSpecFns};
use vstd::utf8::{decode_utf8, is_char_boundary};

verus! {

/// The version of the engine.
pub const HEARTON_VERSION: &'static str = "0.13.2-hearton.1";

/// The version of the Bevy release that the engine builds on.
pub const BEVY_VERSION: &'static str = "0.13.2";

/// The text of the full version line for a build from the commit whose
/// hash, in UTF-8, starts with `commit_bytes`.
pub open spec fn full_version_text(commit_bytes: Seq<u8>) -> Seq<char> {
    "HeartOn Engine "@ + HEARTON_VERSION@ + " (Bevy "@ + BEVY_VERSION@ + " @ "@ + decode_utf8(
        commit_bytes.subrange(0, 8),
    ) + ")"@
}

/// The full version line: the engine's version, the Bevy version, and the
/// first eight bytes of the hash of the commit that was built.
///
/// The hash must be eight bytes long at least, and its eighth byte must end
/// a character.
pub fn full_version_string(build_commit: &str) -> (line: String)
    requires
        is_char_boundary(build_commit.spec_bytes(), 8),
    ensures
        line@ == full_version_text(build_commit.spec_bytes()),
{
    let (short, _) = build_commit.split_at(8);
    proof {
        vstd::utf8::encode_utf8_decode_utf8(short@);
    }
    let line = String::from_str("HeartOn Engine ");
    let line = line.concat(HEARTON_VERSION);
    let line = line.concat(" (Bevy ");
    let line = line.concat(BEVY_VERSION);
    let line = line.concat(" @ ");
    let line = line.concat(short);
    line.concat(")")
}

} // verus!
