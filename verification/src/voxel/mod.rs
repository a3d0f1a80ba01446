//! Voxel worlds, voxel scenes and their files.

use vstd::prelude::*;
use vstd::string::StringExecFns;
use crate::text::{decimal, decimal_text};
use crate::tier::{max_voxels, max_voxels_spec, Tier};

pub mod dummy;
pub mod dummy_renderer;
pub mod loader;
pub mod scene;

verus! {

/// The number of voxels a world of the community edition can hold.
pub const MAX_VOXELS_COMMUNITY: usize = 1_000_000;

/// What is said of a voxel count that exceeds the limit of a tier.
pub open spec fn limit_warning(voxel_count: usize, tier: Tier) -> Seq<char> {
    "Voxel count ("@ + decimal_text(voxel_count as nat) + ") exceeds "@ + tier.name_spec()
        + " tier limit ("@ + decimal_text(max_voxels_spec(tier) as nat)
        + "). Consider upgrading to unlock more voxels."@
}

/// Check that voxel count doesn't exceed tier limits
///
/// Where it does, the answer is the warning to give.
pub fn check_voxel_limits(voxel_count: usize, tier: Tier) -> (warning: Option<String>)
    ensures
        match warning {
            Some(text) => voxel_count > max_voxels_spec(tier) && text@ == limit_warning(
                voxel_count,
                tier,
            ),
            None => voxel_count <= max_voxels_spec(tier),
        },
{
    let max_voxels = max_voxels(tier);

    if voxel_count > max_voxels {
        let count_text = decimal(voxel_count as u64);
        let limit_text = decimal(max_voxels as u64);
        let text = String::from_str("Voxel count (").concat(count_text.as_str()).concat(
            ") exceeds ",
        ).concat(tier.name()).concat(" tier limit (").concat(limit_text.as_str()).concat(
            "). Consider upgrading to unlock more voxels.",
        );
        Some(text)
    } else {
        None
    }
}

} // verus!
