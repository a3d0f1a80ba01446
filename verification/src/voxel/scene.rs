//! Voxel scene asset definition

use vstd::prelude::*;
use vstd::string::{StringExecFns, StringSliceAdditionalSpecFns};
use vstd::utf8::encode_utf8;
use crate::tier::{max_voxels, max_voxels_spec, Tier};

verus! {

/// Voxel scene asset that can be loaded from .hvox files
#[derive(Debug, Clone)]
pub struct VoxelScene {
    /// Scene metadata
    pub metadata: VoxelMetadata,
    /// Voxel data (tier-dependent)
    pub voxel_data: VoxelData,
}

/// Metadata about the voxel scene
#[derive(Debug)]
pub struct VoxelMetadata {
    /// Scene name
    pub name: String,
    /// Grid dimensions (width, height, depth)
    pub dimensions: (u32, u32, u32),
    /// Total voxel count
    pub voxel_count: usize,
    /// World origin position: the bits of its x, y and z, each a 32-bit
    /// IEEE 754 number
    pub origin: [u32; 3],
}

impl Clone for VoxelMetadata {
    fn clone(&self) -> (copy: Self)
        ensures
            copy == *self,
    {
        VoxelMetadata {
            name: self.name.clone(),
            dimensions: (self.dimensions.0, self.dimensions.1, self.dimensions.2),
            voxel_count: self.voxel_count,
            origin: self.origin,
        }
    }
}

/// Voxel data storage (tier-dependent)
#[derive(Debug, Clone)]
pub enum VoxelData {
    /// Community Edition - simple array (10M limit)
    Community(CommunityVoxelData),
    /// Professional Edition - compressed SVDAG
    Professional(ProfessionalVoxelData),
}

/// Community Edition voxel storage
#[derive(Debug, Clone)]
pub struct CommunityVoxelData {
    /// Voxel array (up to 10M)
    pub voxels: Vec<Voxel>,
}

/// Professional Edition voxel storage
#[derive(Debug, Clone)]
pub struct ProfessionalVoxelData {
    /// SVDAG compressed data
    pub compressed_data: Vec<u8>,
}

/// Individual voxel definition
#[derive(Debug, Clone, Copy)]
pub struct Voxel {
    /// Grid position (supports up to 65,536³ grid)
    pub position: [u16; 3],
    /// RGBA color
    pub color: [u8; 4],
    /// Material ID for shading
    pub material_id: u8,
}

/// Voxel scene errors
#[derive(Debug)]
pub enum VoxelError {
    /// Scene exceeds tier voxel limit
    TierLimitReached {
        /// Current voxel count
        current: usize,
        /// Tier limit
        limit: usize,
        /// Current tier
        tier: Tier,
    },
    /// Invalid voxel data format
    InvalidData(String),
}

/// The two bytes of a 16-bit number, the low one first.
pub open spec fn le_bytes_of_u16(x: u16) -> Seq<u8> {
    seq![(x % 256) as u8, (x / 256) as u8]
}

/// The four bytes of a 32-bit number, the lowest first.
pub open spec fn le_bytes_of_u32(x: u32) -> Seq<u8> {
    seq![
        (x % 256) as u8,
        (x / 0x100 % 256) as u8,
        (x / 0x1_0000 % 256) as u8,
        (x / 0x100_0000) as u8,
    ]
}

/// The bytes `HVOX` that every scene file starts with.
pub open spec fn hvox_magic() -> Seq<u8> {
    seq![0x48u8, 0x56u8, 0x4Fu8, 0x58u8]
}

/// The version of the scene file format.
pub const HVOX_VERSION: u32 = 1;

/// The length of the header of a scene file, in bytes.
pub const HVOX_HEADER_SIZE: usize = 64;

/// The length of one voxel in a scene file, in bytes.
pub const HVOX_VOXEL_SIZE: usize = 11;

/// The most bytes of a scene's name that a scene file keeps.
pub const HVOX_NAME_LIMIT: usize = 27;

/// The part of a name's bytes that a scene file keeps.
pub open spec fn hvox_name(name: Seq<u8>) -> Seq<u8> {
    if name.len() <= HVOX_NAME_LIMIT {
        name
    } else {
        name.take(HVOX_NAME_LIMIT as int)
    }
}

/// The header of the scene file of a scene: magic, version, dimensions,
/// voxel count, origin and name, filled up with zeros to 64 bytes.
///
/// A count beyond 32 bits is cut down to its low 32 bits.
pub open spec fn hvox_header(metadata: VoxelMetadata) -> Seq<u8> {
    let fixed = hvox_magic() + le_bytes_of_u32(HVOX_VERSION) + le_bytes_of_u32(
        metadata.dimensions.0,
    ) + le_bytes_of_u32(metadata.dimensions.1) + le_bytes_of_u32(metadata.dimensions.2)
        + le_bytes_of_u32(metadata.voxel_count as u32) + le_bytes_of_u32(metadata.origin[0])
        + le_bytes_of_u32(metadata.origin[1]) + le_bytes_of_u32(metadata.origin[2]);
    let named = fixed + hvox_name(encode_utf8(metadata.name@));
    named + Seq::new((HVOX_HEADER_SIZE - named.len()) as nat, |i: int| 0u8)
}

/// The eleven bytes of a voxel in a scene file: position, color, material.
pub open spec fn hvox_voxel(voxel: Voxel) -> Seq<u8> {
    le_bytes_of_u16(voxel.position[0]) + le_bytes_of_u16(voxel.position[1]) + le_bytes_of_u16(
        voxel.position[2],
    ) + voxel.color@ + seq![voxel.material_id]
}

/// The bytes of a list of voxels in a scene file, one voxel after the other.
pub open spec fn hvox_voxels(voxels: Seq<Voxel>) -> Seq<u8> {
    Seq::new(
        voxels.len() * HVOX_VOXEL_SIZE as nat,
        |i: int| hvox_voxel(voxels[i / HVOX_VOXEL_SIZE as int])[i % HVOX_VOXEL_SIZE as int],
    )
}

/// Whether the list holds a voxel at the given position.
pub open spec fn has_voxel_at(voxels: Seq<Voxel>, position: [u16; 3]) -> bool {
    exists|i: int| 0 <= i < voxels.len() && (#[trigger] voxels[i]).position@ == position@
}

/// Whether `i` is the first place in the list of a voxel at the given
/// position.
pub open spec fn is_first_at(voxels: Seq<Voxel>, position: [u16; 3], i: int) -> bool {
    &&& 0 <= i < voxels.len()
    &&& voxels[i].position@ == position@
    &&& forall|j: int| 0 <= j < i ==> (#[trigger] voxels[j]).position@ != position@
}

fn same_position(a: &[u16; 3], b: &[u16; 3]) -> (same: bool)
    ensures
        same == (a@ == b@),
{
    let same = a[0] == b[0] && a[1] == b[1] && a[2] == b[2];
    proof {
        if same {
            assert(a@ =~= b@);
        }
    }
    same
}

/// The first place in the list of a voxel at the given position.
fn position_of(voxels: &Vec<Voxel>, position: &[u16; 3]) -> (found: Option<usize>)
    ensures
        match found {
            Some(i) => is_first_at(voxels@, *position, i as int),
            None => !has_voxel_at(voxels@, *position),
        },
{
    let mut i: usize = 0;
    while i < voxels.len()
        invariant
            i <= voxels@.len(),
            forall|j: int| 0 <= j < i ==> (#[trigger] voxels@[j]).position@ != position@,
        decreases voxels@.len() - i,
    {
        if same_position(&voxels[i].position, position) {
            return Some(i);
        }
        i += 1;
    }
    None
}

fn push_u16_le(bytes: &mut Vec<u8>, x: u16)
    ensures
        final(bytes)@ == old(bytes)@ + le_bytes_of_u16(x),
{
    bytes.push((x % 256) as u8);
    bytes.push((x / 256) as u8);
    assert(bytes@ =~= old(bytes)@ + le_bytes_of_u16(x));
}

fn push_u32_le(bytes: &mut Vec<u8>, x: u32)
    ensures
        final(bytes)@ == old(bytes)@ + le_bytes_of_u32(x),
{
    bytes.push((x % 256) as u8);
    bytes.push((x / 0x100 % 256) as u8);
    bytes.push((x / 0x1_0000 % 256) as u8);
    bytes.push((x / 0x100_0000) as u8);
    assert(bytes@ =~= old(bytes)@ + le_bytes_of_u32(x));
}

/// The bytes of the voxels up to place `i` are those up to place `i - 1`
/// and then those of voxel `i - 1`.
proof fn lemma_hvox_voxels_grow(voxels: Seq<Voxel>, i: int)
    requires
        0 < i <= voxels.len(),
    ensures
        hvox_voxels(voxels.take(i)) == hvox_voxels(voxels.take(i - 1)) + hvox_voxel(voxels[i - 1]),
{
    let longer = hvox_voxels(voxels.take(i));
    let shorter = hvox_voxels(voxels.take(i - 1));
    let last = hvox_voxel(voxels[i - 1]);
    assert(last.len() == 11);
    assert forall|k: int| 0 <= k < longer.len() implies longer[k] == (shorter + last)[k] by {
        if k < shorter.len() {
            assert(voxels.take(i)[k / 11] == voxels.take(i - 1)[k / 11]);
        } else {
            assert(k / 11 == i - 1 && k % 11 == k - shorter.len());
        }
    }
    assert(longer =~= shorter + last);
}

impl VoxelScene {
    /// Get total voxel count
    pub fn voxel_count(&self) -> (count: usize)
        ensures
            count == self.metadata.voxel_count,
    {
        self.metadata.voxel_count
    }

    /// Validate that scene doesn't exceed the limit of a tier
    pub fn validate_tier(&self, tier: Tier) -> (r: Result<(), VoxelError>)
        ensures
            r.is_ok() == (self.metadata.voxel_count <= max_voxels_spec(tier)),
            r matches Err(e) ==> e == (VoxelError::TierLimitReached {
                current: self.metadata.voxel_count,
                limit: max_voxels_spec(tier),
                tier,
            }),
    {
        let limit = max_voxels(tier);
        if self.voxel_count() > limit {
            return Err(VoxelError::TierLimitReached { current: self.voxel_count(), limit, tier });
        }
        Ok(())
    }

    /// Add or update a voxel in the scene
    ///
    /// Where the scene holds a voxel at the same position, the first such
    /// voxel is replaced and the count stays. Otherwise the voxel is added at
    /// the end and the count grows by one. Professional data cannot be
    /// changed.
    pub fn add_voxel(&mut self, voxel: Voxel) -> (r: Result<(), String>)
        requires
            old(self).voxel_data matches VoxelData::Community(data) ==> has_voxel_at(
                data.voxels@,
                voxel.position,
            ) || old(self).metadata.voxel_count < usize::MAX,
        ensures
            final(self).metadata.name == old(self).metadata.name,
            final(self).metadata.dimensions == old(self).metadata.dimensions,
            final(self).metadata.origin == old(self).metadata.origin,
            match old(self).voxel_data {
                VoxelData::Community(before) => {
                    &&& r.is_ok()
                    &&& final(self).voxel_data matches VoxelData::Community(after)
                    &&& forall|i: int|
                        is_first_at(before.voxels@, voxel.position, i) ==> {
                            &&& after.voxels@ == before.voxels@.update(i, voxel)
                            &&& final(self).metadata.voxel_count == old(self).metadata.voxel_count
                        }
                    &&& !has_voxel_at(before.voxels@, voxel.position) ==> {
                        &&& after.voxels@ == before.voxels@.push(voxel)
                        &&& final(self).metadata.voxel_count == old(self).metadata.voxel_count + 1
                    }
                },
                VoxelData::Professional(_) => {
                    &&& r matches Err(message)
                    &&& message@ == "Cannot modify Professional tier voxel data"@
                    &&& final(self).voxel_data == old(self).voxel_data
                    &&& final(self).metadata.voxel_count == old(self).metadata.voxel_count
                },
            },
    {
        match &mut self.voxel_data {
            VoxelData::Community(data) => {
                // Check if voxel already exists at this position
                match position_of(&data.voxels, &voxel.position) {
                    Some(idx) => {
                        // Update existing
                        data.voxels[idx] = voxel;
                    },
                    None => {
                        // Add new
                        data.voxels.push(voxel);
                        self.metadata.voxel_count += 1;
                    },
                }
                Ok(())
            },
            VoxelData::Professional(_) => Err(
                String::from_str("Cannot modify Professional tier voxel data"),
            ),
        }
    }

    /// Remove a voxel at the given position
    ///
    /// Where the scene holds a voxel at the position, the first such voxel
    /// leaves, the last voxel takes its place, and the count shrinks by one.
    /// Tells whether a voxel was removed. Professional data cannot be
    /// changed.
    pub fn remove_voxel(&mut self, position: [u16; 3]) -> (r: Result<bool, String>)
        requires
            old(self).voxel_data matches VoxelData::Community(data) ==> !has_voxel_at(
                data.voxels@,
                position,
            ) || old(self).metadata.voxel_count > 0,
        ensures
            final(self).metadata.name == old(self).metadata.name,
            final(self).metadata.dimensions == old(self).metadata.dimensions,
            final(self).metadata.origin == old(self).metadata.origin,
            match old(self).voxel_data {
                VoxelData::Community(before) => {
                    &&& r == Ok::<bool, String>(has_voxel_at(before.voxels@, position))
                    &&& final(self).voxel_data matches VoxelData::Community(after)
                    &&& forall|i: int|
                        is_first_at(before.voxels@, position, i) ==> {
                            &&& after.voxels@ == before.voxels@.update(
                                i,
                                before.voxels@.last(),
                            ).drop_last()
                            &&& final(self).metadata.voxel_count == old(self).metadata.voxel_count
                                - 1
                        }
                    &&& !has_voxel_at(before.voxels@, position) ==> {
                        &&& after.voxels@ == before.voxels@
                        &&& final(self).metadata.voxel_count == old(self).metadata.voxel_count
                    }
                },
                VoxelData::Professional(_) => {
                    &&& r matches Err(message)
                    &&& message@ == "Cannot modify Professional tier voxel data"@
                    &&& final(self).voxel_data == old(self).voxel_data
                    &&& final(self).metadata.voxel_count == old(self).metadata.voxel_count
                },
            },
    {
        match &mut self.voxel_data {
            VoxelData::Community(data) => {
                match position_of(&data.voxels, &position) {
                    Some(idx) => {
                        data.voxels.swap_remove(idx);
                        self.metadata.voxel_count -= 1;
                        Ok(true)
                    },
                    None => Ok(false),
                }
            },
            VoxelData::Professional(_) => Err(
                String::from_str("Cannot modify Professional tier voxel data"),
            ),
        }
    }

    /// Serialize to .hvox format
    ///
    /// The file is the header and then the voxels, eleven bytes each.
    /// Professional data cannot be written.
    pub fn to_hvox(&self) -> (r: Result<Vec<u8>, String>)
        ensures
            match self.voxel_data {
                VoxelData::Community(data) => {
                    &&& r matches Ok(bytes)
                    &&& bytes@ == hvox_header(self.metadata) + hvox_voxels(data.voxels@)
                },
                VoxelData::Professional(_) => {
                    &&& r matches Err(message)
                    &&& message@ == "Cannot serialize Professional tier data yet"@
                },
            },
    {
        let mut bytes: Vec<u8> = Vec::new();

        // Magic header
        bytes.push(0x48);
        bytes.push(0x56);
        bytes.push(0x4F);
        bytes.push(0x58);
        assert(bytes@ =~= hvox_magic());

        // Version
        push_u32_le(&mut bytes, HVOX_VERSION);

        // Dimensions
        push_u32_le(&mut bytes, self.metadata.dimensions.0);
        push_u32_le(&mut bytes, self.metadata.dimensions.1);
        push_u32_le(&mut bytes, self.metadata.dimensions.2);

        // Voxel count
        push_u32_le(&mut bytes, #[verifier::truncate] (self.voxel_count() as u32));

        // Origin
        push_u32_le(&mut bytes, self.metadata.origin[0]);
        push_u32_le(&mut bytes, self.metadata.origin[1]);
        push_u32_le(&mut bytes, self.metadata.origin[2]);

        // Name (28 bytes, null-terminated)
        let name_bytes = self.metadata.name.as_str().as_bytes();
        let len = if name_bytes.len() <= HVOX_NAME_LIMIT {
            name_bytes.len()
        } else {
            HVOX_NAME_LIMIT
        };
        let ghost fixed = bytes@;
        let ghost kept = hvox_name(encode_utf8(self.metadata.name@));
        let mut i: usize = 0;
        while i < len
            invariant
                i <= len == kept.len(),
                len <= name_bytes@.len(),
                fixed.len() == 36,
                kept == hvox_name(name_bytes@),
                bytes@ == fixed + kept.take(i as int),
            decreases len - i,
        {
            bytes.push(name_bytes[i]);
            assert(bytes@ =~= fixed + kept.take(i as int + 1));
            i += 1;
        }
        assert(kept.take(len as int) =~= kept);
        let ghost named = bytes@;
        // Pad to header size
        while bytes.len() < HVOX_HEADER_SIZE
            invariant
                named.len() <= bytes@.len() <= HVOX_HEADER_SIZE,
                bytes@ == named + Seq::new((bytes@.len() - named.len()) as nat, |i: int| 0u8),
            decreases HVOX_HEADER_SIZE - bytes@.len(),
        {
            bytes.push(0);
            assert(bytes@ =~= named + Seq::new((bytes@.len() - named.len()) as nat, |i: int| 0u8));
        }
        assert(bytes@ =~= hvox_header(self.metadata));

        // Voxel data
        match &self.voxel_data {
            VoxelData::Community(data) => {
                let ghost header = bytes@;
                let mut k: usize = 0;
                assert(hvox_voxels(data.voxels@.take(0)) =~= Seq::<u8>::empty());
                while k < data.voxels.len()
                    invariant
                        k <= data.voxels@.len(),
                        bytes@ == header + hvox_voxels(data.voxels@.take(k as int)),
                    decreases data.voxels@.len() - k,
                {
                    let voxel = &data.voxels[k];
                    let ghost before = bytes@;
                    push_u16_le(&mut bytes, voxel.position[0]);
                    push_u16_le(&mut bytes, voxel.position[1]);
                    push_u16_le(&mut bytes, voxel.position[2]);
                    bytes.push(voxel.color[0]);
                    bytes.push(voxel.color[1]);
                    bytes.push(voxel.color[2]);
                    bytes.push(voxel.color[3]);
                    bytes.push(voxel.material_id);
                    proof {
                        assert(bytes@ =~= before + hvox_voxel(*voxel));
                        lemma_hvox_voxels_grow(data.voxels@, k as int + 1);
                        assert(bytes@ =~= header + hvox_voxels(data.voxels@.take(k as int + 1)));
                    }
                    k += 1;
                }
                assert(data.voxels@.take(data.voxels@.len() as int) =~= data.voxels@);
                Ok(bytes)
            },
            VoxelData::Professional(_) => Err(
                String::from_str("Cannot serialize Professional tier data yet"),
            ),
        }
    }
}

} // verus!
