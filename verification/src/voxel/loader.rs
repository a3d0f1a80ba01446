//! `VoxelScene` loader for .hvox files

use vstd::prelude::*;
use vstd::string::StringExecFns;
use vstd::utf8::{decode_utf8, valid_utf8};
use vstd::utf8::encode_utf8;
use super::scene::{
    hvox_header, hvox_magic, hvox_name, hvox_voxel, hvox_voxels, le_bytes_of_u16,
    le_bytes_of_u32, CommunityVoxelData, Voxel, VoxelData, VoxelError, VoxelMetadata, VoxelScene,
    HVOX_HEADER_SIZE, HVOX_NAME_LIMIT, HVOX_VERSION, HVOX_VOXEL_SIZE,
};
use crate::text::{decimal, decimal_text};
use crate::tier::{max_voxels_spec, Tier};

verus! {

/// Loader for .hvox voxel scene files
#[derive(Default)]
pub struct VoxelSceneLoader;

/// Errors that can occur when loading voxel scenes
#[derive(Debug)]
pub enum VoxelLoaderError {
    /// Invalid file format
    InvalidFormat(String),
    /// Tier limit exceeded
    TierLimit(VoxelError),
}

/// The number whose two bytes, the low one first, are `low` and `high`.
pub open spec fn u16_of_le_bytes(low: u8, high: u8) -> u16 {
    (low + high * 256) as u16
}

/// The number whose four bytes, the lowest first, are `b0` to `b3`.
pub open spec fn u32_of_le_bytes(b0: u8, b1: u8, b2: u8, b3: u8) -> u32 {
    (b0 + b1 * 0x100 + b2 * 0x1_0000 + b3 * 0x100_0000) as u32
}

/// The 32-bit number that the file holds at the place `at`.
pub open spec fn hvox_u32_at(bytes: Seq<u8>, at: int) -> u32 {
    u32_of_le_bytes(bytes[at], bytes[at + 1], bytes[at + 2], bytes[at + 3])
}

/// The 16-bit number that the file holds at the place `at`.
pub open spec fn hvox_u16_at(bytes: Seq<u8>, at: int) -> u16 {
    u16_of_le_bytes(bytes[at], bytes[at + 1])
}

/// The number of voxels that the header of the file announces.
pub open spec fn hvox_count(bytes: Seq<u8>) -> nat {
    hvox_u32_at(bytes, 20) as nat
}

/// The bytes of the name in the header of the file: those from place 36 up
/// to the first zero byte, or up to the end of the header.
pub open spec fn hvox_name_bytes(bytes: Seq<u8>) -> Seq<u8> {
    bytes.subrange(36, 36 + hvox_name_len(bytes.subrange(36, 64)))
}

/// The place of the first zero byte in a field, or the field's length where
/// it holds none.
pub open spec fn hvox_name_len(field: Seq<u8>) -> int
    decreases field.len(),
{
    if field.len() == 0 || field[0] == 0 {
        0
    } else {
        1 + hvox_name_len(field.drop_first())
    }
}

/// Whether `voxel` is the voxel that the file holds at the place `at`.
pub open spec fn is_voxel_at(bytes: Seq<u8>, at: int, voxel: Voxel) -> bool {
    &&& voxel.position@ == seq![
        hvox_u16_at(bytes, at),
        hvox_u16_at(bytes, at + 2),
        hvox_u16_at(bytes, at + 4),
    ]
    &&& voxel.color@ == bytes.subrange(at + 6, at + 10)
    &&& voxel.material_id == bytes[at + 10]
}

/// What is wrong with a file, in the order in which a file is examined.
pub enum HvoxFault {
    /// The file is shorter than a header.
    TooSmall,
    /// The file does not start with `HVOX`.
    BadMagic,
    /// The file is of a version other than the one this loader reads.
    BadVersion,
    /// The file ends before the voxels that its header announces.
    TooFewVoxels,
}

/// The first fault of a file, if it has any.
pub open spec fn hvox_fault(bytes: Seq<u8>) -> Option<HvoxFault> {
    if bytes.len() < HVOX_HEADER_SIZE {
        Some(HvoxFault::TooSmall)
    } else if bytes.take(4) != hvox_magic() {
        Some(HvoxFault::BadMagic)
    } else if hvox_u32_at(bytes, 4) != HVOX_VERSION {
        Some(HvoxFault::BadVersion)
    } else if bytes.len() - HVOX_HEADER_SIZE < hvox_count(bytes) * HVOX_VOXEL_SIZE {
        Some(HvoxFault::TooFewVoxels)
    } else {
        None
    }
}

/// What the loader says of a faulty file.
pub open spec fn hvox_complaint(bytes: Seq<u8>, fault: HvoxFault) -> Seq<char> {
    match fault {
        HvoxFault::TooSmall => "File too small for header"@,
        HvoxFault::BadMagic => "Invalid magic header (expected HVOX)"@,
        HvoxFault::BadVersion => "Unsupported version: "@ + decimal_text(
            hvox_u32_at(bytes, 4) as nat,
        ),
        HvoxFault::TooFewVoxels => "Insufficient voxel data: expected "@ + decimal_text(
            hvox_count(bytes) * HVOX_VOXEL_SIZE as nat,
        ) + " bytes, got "@ + decimal_text((bytes.len() - HVOX_HEADER_SIZE) as nat),
    }
}

/// Whether `scene` is what a file without fault holds.
pub open spec fn is_hvox_scene(bytes: Seq<u8>, scene: VoxelScene) -> bool {
    &&& scene.metadata.name@ == lossy_text(hvox_name_bytes(bytes))
    &&& valid_utf8(hvox_name_bytes(bytes)) ==> scene.metadata.name@ == decode_utf8(
        hvox_name_bytes(bytes),
    )
    &&& scene.metadata.dimensions == (
        hvox_u32_at(bytes, 8),
        hvox_u32_at(bytes, 12),
        hvox_u32_at(bytes, 16),
    )
    &&& scene.metadata.voxel_count == hvox_count(bytes)
    &&& scene.metadata.origin@ == seq![
        hvox_u32_at(bytes, 24),
        hvox_u32_at(bytes, 28),
        hvox_u32_at(bytes, 32),
    ]
    &&& scene.voxel_data matches VoxelData::Community(data)
    &&& data.voxels@.len() == hvox_count(bytes)
    &&& forall|i: int|
        0 <= i < data.voxels@.len() ==> is_voxel_at(
            bytes,
            HVOX_HEADER_SIZE + i * HVOX_VOXEL_SIZE,
            #[trigger] data.voxels@[i],
        )
}

/// The text of some bytes read as UTF-8, with the replacement character in
/// the place of every sequence that is not UTF-8.
pub uninterp spec fn lossy_text(bytes: Seq<u8>) -> Seq<char>;

/// The standard library's `String::from_utf8_lossy`, made a `String`: the
/// text of the bytes, with U+FFFD in the place of what is not UTF-8. Bytes
/// that are UTF-8 throughout come out as the text they encode.
#[verifier::external_body]
fn text_of_bytes(bytes: &[u8]) -> (text: String)
    ensures
        text@ == lossy_text(bytes@),
        valid_utf8(bytes@) ==> text@ == decode_utf8(bytes@),
{
    String::from_utf8_lossy(bytes).to_string()
}

fn read_u16(bytes: &[u8], at: usize) -> (x: u16)
    requires
        at + 2 <= bytes@.len(),
    ensures
        x == hvox_u16_at(bytes@, at as int),
{
    bytes[at] as u16 + bytes[at + 1] as u16 * 256
}

fn read_u32(bytes: &[u8], at: usize) -> (x: u32)
    requires
        at + 4 <= bytes@.len(),
    ensures
        x == hvox_u32_at(bytes@, at as int),
{
    bytes[at] as u32 + bytes[at + 1] as u32 * 0x100 + bytes[at + 2] as u32 * 0x1_0000 + bytes[at
        + 3] as u32 * 0x100_0000
}

/// A field whose first `n` bytes are not zero, and which ends there or has
/// a zero byte there, holds a name of `n` bytes.
proof fn lemma_name_len(field: Seq<u8>, n: int)
    requires
        0 <= n <= field.len(),
        forall|j: int| 0 <= j < n ==> field[j] != 0,
        n == field.len() || field[n] == 0,
    ensures
        hvox_name_len(field) == n,
    decreases n,
{
    if n > 0 {
        let rest = field.drop_first();
        assert forall|j: int| 0 <= j < n - 1 implies rest[j] != 0 by {
            assert(rest[j] == field[j + 1]);
        }
        lemma_name_len(rest, n - 1);
    }
}

/// Parse metadata from header bytes
///
/// Header layout:
/// 0-3: Magic "HVOX"
/// 4-7: Version (u32 LE)
/// 8-11: Width (u32 LE)
/// 12-15: Height (u32 LE)
/// 16-19: Depth (u32 LE)
/// 20-23: Voxel count (u32 LE)
/// 24-35: Origin (3x 32-bit IEEE 754, LE)
/// 36-63: Name (28 bytes UTF-8, null-terminated)
fn parse_hvox_metadata(bytes: &[u8]) -> (metadata: VoxelMetadata)
    requires
        bytes@.len() >= HVOX_HEADER_SIZE,
    ensures
        metadata.name@ == lossy_text(hvox_name_bytes(bytes@)),
        valid_utf8(hvox_name_bytes(bytes@)) ==> metadata.name@ == decode_utf8(
            hvox_name_bytes(bytes@),
        ),
        metadata.dimensions == (
            hvox_u32_at(bytes@, 8),
            hvox_u32_at(bytes@, 12),
            hvox_u32_at(bytes@, 16),
        ),
        metadata.voxel_count == hvox_count(bytes@),
        metadata.origin@ == seq![
            hvox_u32_at(bytes@, 24),
            hvox_u32_at(bytes@, 28),
            hvox_u32_at(bytes@, 32),
        ],
{
    let width = read_u32(bytes, 8);
    let height = read_u32(bytes, 12);
    let depth = read_u32(bytes, 16);
    let voxel_count = read_u32(bytes, 20) as usize;
    let origin = [read_u32(bytes, 24), read_u32(bytes, 28), read_u32(bytes, 32)];

    // Parse name (null-terminated UTF-8)
    let ghost field = bytes@.subrange(36, 64);
    let mut name_len: usize = 0;
    while name_len < 28 && bytes[36 + name_len] != 0
        invariant
            name_len <= 28,
            bytes@.len() >= 64,
            field == bytes@.subrange(36, 64),
            forall|j: int| 0 <= j < name_len ==> field[j] != 0,
        decreases 28 - name_len,
    {
        name_len += 1;
    }
    proof {
        lemma_name_len(field, name_len as int);
    }
    let name = text_of_bytes(vstd::slice::slice_subrange(bytes, 36, 36 + name_len));

    VoxelMetadata { name, dimensions: (width, height, depth), voxel_count, origin }
}

/// Parse voxel array from the bytes after the header
///
/// Voxel layout: 11 bytes per voxel
/// 0-1: x position (u16 LE)
/// 2-3: y position (u16 LE)
/// 4-5: z position (u16 LE)
/// 6-9: RGBA color (4x u8)
/// 10: material_id (u8)
fn parse_hvox_voxels(bytes: &[u8], expected_count: usize) -> (voxels: Vec<Voxel>)
    requires
        bytes@.len() >= HVOX_HEADER_SIZE,
        bytes@.len() - HVOX_HEADER_SIZE >= expected_count * HVOX_VOXEL_SIZE,
    ensures
        voxels@.len() == expected_count,
        forall|i: int|
            0 <= i < voxels@.len() ==> is_voxel_at(
                bytes@,
                HVOX_HEADER_SIZE + i * HVOX_VOXEL_SIZE,
                #[trigger] voxels@[i],
            ),
{
    let mut voxels: Vec<Voxel> = Vec::with_capacity(expected_count);
    let total = bytes.len();
    let mut i: usize = 0;
    while i < expected_count
        invariant
            i <= expected_count,
            total == bytes@.len(),
            bytes@.len() >= HVOX_HEADER_SIZE,
            bytes@.len() - HVOX_HEADER_SIZE >= expected_count * HVOX_VOXEL_SIZE,
            voxels@.len() == i,
            forall|k: int|
                0 <= k < voxels@.len() ==> is_voxel_at(
                    bytes@,
                    HVOX_HEADER_SIZE + k * HVOX_VOXEL_SIZE,
                    #[trigger] voxels@[k],
                ),
        decreases expected_count - i,
    {
        assert((i + 1) * HVOX_VOXEL_SIZE <= expected_count * HVOX_VOXEL_SIZE) by (nonlinear_arith)
            requires
                i < expected_count,
        ;
        assert((i + 1) * HVOX_VOXEL_SIZE == i * HVOX_VOXEL_SIZE + 11 && i * HVOX_VOXEL_SIZE >= 0)
            by (nonlinear_arith)
            requires
                HVOX_VOXEL_SIZE == 11,
                i >= 0,
        ;
        let offset = HVOX_HEADER_SIZE + i * HVOX_VOXEL_SIZE;
        let voxel = Voxel {
            position: [
                read_u16(bytes, offset),
                read_u16(bytes, offset + 2),
                read_u16(bytes, offset + 4),
            ],
            color: [bytes[offset + 6], bytes[offset + 7], bytes[offset + 8], bytes[offset + 9]],
            material_id: bytes[offset + 10],
        };
        proof {
            assert(voxel.position@ =~= seq![
                hvox_u16_at(bytes@, offset as int),
                hvox_u16_at(bytes@, offset + 2),
                hvox_u16_at(bytes@, offset + 4),
            ]);
            assert(voxel.color@ =~= bytes@.subrange(offset + 6, offset + 10));
        }
        voxels.push(voxel);
        i += 1;
    }
    voxels
}

/// Parse .hvox binary format
///
/// A file is examined for its length, its magic, its version and the
/// length of its voxel data, in this order, and the first fault found is
/// reported. What follows the announced voxels is passed over.
pub fn parse_hvox(bytes: &[u8]) -> (r: Result<VoxelScene, VoxelLoaderError>)
    ensures
        match r {
            Ok(scene) => hvox_fault(bytes@) is None && is_hvox_scene(bytes@, scene),
            Err(VoxelLoaderError::InvalidFormat(message)) => {
                &&& hvox_fault(bytes@) matches Some(fault)
                &&& message@ == hvox_complaint(bytes@, fault)
            },
            Err(VoxelLoaderError::TierLimit(_)) => false,
        },
{
    if bytes.len() < HVOX_HEADER_SIZE {
        return Err(VoxelLoaderError::InvalidFormat(String::from_str("File too small for header")));
    }
    // Verify magic header

    if bytes[0] != 0x48 || bytes[1] != 0x56 || bytes[2] != 0x4F || bytes[3] != 0x58 {
        assert(bytes@.take(4) != hvox_magic()) by {
            if bytes@.take(4) == hvox_magic() {
                assert(bytes@.take(4)[0] == 0x48 && bytes@.take(4)[1] == 0x56 && bytes@.take(4)[2]
                    == 0x4F && bytes@.take(4)[3] == 0x58);
            }
        }
        return Err(
            VoxelLoaderError::InvalidFormat(
                String::from_str("Invalid magic header (expected HVOX)"),
            ),
        );
    }
    assert(bytes@.take(4) =~= hvox_magic());

    let version = read_u32(bytes, 4);
    if version != HVOX_VERSION {
        let text = decimal(version as u64);
        return Err(
            VoxelLoaderError::InvalidFormat(
                String::from_str("Unsupported version: ").concat(text.as_str()),
            ),
        );
    }
    // Parse metadata from header

    let metadata = parse_hvox_metadata(bytes);

    // Parse voxel data
    let available = bytes.len() - HVOX_HEADER_SIZE;
    let expected_size: u64 = metadata.voxel_count as u64 * HVOX_VOXEL_SIZE as u64;
    if (available as u64) < expected_size {
        let expected_text = decimal(expected_size);
        let available_text = decimal(available as u64);
        return Err(
            VoxelLoaderError::InvalidFormat(
                String::from_str("Insufficient voxel data: expected ").concat(
                    expected_text.as_str(),
                ).concat(" bytes, got ").concat(available_text.as_str()),
            ),
        );
    }
    let voxels = parse_hvox_voxels(bytes, metadata.voxel_count);

    Ok(VoxelScene { metadata, voxel_data: VoxelData::Community(CommunityVoxelData { voxels }) })
}

/// The bytes of a 32-bit number give the number back.
pub proof fn lemma_u32_bytes_round_trip(x: u32)
    ensures
        u32_of_le_bytes(
            le_bytes_of_u32(x)[0],
            le_bytes_of_u32(x)[1],
            le_bytes_of_u32(x)[2],
            le_bytes_of_u32(x)[3],
        ) == x,
{
}

/// The bytes of a 16-bit number give the number back.
pub proof fn lemma_u16_bytes_round_trip(x: u16)
    ensures
        u16_of_le_bytes(le_bytes_of_u16(x)[0], le_bytes_of_u16(x)[1]) == x,
{
}

/// What is written is what is read: the file of a scene has no fault, and
/// it holds the scene's dimensions, count, origin, voxels and name.
///
/// This takes a name of at most 27 bytes without a zero byte, and a count
/// that is the number of the voxels and fits in 32 bits.
pub proof fn law_hvox_round_trip(metadata: VoxelMetadata, voxels: Seq<Voxel>)
    requires
        encode_utf8(metadata.name@).len() <= HVOX_NAME_LIMIT,
        forall|i: int|
            0 <= i < encode_utf8(metadata.name@).len() ==> encode_utf8(metadata.name@)[i] != 0,
        metadata.voxel_count == voxels.len(),
        voxels.len() <= u32::MAX,
    ensures
        ({
            let bytes = hvox_header(metadata) + hvox_voxels(voxels);
            &&& hvox_fault(bytes) is None
            &&& hvox_name_bytes(bytes) == encode_utf8(metadata.name@)
            &&& valid_utf8(hvox_name_bytes(bytes))
            &&& decode_utf8(hvox_name_bytes(bytes)) == metadata.name@
            &&& hvox_u32_at(bytes, 8) == metadata.dimensions.0
            &&& hvox_u32_at(bytes, 12) == metadata.dimensions.1
            &&& hvox_u32_at(bytes, 16) == metadata.dimensions.2
            &&& hvox_count(bytes) == voxels.len()
            &&& hvox_u32_at(bytes, 24) == metadata.origin[0]
            &&& hvox_u32_at(bytes, 28) == metadata.origin[1]
            &&& hvox_u32_at(bytes, 32) == metadata.origin[2]
            &&& forall|i: int|
                0 <= i < voxels.len() ==> is_voxel_at(
                    bytes,
                    HVOX_HEADER_SIZE + i * HVOX_VOXEL_SIZE,
                    #[trigger] voxels[i],
                )
        }),
{
    let name = encode_utf8(metadata.name@);
    let count = metadata.voxel_count as u32;
    let fixed = hvox_magic() + le_bytes_of_u32(HVOX_VERSION) + le_bytes_of_u32(
        metadata.dimensions.0,
    ) + le_bytes_of_u32(metadata.dimensions.1) + le_bytes_of_u32(metadata.dimensions.2)
        + le_bytes_of_u32(count) + le_bytes_of_u32(metadata.origin[0]) + le_bytes_of_u32(
        metadata.origin[1],
    ) + le_bytes_of_u32(metadata.origin[2]);
    let named = fixed + hvox_name(name);
    let header = hvox_header(metadata);
    let body = hvox_voxels(voxels);
    let bytes = header + body;
    assert(hvox_name(name) == name);
    assert(fixed.len() == 36);
    assert(header.len() == 64);
    assert(header == named + Seq::new((64 - named.len()) as nat, |i: int| 0u8));
    assert forall|i: int| 0 <= i < 36 implies bytes[i] == fixed[i] by {
        assert(header[i] == named[i]);
    }
    assert forall|i: int| 36 <= i < 36 + name.len() implies bytes[i] == name[i - 36] by {
        assert(header[i] == named[i]);
    }
    assert forall|i: int| 36 + name.len() <= i < 64 implies bytes[i] == 0 by {
        assert(header[i] == 0u8);
    }
    lemma_u32_bytes_round_trip(HVOX_VERSION);
    lemma_u32_bytes_round_trip(metadata.dimensions.0);
    lemma_u32_bytes_round_trip(metadata.dimensions.1);
    lemma_u32_bytes_round_trip(metadata.dimensions.2);
    lemma_u32_bytes_round_trip(count);
    lemma_u32_bytes_round_trip(metadata.origin[0]);
    lemma_u32_bytes_round_trip(metadata.origin[1]);
    lemma_u32_bytes_round_trip(metadata.origin[2]);
    assert(bytes.take(4) =~= hvox_magic());
    // the name
    let field = bytes.subrange(36, 64);
    assert forall|j: int| 0 <= j < name.len() implies field[j] != 0 by {
        assert(field[j] == bytes[36 + j]);
    }
    assert(name.len() == field.len() || field[name.len() as int] == 0) by {
        if name.len() < field.len() {
            assert(field[name.len() as int] == bytes[36 + name.len() as int]);
        }
    }
    lemma_name_len(field, name.len() as int);
    assert(hvox_name_bytes(bytes) =~= name);
    vstd::utf8::encode_utf8_valid_utf8(metadata.name@);
    vstd::utf8::encode_utf8_decode_utf8(metadata.name@);
    // the voxels
    assert(body.len() == voxels.len() * 11);
    assert forall|i: int| 0 <= i < voxels.len() implies is_voxel_at(
        bytes,
        HVOX_HEADER_SIZE + i * HVOX_VOXEL_SIZE,
        #[trigger] voxels[i],
    ) by {
        let at = 64 + i * 11;
        let own = hvox_voxel(voxels[i]);
        assert(own.len() == 11);
        assert forall|k: int| 0 <= k < 11 implies bytes[at + k] == own[k] by {
            assert(bytes[at + k] == body[i * 11 + k]);
            assert((i * 11 + k) / 11 == i && (i * 11 + k) % 11 == k);
        }
        lemma_u16_bytes_round_trip(voxels[i].position[0]);
        lemma_u16_bytes_round_trip(voxels[i].position[1]);
        lemma_u16_bytes_round_trip(voxels[i].position[2]);
        assert(bytes[at] == own[0] && bytes[at + 1] == own[1] && bytes[at + 2] == own[2] && bytes[at
            + 3] == own[3] && bytes[at + 4] == own[4] && bytes[at + 5] == own[5]);
        assert(voxels[i].position@ =~= seq![
            hvox_u16_at(bytes, at),
            hvox_u16_at(bytes, at + 2),
            hvox_u16_at(bytes, at + 4),
        ]);
        assert(voxels[i].color@ =~= bytes.subrange(at + 6, at + 10)) by {
            assert forall|k: int| 0 <= k < 4 implies voxels[i].color@[k] == bytes.subrange(
                at + 6,
                at + 10,
            )[k] by {
                assert(bytes[at + 6 + k] == own[6 + k]);
            }
        }
        assert(bytes[at + 10] == own[10]);
    }
}

impl VoxelSceneLoader {
    /// Reads a scene from the bytes of a file and holds it to the limit of
    /// the tier.
    pub fn load(&self, bytes: &[u8], tier: Tier) -> (r: Result<VoxelScene, VoxelLoaderError>)
        ensures
            match r {
                Ok(scene) => {
                    &&& hvox_fault(bytes@) is None
                    &&& is_hvox_scene(bytes@, scene)
                    &&& hvox_count(bytes@) <= max_voxels_spec(tier)
                },
                Err(VoxelLoaderError::InvalidFormat(message)) => {
                    &&& hvox_fault(bytes@) matches Some(fault)
                    &&& message@ == hvox_complaint(bytes@, fault)
                },
                Err(VoxelLoaderError::TierLimit(e)) => {
                    &&& hvox_fault(bytes@) is None
                    &&& hvox_count(bytes@) > max_voxels_spec(tier)
                    &&& e == (VoxelError::TierLimitReached {
                        current: hvox_count(bytes@) as usize,
                        limit: max_voxels_spec(tier),
                        tier,
                    })
                },
            },
    {
        // Parse .hvox format
        let scene = match parse_hvox(bytes) {
            Ok(scene) => scene,
            Err(e) => {
                return Err(e);
            },
        };

        // Validate tier limits
        match scene.validate_tier(tier) {
            Ok(()) => Ok(scene),
            Err(e) => Err(VoxelLoaderError::TierLimit(e)),
        }
    }

    /// The file name extensions of the files this loader reads.
    pub fn extensions(&self) -> (extensions: [&'static str; 1])
        ensures
            extensions[0]@ == "hvox"@,
    {
        ["hvox"]
    }
}

} // verus!

