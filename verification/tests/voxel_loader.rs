use hearton_public::tier::Tier;
use hearton_public::text::decimal;
use hearton_public::voxel::loader::{parse_hvox, VoxelLoaderError, VoxelSceneLoader};
use hearton_public::voxel::scene::{
    CommunityVoxelData, Voxel, VoxelData, VoxelError, VoxelMetadata, VoxelScene,
};

fn create_test_hvox(name: &str, voxels: &[Voxel]) -> Vec<u8> {
    let mut bytes = Vec::new();

    // Magic header
    bytes.extend_from_slice(b"HVOX");

    // Version
    bytes.extend_from_slice(&1u32.to_le_bytes());

    // Dimensions (calculate from voxels)
    bytes.extend_from_slice(&10u32.to_le_bytes()); // width
    bytes.extend_from_slice(&10u32.to_le_bytes()); // height
    bytes.extend_from_slice(&10u32.to_le_bytes()); // depth

    // Voxel count
    bytes.extend_from_slice(&(voxels.len() as u32).to_le_bytes());

    // Origin
    bytes.extend_from_slice(&0.0f32.to_le_bytes());
    bytes.extend_from_slice(&0.0f32.to_le_bytes());
    bytes.extend_from_slice(&0.0f32.to_le_bytes());

    // Name (28 bytes, null-terminated)
    let name_bytes = name.as_bytes();
    bytes.extend_from_slice(&name_bytes[..name.len().min(27)]);
    bytes.resize(64, 0); // Pad to header size

    // Voxel data
    for voxel in voxels {
        bytes.extend_from_slice(&voxel.position[0].to_le_bytes());
        bytes.extend_from_slice(&voxel.position[1].to_le_bytes());
        bytes.extend_from_slice(&voxel.position[2].to_le_bytes());
        bytes.extend_from_slice(&voxel.color);
        bytes.push(voxel.material_id);
    }

    bytes
}

fn complaint(result: Result<VoxelScene, VoxelLoaderError>) -> String {
    match result {
        Err(VoxelLoaderError::InvalidFormat(message)) => message,
        other => panic!("unexpected {:?}", other),
    }
}

#[test]
fn test_parse_empty_scene() {
    let bytes = create_test_hvox("empty", &[]);
    let scene = parse_hvox(&bytes).unwrap();

    assert_eq!(scene.metadata.name, "empty");
    assert_eq!(scene.voxel_count(), 0);
}

#[test]
fn test_parse_single_voxel() {
    let voxels = vec![Voxel { position: [5, 10, 15], color: [255, 128, 64, 255], material_id: 1 }];

    let bytes = create_test_hvox("single", &voxels);
    let scene = parse_hvox(&bytes).unwrap();

    assert_eq!(scene.voxel_count(), 1);

    if let VoxelData::Community(data) = &scene.voxel_data {
        assert_eq!(data.voxels[0].position, [5, 10, 15]);
        assert_eq!(data.voxels[0].color, [255, 128, 64, 255]);
        assert_eq!(data.voxels[0].material_id, 1);
    }
}

#[test]
fn test_invalid_magic() {
    let mut bytes = create_test_hvox("test", &[]);
    bytes[0] = b'X'; // Corrupt magic

    let result = parse_hvox(&bytes);
    assert!(result.is_err());
}

#[test]
fn test_file_too_small() {
    let bytes = vec![0u8; 10]; // Too small
    let result = parse_hvox(&bytes);
    assert!(result.is_err());
}

#[test]
fn faults_are_reported_in_the_order_they_are_looked_for() {
    assert_eq!(complaint(parse_hvox(&[])), "File too small for header");
    assert_eq!(complaint(parse_hvox(&[b'H'; 63])), "File too small for header");
    // long enough, wrong magic, and a wrong version too
    let mut bytes = create_test_hvox("x", &[]);
    bytes[3] = b'Y';
    bytes[4] = 2;
    assert_eq!(complaint(parse_hvox(&bytes)), "Invalid magic header (expected HVOX)");
    for at in 0..4 {
        let mut bytes = create_test_hvox("x", &[]);
        bytes[at] ^= 0x20;
        assert_eq!(complaint(parse_hvox(&bytes)), "Invalid magic header (expected HVOX)");
    }
    // right magic, wrong version, and too few voxels too
    let mut bytes = create_test_hvox("x", &[]);
    bytes[4] = 2;
    bytes[20] = 9;
    assert_eq!(complaint(parse_hvox(&bytes)), "Unsupported version: 2");
    bytes[4..8].copy_from_slice(&0u32.to_le_bytes());
    assert_eq!(complaint(parse_hvox(&bytes)), "Unsupported version: 0");
    bytes[4..8].copy_from_slice(&u32::MAX.to_le_bytes());
    assert_eq!(complaint(parse_hvox(&bytes)), "Unsupported version: 4294967295");
    bytes[4..8].copy_from_slice(&0x0100u32.to_le_bytes());
    assert_eq!(complaint(parse_hvox(&bytes)), "Unsupported version: 256");
}

#[test]
fn too_few_voxels_are_reported_with_both_lengths() {
    let voxel = Voxel { position: [1, 2, 3], color: [4, 5, 6, 7], material_id: 8 };
    let mut bytes = create_test_hvox("short", &[voxel, voxel]);
    bytes.pop();
    assert_eq!(
        complaint(parse_hvox(&bytes)),
        "Insufficient voxel data: expected 22 bytes, got 21"
    );
    let mut bytes = create_test_hvox("short", &[]);
    bytes[20..24].copy_from_slice(&u32::MAX.to_le_bytes());
    assert_eq!(
        complaint(parse_hvox(&bytes)),
        "Insufficient voxel data: expected 47244640245 bytes, got 0"
    );
}

#[test]
fn bytes_after_the_voxels_are_passed_over() {
    let voxel = Voxel { position: [1, 2, 3], color: [4, 5, 6, 7], material_id: 8 };
    let mut bytes = create_test_hvox("more", &[voxel]);
    bytes.extend_from_slice(&[9; 40]);
    let scene = parse_hvox(&bytes).unwrap();
    assert_eq!(scene.voxel_count(), 1);
    match &scene.voxel_data {
        VoxelData::Community(data) => assert_eq!(data.voxels.len(), 1),
        VoxelData::Professional(_) => panic!("community data expected"),
    }
}

#[test]
fn header_fields_are_read_low_byte_first() {
    let mut bytes = create_test_hvox("fields", &[]);
    bytes[8..12].copy_from_slice(&[1, 2, 3, 4]);
    bytes[12..16].copy_from_slice(&[0xFF, 0xFF, 0xFF, 0xFF]);
    bytes[16..20].copy_from_slice(&[0, 0, 1, 0]);
    bytes[24..28].copy_from_slice(&1.5f32.to_le_bytes());
    bytes[28..32].copy_from_slice(&(-0.0f32).to_le_bytes());
    bytes[32..36].copy_from_slice(&f32::INFINITY.to_le_bytes());
    let scene = parse_hvox(&bytes).unwrap();
    assert_eq!(scene.metadata.dimensions, (0x0403_0201, u32::MAX, 0x0001_0000));
    assert_eq!(scene.metadata.origin, [1.5f32.to_bits(), (-0.0f32).to_bits(), f32::INFINITY.to_bits()]);
    assert_eq!(f32::from_bits(scene.metadata.origin[0]), 1.5);
}

#[test]
fn voxels_are_read_in_order() {
    let voxels = vec![
        Voxel { position: [0x0102, 0xFFFF, 0], color: [1, 2, 3, 4], material_id: 5 },
        Voxel { position: [7, 8, 9], color: [255, 254, 253, 252], material_id: 251 },
        Voxel { position: [0, 0, 0], color: [0, 0, 0, 0], material_id: 0 },
    ];
    let scene = parse_hvox(&create_test_hvox("three", &voxels)).unwrap();
    assert_eq!(scene.voxel_count(), 3);
    match &scene.voxel_data {
        VoxelData::Community(data) => {
            assert_eq!(data.voxels.len(), 3);
            for (read, written) in data.voxels.iter().zip(voxels.iter()) {
                assert_eq!(read.position, written.position);
                assert_eq!(read.color, written.color);
                assert_eq!(read.material_id, written.material_id);
            }
        }
        VoxelData::Professional(_) => panic!("community data expected"),
    }
}

#[test]
fn the_name_ends_at_the_first_zero_byte() {
    let mut bytes = create_test_hvox("abc", &[]);
    bytes[40] = b'z'; // after the zero at place 39
    assert_eq!(parse_hvox(&bytes).unwrap().metadata.name, "abc");
    bytes[36] = 0;
    assert_eq!(parse_hvox(&bytes).unwrap().metadata.name, "");
    // a name that fills the field to its end
    for at in 36..64 {
        bytes[at] = b'n';
    }
    assert_eq!(parse_hvox(&bytes).unwrap().metadata.name, "n".repeat(28));
}

#[test]
fn a_name_that_is_not_utf8_is_read_with_replacement_characters() {
    let mut bytes = create_test_hvox("", &[]);
    bytes[36] = b'a';
    bytes[37] = 0xFF;
    bytes[38] = b'b';
    assert_eq!(parse_hvox(&bytes).unwrap().metadata.name, "a\u{FFFD}b");
    // two bytes of a character of three
    bytes[36..39].copy_from_slice(&[0xE2, 0x82, 0]);
    assert_eq!(parse_hvox(&bytes).unwrap().metadata.name, "\u{FFFD}");
    // a whole character of three bytes
    bytes[36..40].copy_from_slice(&[0xE2, 0x82, 0xAC, 0]);
    assert_eq!(parse_hvox(&bytes).unwrap().metadata.name, "\u{20AC}");
}

#[test]
fn what_is_written_is_what_is_read() {
    let scene = VoxelScene {
        metadata: VoxelMetadata {
            name: "round trip \u{20AC}".to_string(),
            dimensions: (3, 0xFFFF_FFFF, 0x0102_0304),
            voxel_count: 3,
            origin: [1.25f32.to_bits(), (-7.0f32).to_bits(), f32::NAN.to_bits()],
        },
        voxel_data: VoxelData::Community(CommunityVoxelData {
            voxels: vec![
                Voxel { position: [1, 2, 3], color: [4, 5, 6, 7], material_id: 8 },
                Voxel { position: [0xFFFF, 0x0100, 0x00FF], color: [255, 0, 255, 0], material_id: 255 },
                Voxel { position: [0, 0, 0], color: [0, 0, 0, 0], material_id: 0 },
            ],
        }),
    };
    let bytes = scene.to_hvox().unwrap();
    let read = parse_hvox(&bytes).unwrap();
    assert_eq!(read.metadata.name, scene.metadata.name);
    assert_eq!(read.metadata.dimensions, scene.metadata.dimensions);
    assert_eq!(read.metadata.voxel_count, 3);
    assert_eq!(read.metadata.origin, scene.metadata.origin);
    assert_eq!(read.to_hvox().unwrap(), bytes);
}

#[test]
fn the_loader_holds_the_scene_to_the_tier() {
    let loader = VoxelSceneLoader;
    let voxel = Voxel { position: [1, 2, 3], color: [4, 5, 6, 7], material_id: 8 };
    let bytes = create_test_hvox("small", &[voxel]);
    let scene = loader.load(&bytes, Tier::Community).unwrap();
    assert_eq!(scene.voxel_count(), 1);
    assert_eq!(scene.metadata.name, "small");
    // a faulty file is reported as parse_hvox reports it
    assert_eq!(complaint(loader.load(&bytes[..70], Tier::Studio)), "Insufficient voxel data: expected 11 bytes, got 6");
    assert_eq!(complaint(loader.load(&[], Tier::Community)), "File too small for header");
}

#[test]
fn the_loader_refuses_a_scene_beyond_the_tier() {
    // 10000001 voxels, one more than the community tier admits
    let count = 10_000_001usize;
    let mut bytes = create_test_hvox("large", &[]);
    bytes[20..24].copy_from_slice(&(count as u32).to_le_bytes());
    bytes.resize(64 + count * 11, 0);
    match VoxelSceneLoader.load(&bytes, Tier::Community) {
        Err(VoxelLoaderError::TierLimit(VoxelError::TierLimitReached { current, limit, tier })) => {
            assert_eq!(current, count);
            assert_eq!(limit, 10_000_000);
            assert_eq!(tier, Tier::Community);
        }
        other => panic!("unexpected {:?}", other.map(|scene| scene.metadata)),
    }
    assert!(VoxelSceneLoader.load(&bytes, Tier::Indie).is_ok());
}

#[test]
fn the_loader_reads_hvox_files() {
    assert_eq!(VoxelSceneLoader.extensions(), ["hvox"]);
}

#[test]
fn decimal_writes_numbers_without_leading_zeros() {
    assert_eq!(decimal(0), "0");
    assert_eq!(decimal(7), "7");
    assert_eq!(decimal(10), "10");
    assert_eq!(decimal(1234567890), "1234567890");
    assert_eq!(decimal(u64::MAX), "18446744073709551615");
    for n in [9u64, 99, 100, 101, 999_999, 1_000_000] {
        assert_eq!(decimal(n), n.to_string());
    }
}
