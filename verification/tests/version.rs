use hearton_public::version::{full_version_string, BEVY_VERSION, HEARTON_VERSION};

#[test]
fn version_format() {
    assert!(HEARTON_VERSION.starts_with("0.13.2-hearton"));
    assert_eq!(BEVY_VERSION, "0.13.2");
}

#[test]
fn full_version_contains_components() {
    let full = full_version_string("0123456789abcdef0123456789abcdef01234567");
    assert!(full.contains("HeartOn Engine"));
    assert!(full.contains(HEARTON_VERSION));
    assert!(full.contains("Bevy"));
}

#[test]
fn full_version_is_exact() {
    let full = full_version_string("0123456789abcdef");
    assert_eq!(full, "HeartOn Engine 0.13.2-hearton.1 (Bevy 0.13.2 @ 01234567)");
}

#[test]
fn full_version_takes_a_hash_of_eight_bytes() {
    let full = full_version_string("deadbeef");
    assert_eq!(full, "HeartOn Engine 0.13.2-hearton.1 (Bevy 0.13.2 @ deadbeef)");
}

#[test]
fn full_version_cuts_at_a_character_that_ends_on_the_eighth_byte() {
    // six one-byte characters, one of two bytes, then more
    let full = full_version_string("abcdef\u{e9}xyz");
    assert_eq!(full, "HeartOn Engine 0.13.2-hearton.1 (Bevy 0.13.2 @ abcdef\u{e9})");
}
