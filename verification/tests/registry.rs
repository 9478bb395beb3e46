use media::videodecoder::{Registry, RegistryError};

#[test]
fn lookup_finds_what_was_registered() {
    let mut r: Registry<u32> = Registry::new();
    r.register(*b"avc ", 1).unwrap();
    r.register(*b"vp8 ", 2).unwrap();
    assert_eq!(r.lookup(b"avc "), Some(&1));
    assert_eq!(r.lookup(b"vp8 "), Some(&2));
}

#[test]
fn lookup_misses_with_none_not_a_default() {
    let mut r: Registry<u32> = Registry::new();
    r.register(*b"avc ", 1).unwrap();
    assert_eq!(r.lookup(b"hevc"), None);
    // A near match is still a miss: identifiers compare byte-exact.
    assert_eq!(r.lookup(b"avc\0"), None);
    assert_eq!(r.lookup(b"AVC "), None);
}

#[test]
fn empty_registry_finds_nothing() {
    let r: Registry<u32> = Registry::new();
    assert_eq!(r.lookup(b"avc "), None);
    assert!(!r.contains(b"avc "));
}

#[test]
fn duplicate_register_fails_and_keeps_entry() {
    let mut r: Registry<u32> = Registry::new();
    r.register(*b"avc ", 1).unwrap();
    assert_eq!(r.register(*b"avc ", 9), Err(RegistryError::DuplicateCodec));
    // The existing entry is intact, not overwritten.
    assert_eq!(r.lookup(b"avc "), Some(&1));
}

#[test]
fn contains_tracks_registration() {
    let mut r: Registry<u32> = Registry::new();
    assert!(!r.contains(b"avc "));
    r.register(*b"avc ", 1).unwrap();
    assert!(r.contains(b"avc "));
    assert!(!r.contains(b"vp8 "));
}

#[test]
fn select_miss_is_unsupported_codec() {
    let mut r: Registry<u32> = Registry::new();
    r.register(*b"avc ", 1).unwrap();
    assert_eq!(r.select(b"avc "), Ok(&1));
    assert_eq!(r.select(b"hevc"), Err(RegistryError::UnsupportedCodec));
}
