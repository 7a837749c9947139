use dustdb::uuid::{format_v4_uuid, generate_v4_uuid};

fn has_uuid_v4_shape(s: &str) -> bool {
    let b = s.as_bytes();
    if b.len() != 36 {
        return false;
    }
    for (i, c) in b.iter().enumerate() {
        let ok = if i == 8 || i == 13 || i == 18 || i == 23 {
            *c == b'-'
        } else {
            c.is_ascii_digit() || (b'a'..=b'f').contains(c)
        };
        if !ok {
            return false;
        }
    }
    b[14] == b'4' && matches!(b[19], b'8' | b'9' | b'a' | b'b')
}

#[test]
fn format_all_zero_bytes() {
    let id = format_v4_uuid(&[0u8; 16]);
    assert_eq!(id, "00000000-0000-4000-8000-000000000000");
}

#[test]
fn format_known_bytes() {
    let bytes: [u8; 16] = [
        0x00, 0x01, 0x02, 0x03, 0x04, 0x05, 0x06, 0x07, 0x08, 0x09, 0x0a, 0x0b, 0x0c, 0x0d, 0x0e,
        0x0f,
    ];
    assert_eq!(format_v4_uuid(&bytes), "00010203-0405-4607-8809-0a0b0c0d0e0f");
}

#[test]
fn format_forces_version_and_variant() {
    let id = format_v4_uuid(&[0xff; 16]);
    assert_eq!(id, "ffffffff-ffff-4fff-bfff-ffffffffffff");
}

#[test]
fn generated_identifier_matches_pattern() {
    for _ in 0..32 {
        let id = generate_v4_uuid();
        assert!(has_uuid_v4_shape(&id), "bad identifier shape: {}", id);
    }
}

#[test]
fn generated_identifiers_are_distinct() {
    let ids: Vec<String> = (0..8).map(|_| generate_v4_uuid()).collect();
    for i in 0..ids.len() {
        for j in 0..i {
            assert_ne!(ids[i], ids[j]);
        }
    }
}
