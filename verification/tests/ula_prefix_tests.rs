use sha1::{Digest, Sha1};
use ula_prefix::error::UlaError;
use ula_prefix::identifier::Identifier;
use ula_prefix::prefix::{generate_ula_prefix, generate_ula_prefix_from_fetch, UlaPrefix};
use ula_prefix::timestamp::NtpTimestamp;

#[test]
fn normalize_mac_has_eui64_shape() {
    let macs: [[u8; 6]; 4] = [
        [0x00, 0x11, 0x22, 0x33, 0x44, 0x55],
        [0xff, 0xff, 0xff, 0xff, 0xff, 0xff],
        [0x01, 0x00, 0x5e, 0x7f, 0x00, 0x01],
        [0xde, 0xad, 0xbe, 0xef, 0x00, 0x42],
    ];
    for m in macs {
        let r = Identifier::MacAddressIdentifier(m).normalize();
        assert_eq!(r.len(), 8);
        assert_eq!(r[3], 0xff);
        assert_eq!(r[4], 0xfe);
        assert_eq!(r[0] & 0x02, 0x02);
        assert_eq!(r[0], (m[0] | 0x02) & 0xfe);
        assert_eq!(&r[..3], &[(m[0] | 0x02) & 0xfe, m[1], m[2]]);
        assert_eq!(&r[5..], &m[3..]);
    }
}

#[test]
fn normalize_mac_scenario() {
    let id = Identifier::MacAddressIdentifier([0x00, 0x11, 0x22, 0x33, 0x44, 0x55]);
    assert_eq!(
        id.normalize(),
        vec![0x02, 0x11, 0x22, 0xff, 0xfe, 0x33, 0x44, 0x55]
    );
}

#[test]
fn normalize_string_is_identity() {
    for s in ["", "hello", "0.pool.ntp.org", "\u{65e5}\u{672c}\u{8a9e} \u{1f980}"] {
        let id = Identifier::from_str_bytes(s);
        assert_eq!(id.normalize(), s.as_bytes().to_vec());
    }
}

#[test]
fn generate_is_deterministic() {
    let id: [u8; 8] = [0x02, 0x11, 0x22, 0xff, 0xfe, 0x33, 0x44, 0x55];
    let t: [u8; 8] = [0xe0, 0x01, 0x02, 0x03, 0x10, 0x20, 0x30, 0x40];
    let p1 = generate_ula_prefix(&id, &t);
    let p2 = generate_ula_prefix(&id, &t);
    assert_eq!(p1.0, p2.0);
}

#[test]
fn generate_prefix_shape_always_holds() {
    let inputs: [(&[u8], [u8; 8]); 3] = [
        (&[], [0; 8]),
        (b"some-identifier", [0xe0, 1, 2, 3, 4, 5, 6, 7]),
        (&[0x02, 0x11, 0x22, 0xff, 0xfe, 0x33, 0x44, 0x55], [0xff; 8]),
    ];
    for (id, t) in inputs {
        let p = generate_ula_prefix(id, &t);
        assert_eq!(p.0[0], 0xfd);
        assert_eq!(p.0[6], 0x00);
        assert_eq!(p.0[7], 0x00);
    }
}

#[test]
fn generate_zero_input_scenario() {
    // SHA-1 of 16 zero bytes is e129f27c5103bc5cc44bcdf0a15e160d445066ff;
    // its last five bytes fill the prefix body.
    let p = generate_ula_prefix(&[0u8; 8], &[0u8; 8]);
    assert_eq!(p.0, [0xfd, 0x0d, 0x44, 0x50, 0x66, 0xff, 0x00, 0x00]);
    assert_eq!(p.to_string(), "fd0d:4450:66ff:0000");
}

#[test]
fn generate_matches_reference_digest() {
    let id: [u8; 8] = [0x02, 0x11, 0x22, 0xff, 0xfe, 0x33, 0x44, 0x55];
    let t: [u8; 8] = [0xe5, 0x00, 0x11, 0x22, 0x33, 0x44, 0x55, 0x66];
    let p = generate_ula_prefix(&id, &t);
    let mut input = Vec::new();
    input.extend_from_slice(&t);
    input.extend_from_slice(&id);
    let digest = Sha1::digest(&input);
    assert_eq!(&p.0[1..6], &digest[15..20]);
}

#[test]
fn network_error_short_circuits() {
    let id = Identifier::from_str_bytes("node-7");
    let fetched: Result<[u8; 8], UlaError> =
        Err(UlaError::NetworkError("connection timed out".to_string()));
    let r = generate_ula_prefix_from_fetch(&id, fetched);
    assert_eq!(
        r.unwrap_err(),
        UlaError::NetworkError("connection timed out".to_string())
    );
}

#[test]
fn identifier_unavailable_passes_through() {
    let id = Identifier::MacAddressIdentifier([0; 6]);
    let r = generate_ula_prefix_from_fetch(&id, Err(UlaError::IdentifierUnavailable));
    assert!(matches!(r, Err(UlaError::IdentifierUnavailable)));
}

#[test]
fn fetched_time_yields_prefix_of_normalized_identifier() {
    let id = Identifier::MacAddressIdentifier([0x00, 0x11, 0x22, 0x33, 0x44, 0x55]);
    let t: [u8; 8] = [0xe5, 0x00, 0x11, 0x22, 0x33, 0x44, 0x55, 0x66];
    let p = generate_ula_prefix_from_fetch(&id, Ok(t)).unwrap();
    let direct = generate_ula_prefix(&[0x02, 0x11, 0x22, 0xff, 0xfe, 0x33, 0x44, 0x55], &t);
    assert_eq!(p.0, direct.0);
}

#[test]
fn format_scenario() {
    let p = UlaPrefix([0xfd, 0x00, 0x01, 0x02, 0x03, 0x04, 0x00, 0x00]);
    assert_eq!(p.to_string(), "fd00:0102:0304:0000");
}

#[test]
fn format_mixed_case_bytes() {
    let p = UlaPrefix([0xfd, 0xab, 0xcd, 0xef, 0x12, 0x34, 0x00, 0x00]);
    assert_eq!(p.to_string(), "fdab:cdef:1234:0000");
}

#[test]
fn format_round_trips_structurally() {
    let originals = [
        [0xfd, 0x00, 0x01, 0x02, 0x03, 0x04, 0x00, 0x00],
        [0xfd, 0xab, 0xcd, 0xef, 0x12, 0x34, 0x00, 0x00],
        [0x00, 0xff, 0x10, 0x9f, 0xa0, 0x0b, 0x55, 0xaa],
    ];
    for bytes in originals {
        let s = UlaPrefix(bytes).to_string();
        assert_eq!(s.len(), 19);
        let hex: String = s.chars().filter(|c| *c != ':').collect();
        assert_eq!(hex.len(), 16);
        let mut parsed = [0u8; 8];
        for i in 0..8 {
            parsed[i] = u8::from_str_radix(&hex[2 * i..2 * i + 2], 16).unwrap();
        }
        assert_eq!(parsed, bytes);
    }
}

#[test]
fn timestamp_packs_big_endian() {
    let t = NtpTimestamp {
        sec: 0x01020304,
        frac: 0xa0b0c0d0,
    };
    assert_eq!(t.to_bytes(), [0x01, 0x02, 0x03, 0x04, 0xa0, 0xb0, 0xc0, 0xd0]);
    let zero = NtpTimestamp { sec: 0, frac: 0 };
    assert_eq!(zero.to_bytes(), [0; 8]);
    let max = NtpTimestamp {
        sec: u32::MAX,
        frac: u32::MAX,
    };
    assert_eq!(max.to_bytes(), [0xff; 8]);
}
