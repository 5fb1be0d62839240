//! Tests of the wire codec.

use ledc::codec::{decode_immediate, encode_immediate};
use ledc::state::Strip;

/// Exact wire bytes: levels are inverted, big-endian, cold before warm.
#[test]
fn immediate_frame_exact_bytes() {
    let strips = vec![Strip { cold: 0, warm: 0 }];
    assert_eq!(encode_immediate(&strips), vec![0x1, 0xff, 0xff, 0xff, 0xff]);

    let strips = vec![Strip { cold: 65535, warm: 65535 }];
    assert_eq!(encode_immediate(&strips), vec![0x1, 0x00, 0x00, 0x00, 0x00]);

    // 65535 - 0x1234 = 0xedcb, 65535 - 0x00ff = 0xff00.
    let strips = vec![Strip { cold: 0x1234, warm: 0x00ff }];
    assert_eq!(encode_immediate(&strips), vec![0x1, 0xed, 0xcb, 0xff, 0x00]);
}

/// Round trip: encoding then decoding a strip pair via the Immediate frame
/// recovers `65535 - original` exactly — the wire inversion, deliberately
/// not the original values.
#[test]
fn immediate_round_trip_recovers_inversion() {
    let strips = vec![
        Strip { cold: 1000, warm: 2000 },
        Strip { cold: 0, warm: 65535 },
    ];
    let frame = encode_immediate(&strips);
    let back = decode_immediate(&frame).expect("well-formed frame");
    assert_eq!(back.len(), 2);
    assert_eq!(back[0], Strip { cold: 65535 - 1000, warm: 65535 - 2000 });
    assert_eq!(back[1], Strip { cold: 65535, warm: 0 });
}

/// Decoding rejects a wrong opcode, a truncated payload, and emptiness.
#[test]
fn decode_rejects_malformed_frames() {
    assert!(decode_immediate(&vec![]).is_none());
    assert!(decode_immediate(&vec![0x2, 0, 0, 0, 0]).is_none());
    assert!(decode_immediate(&vec![0x1, 0xff, 0xff, 0xff]).is_none());
    // Opcode alone is a valid frame of zero strips.
    assert_eq!(decode_immediate(&vec![0x1]), Some(vec![]));
}
