use chmparse::cursor::Cursor;
use chmparse::encint::{parse_encint_be, EncIntParseError};

fn cursor_for(input: &[u8]) -> Cursor {
    Cursor::new(input)
}

/// Reference ENCINT encoder: seven bits per byte, most significant group
/// first, continuation bit on every byte but the last.
fn encode(v: u64) -> Vec<u8> {
    let mut groups = vec![(v & 0x7F) as u8];
    let mut rest = v >> 7;
    while rest != 0 {
        groups.push((rest & 0x7F) as u8 | 0x80);
        rest >>= 7;
    }
    groups.reverse();
    groups
}

#[test]
fn it_fails_on_empty() {
    let input: &[u8] = &[];
    let pos = cursor_for(input);

    let err = parse_encint_be(input, pos).unwrap_err();
    assert_eq!(pos.offset, 0);
    assert!(matches!(err, EncIntParseError::NotEnoughData));
}

#[test]
fn it_fails_on_not_enough_data() {
    let inputs: &[&[u8]] = &[
        &[0xF0],
        &[0xFF, 0xFF, 0xFF],
        &[0xFF, 0xFF, 0xFF, 0xFF, 0xFF, 0xFF, 0xFF, 0xFF, 0xFF],
    ];
    for &input in inputs.iter() {
        let pos = cursor_for(input);

        let err = parse_encint_be(input, pos).unwrap_err();
        assert_eq!(pos.offset, 0);
        assert!(matches!(err, EncIntParseError::NotEnoughData));
    }
}

#[test]
fn it_fails_on_too_long_for_u64() {
    let inputs: &[&[u8]] = &[
        &[
            // 11 bytes (definitely > 64bit of data)
            0x80, 0x80, 0x80, 0x80, 0x80, 0x80, 0x80, 0x80, 0x80, 0x80, 0x00,
        ],
        &[
            // only 10 bytes, but >64 ones
            0b1000_0011,
            0b1111_1111,
            0b1111_1111,
            0b1111_1111,
            0b1111_1111,
            0b1111_1111,
            0b1111_1111,
            0b1111_1111,
            0b1111_1111,
            0b0111_1111,
        ],
    ];

    for &input in inputs.iter() {
        let pos = cursor_for(input);

        let err = parse_encint_be(input, pos).unwrap_err();
        assert_eq!(pos.offset, 0);
        assert!(matches!(err, EncIntParseError::EncodedIntegerTooLong));
    }
}

#[test]
fn it_works() {
    let in_outs: &[(&[u8], u64)] = &[
        (&[0], 0),
        (&[0b10], 2),
        (&[0b0101_1010], 0b0101_1010),
        (&[0b1111_1111, 0b0111_1111], 0b0011_1111_1111_1111),
        (
            &[
                // exactly 64 ones
                0b1000_0001,
                0b1111_1111,
                0b1111_1111,
                0b1111_1111,
                0b1111_1111,
                0b1111_1111,
                0b1111_1111,
                0b1111_1111,
                0b1111_1111,
                0b0111_1111,
            ],
            u64::MAX,
        ),
    ];

    for &(input, output) in in_outs.iter() {
        let pos = cursor_for(input);

        let (Cursor { offset, .. }, val) = parse_encint_be(input, pos).unwrap();
        assert_eq!(offset, input.len());
        assert_eq!(val, output);
    }
}

#[test]
fn round_trip_reproduces_every_sample_value() {
    let samples: &[u64] = &[
        0,
        1,
        2,
        127,
        128,
        0x3515,
        0xFFFF,
        0x0010_0000,
        0x1234_5678_9ABC_DEF0,
        (1 << 56) - 1,
        1 << 56,
        (1 << 63) - 1,
        1 << 63,
        u64::MAX - 1,
        u64::MAX,
    ];
    for &v in samples {
        let encoded = encode(v);
        let pos = cursor_for(&encoded);
        let (after, val) = parse_encint_be(&encoded, pos).unwrap();
        assert_eq!(val, v);
        assert_eq!(after.offset, encoded.len());
    }
}

#[test]
fn maximal_value_takes_exactly_ten_bytes() {
    let encoded = encode(u64::MAX);
    assert_eq!(encoded.len(), 10);
    let (after, val) = parse_encint_be(&encoded, cursor_for(&encoded)).unwrap();
    assert_eq!(val, u64::MAX);
    assert_eq!(after.offset, 10);
}

#[test]
fn example_from_the_format_notes() {
    // $EA $15 is (((0xEA & 0x7F) << 7) | 0x15) = 0x3515
    let input: &[u8] = &[0xEA, 0x15];
    let (after, val) = parse_encint_be(input, cursor_for(input)).unwrap();
    assert_eq!(val, 0x3515);
    assert_eq!(after.offset, 2);
}
