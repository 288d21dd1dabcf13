use ftoc::packet::{Packet, PacketData, PacketStart};
use ftoc::wire::Reader;

#[test]
fn roundtrip_noop() {
    let txt = Packet::Noop.encode();
    assert_eq!(txt, "\u{4}");
    assert_eq!(Packet::decode(&txt), Packet::Noop);
}

#[test]
fn roundtrip_end() {
    let txt = Packet::End.encode();
    assert_eq!(txt, "\u{2}");
    assert_eq!(Packet::decode(&txt), Packet::End);
}

#[test]
fn roundtrip_start() {
    let p = Packet::Start(PacketStart {
        name: "a.bin".to_owned(),
        length: 10,
        timeout: 500,
    });
    let txt = p.encode();
    assert!(txt.starts_with('\u{1}'));
    let q = Packet::decode(&txt);
    assert_eq!(q, p);
}

#[test]
fn roundtrip_start_empty_name() {
    let p = Packet::Start(PacketStart {
        name: String::new(),
        length: u64::MAX,
        timeout: u32::MAX,
    });
    assert_eq!(Packet::decode(&p.encode()), p);
}

#[test]
fn roundtrip_start_unicode_name() {
    let p = Packet::Start(PacketStart {
        name: " démo – データ.bin".to_owned(),
        length: 1,
        timeout: 150,
    });
    assert_eq!(Packet::decode(&p.encode()), p);
}

#[test]
fn roundtrip_data() {
    let p = Packet::Data(PacketData {
        index: 3,
        data: vec![0, 1, 2, 254, 255],
    });
    let txt = p.encode();
    assert!(txt.starts_with('\u{3}'));
    assert_eq!(Packet::decode(&txt), p);
}

#[test]
fn roundtrip_data_empty_payload() {
    let p = Packet::Data(PacketData {
        index: u64::MAX,
        data: vec![],
    });
    assert_eq!(Packet::decode(&p.encode()), p);
}

// The wire body is the ascii85 text of the big-endian fields: a packet
// built by hand with the ascii85 crate must decode identically.
#[test]
fn decode_interop_with_ascii85() {
    let mut body = Vec::new();
    body.extend_from_slice(&7u64.to_be_bytes());
    body.extend_from_slice(&[1, 2, 3]);
    let txt = format!("\u{3}{}", ascii85::encode(&body));
    let p = Packet::decode(&txt);
    assert_eq!(
        p,
        Packet::Data(PacketData {
            index: 7,
            data: vec![1, 2, 3],
        })
    );
}

#[test]
fn encode_interop_with_ascii85() {
    let p = Packet::Start(PacketStart {
        name: "x".to_owned(),
        length: 258,
        timeout: 1000,
    });
    let mut body = Vec::new();
    body.extend_from_slice(&258u64.to_be_bytes());
    body.extend_from_slice(&1000u32.to_be_bytes());
    body.extend_from_slice(b"x");
    assert_eq!(p.encode(), format!("\u{1}{}", ascii85::encode(&body)));
}

#[test]
fn decode_empty_is_noop() {
    assert_eq!(Packet::decode(""), Packet::Noop);
}

#[test]
fn decode_unknown_control_is_noop() {
    assert_eq!(Packet::decode("hello"), Packet::Noop);
    assert_eq!(Packet::decode("\u{7}abc"), Packet::Noop);
}

#[test]
fn decode_empty_body_is_noop() {
    // a control byte with no body at all: too short for either variant
    assert_eq!(Packet::decode("\u{1}"), Packet::Noop);
    assert_eq!(Packet::decode("\u{3}"), Packet::Noop);
}

#[test]
fn decode_non_text_safe_body_is_noop() {
    // bytes outside the ascii85 digit range
    assert_eq!(Packet::decode("\u{1}\u{80}\u{81}"), Packet::Noop);
    assert_eq!(Packet::decode("\u{3}~~~~~~\u{0}"), Packet::Noop);
}

#[test]
fn decode_truncated_body_is_noop() {
    // a Start body cut down to fewer than its twelve fixed bytes
    let short = ascii85::encode(&[0u8; 5]);
    assert_eq!(Packet::decode(&format!("\u{1}{short}")), Packet::Noop);
    // a Data body cut below its eight-byte index
    let short = ascii85::encode(&[0u8; 3]);
    assert_eq!(Packet::decode(&format!("\u{3}{short}")), Packet::Noop);
}

#[test]
fn decode_invalid_utf8_name_is_noop() {
    let mut body = Vec::new();
    body.extend_from_slice(&10u64.to_be_bytes());
    body.extend_from_slice(&500u32.to_be_bytes());
    body.extend_from_slice(&[0xff, 0xfe]);
    let txt = format!("\u{1}{}", ascii85::encode(&body));
    assert_eq!(Packet::decode(&txt), Packet::Noop);
}

#[test]
fn reader_reads_big_endian_fields() {
    let bytes = [
        0, 0, 0, 0, 0x01, 0xef, 0x56, 0x4a, // 32462410 big-endian
        0, 0, 0x03, 0xe8, // 1000 big-endian
        b'h', b'i',
    ];
    let mut r = Reader::from(&bytes, 0);
    assert_eq!(r.read_u64(), 32462410);
    assert_eq!(r.read_u32(), 1000);
    assert_eq!(r.read_to_end(), vec![b'h', b'i']);
}

#[test]
fn reader_read_usize() {
    let bytes = [0, 0, 0, 0, 0, 0, 0x30, 0x39];
    let mut r = Reader::from(&bytes, 0);
    assert_eq!(r.read_usize(), 12345);
}

#[test]
fn decode_overflowing_group_is_noop() {
    // five-digit groups above u32::MAX would overrun the decoder's
    // arithmetic; the codec turns them into Noop instead
    assert_eq!(Packet::decode("\u{3}u"), Packet::Noop);
    assert_eq!(Packet::decode("\u{1}uuuuu"), Packet::Noop);
    assert_eq!(Packet::decode("\u{3}<~uuuuu~>"), Packet::Noop);
}

#[test]
fn decode_largest_group_value() {
    // "s8W-!" is the group for u32::MAX, the last value in bounds:
    // two of them are the eight 0xff bytes of the largest block index
    let p = Packet::decode("\u{3}s8W-!s8W-!");
    assert_eq!(
        p,
        Packet::Data(PacketData {
            index: u64::MAX,
            data: vec![],
        })
    );
}

#[test]
fn decode_whitespace_laced_body_is_noop() {
    // whitespace inside the text-safe body is conservatively unreadable
    assert_eq!(Packet::decode("\u{3}<~ s8W-! ~>"), Packet::Noop);
}

#[test]
fn encode_body_is_printable() {
    let p = Packet::Data(PacketData {
        index: 1,
        data: (0u8..=255).collect(),
    });
    for (i, c) in p.encode().chars().enumerate() {
        if i > 0 {
            assert!((33..=126).contains(&(c as u32)), "unprintable {c:?} at {i}");
        }
    }
}
