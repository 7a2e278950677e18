use piv_applet::bitmaps::Glyph;
use piv_applet::layout::Line;
use piv_applet::logging::{debug, info, trace, warn};
use piv_applet::tlv::decode_tlv;
use piv_applet::utils::device_uuid;

#[test]
fn device_uuid_matches_an_independent_computation() {
    let serial = [0x10u8, 0x21, 0x32, 0x43, 0x54, 0x65, 0x76];
    let namespace = uuid::Uuid::new_v5(&uuid::Uuid::NAMESPACE_DNS, b"ledger.fr");
    let expected = uuid::Uuid::new_v5(&namespace, &serial).into_bytes();
    assert_eq!(device_uuid(&serial), expected);
}

#[test]
fn device_uuid_depends_on_the_serial() {
    let a = device_uuid(&[1, 2, 3, 4, 5, 6, 7]);
    let b = device_uuid(&[1, 2, 3, 4, 5, 6, 8]);
    assert_ne!(a, b);
}

#[test]
fn decode_tlv_reads_one_node() {
    let (tag, len, value) = decode_tlv(&[0x85, 0x03, 0xAA, 0xBB, 0xCC, 0xDD]).unwrap();
    assert_eq!(tag, 0x85);
    assert_eq!(len, 0x03);
    assert_eq!(value, &[0xAA, 0xBB, 0xCC]);
}

#[test]
fn decode_tlv_rejects_truncated_input() {
    assert!(decode_tlv(&[]).is_err());
    assert!(decode_tlv(&[0x85]).is_err());
    assert!(decode_tlv(&[0x85, 0x03, 0xAA, 0xBB]).is_err());
}

#[test]
fn decode_tlv_accepts_an_empty_value() {
    let (tag, len, value) = decode_tlv(&[0x82, 0x00]).unwrap();
    assert_eq!(tag, 0x82);
    assert_eq!(len, 0x00);
    assert!(value.is_empty());
}

#[test]
fn log_lines_frame_level_and_message() {
    assert_eq!(trace("boot"), "[TRACE]boot\n");
    assert_eq!(debug("x=1"), "[DEBUG]x=1\n");
    assert_eq!(info(""), "[INFO]\n");
    assert_eq!(warn("low battery"), "[WARN]low battery\n");
}

#[test]
fn glyph_constructors_keep_their_fields() {
    let g = Glyph::new([1u8, 2, 3, 4], 2, 2);
    assert_eq!(g.bitmap, [1, 2, 3, 4]);
    assert_eq!(g.width, 2);
    assert_eq!(g.height, 2);
    assert!(!g.inverted);

    let h = Glyph::from_include(([9u8, 9], 1, 16));
    assert_eq!(h.bitmap, [9, 9]);
    assert_eq!(h.width, 1);
    assert_eq!(h.height, 16);
    assert!(!h.inverted);

    let inv = h.invert();
    assert!(inv.inverted);
    assert_eq!(inv.bitmap, [9, 9]);
    assert_eq!(inv.width, 1);
    assert_eq!(inv.height, 16);
}

#[test]
fn screen_lines_have_fixed_rows() {
    assert_eq!(Line::First.row(), 22);
    assert_eq!(Line::Second.row(), 42);
    assert_eq!(Line::Third.row(), 62);
}
