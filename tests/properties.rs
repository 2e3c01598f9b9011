use bgroot::eviction::eviction_targets;
use bgroot::property::{decode_pixmap_property, property_format, PropertyFormat, ATOM_PIXMAP};
use bgroot::error::UNREADABLE_REPLY;
use bgroot::{ByteOrder, Error};

#[test]
fn property_of_other_type_is_absent() {
    let v = vec![1, 0, 0, 0];
    assert_eq!(decode_pixmap_property(6, 32, &v, ByteOrder::Little), Ok(None));
    assert_eq!(decode_pixmap_property(0, 0, &Vec::new(), ByteOrder::Little), Ok(None));
}

#[test]
fn decode_32_bit_little_endian() {
    let v = vec![0x78, 0x56, 0x34, 0x12];
    assert_eq!(decode_pixmap_property(ATOM_PIXMAP, 32, &v, ByteOrder::Little), Ok(Some(0x12345678)));
}

#[test]
fn decode_32_bit_big_endian() {
    let v = vec![0x12, 0x34, 0x56, 0x78];
    assert_eq!(decode_pixmap_property(ATOM_PIXMAP, 32, &v, ByteOrder::Big), Ok(Some(0x12345678)));
}

#[test]
fn decode_32_bit_reads_first_item_only() {
    let v = vec![0x01, 0x00, 0x60, 0x00, 0xff, 0xff, 0xff, 0xff];
    assert_eq!(decode_pixmap_property(ATOM_PIXMAP, 32, &v, ByteOrder::Little), Ok(Some(0x0060_0001)));
}

#[test]
fn decode_16_and_8_bit_items() {
    let v = vec![0x01, 0x00, 0x60, 0x00];
    assert_eq!(decode_pixmap_property(ATOM_PIXMAP, 16, &v, ByteOrder::Little), Ok(Some(0x0060_0001)));
    assert_eq!(decode_pixmap_property(ATOM_PIXMAP, 8, &v, ByteOrder::Little), Ok(Some(0x0060_0001)));
    assert_eq!(decode_pixmap_property(ATOM_PIXMAP, 8, &v, ByteOrder::Big), Ok(Some(0x0100_6000)));
}

#[test]
fn decode_unknown_width_is_an_error() {
    let v = vec![1, 0, 0, 0];
    assert_eq!(
        decode_pixmap_property(ATOM_PIXMAP, 24, &v, ByteOrder::Little),
        Err(Error::Protocol { code: UNREADABLE_REPLY })
    );
}

#[test]
fn decode_short_value_is_an_error() {
    let v = vec![1, 0];
    assert_eq!(
        decode_pixmap_property(ATOM_PIXMAP, 32, &v, ByteOrder::Little),
        Err(Error::Protocol { code: UNREADABLE_REPLY })
    );
    assert_eq!(
        decode_pixmap_property(ATOM_PIXMAP, 16, &vec![1, 0, 0], ByteOrder::Little),
        Err(Error::Protocol { code: UNREADABLE_REPLY })
    );
}

#[test]
fn decode_narrow_items_reads_first_four_bytes() {
    let w = vec![0x02, 0x00, 0x50, 0x00, 0xaa, 0xbb];
    assert_eq!(decode_pixmap_property(ATOM_PIXMAP, 8, &w, ByteOrder::Little), Ok(Some(0x0050_0002)));
    let v = vec![0x02, 0x00, 0x50, 0x00, 0xaa, 0xbb, 0xcc, 0xdd];
    assert_eq!(decode_pixmap_property(ATOM_PIXMAP, 16, &v, ByteOrder::Little), Ok(Some(0x0050_0002)));
}

#[test]
fn property_formats() {
    assert_eq!(property_format(32), Some(PropertyFormat::Bits32));
    assert_eq!(property_format(16), Some(PropertyFormat::Bits16));
    assert_eq!(property_format(8), Some(PropertyFormat::Bits8));
    assert_eq!(property_format(0), None);
}

#[test]
fn eviction_of_nothing_is_empty() {
    assert!(eviction_targets(None, None).is_empty());
}

#[test]
fn eviction_of_one_owner() {
    assert_eq!(eviction_targets(Some(5), None), vec![5]);
    assert_eq!(eviction_targets(None, Some(9)), vec![9]);
}

#[test]
fn eviction_deduplicates_equal_ids() {
    assert_eq!(eviction_targets(Some(7), Some(7)), vec![7]);
}

#[test]
fn eviction_of_two_owners() {
    assert_eq!(eviction_targets(Some(7), Some(8)), vec![7, 8]);
}
