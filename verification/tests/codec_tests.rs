use packet_builder::codec::{read_slot, write_slot, Endianness};
use packet_builder::ir::{build_codec, CodecError};
use packet_builder::layout::{compute_layout, LayoutEntry};
use packet_builder::parser::parse_file;
use packet_builder::wire::WireError;

fn header() -> packet_builder::models::parsing_models::PacketExpr {
    let text = "packet Header { version: uint8, length: uint16, flags: uint8[2] }".to_string();
    parse_file(&text).unwrap().remove(0)
}

#[test]
fn little_endian_bytes_of_a_four_byte_value() {
    let mut buffer = vec![0u8; 4];
    write_slot(&mut buffer, 0, 4, Endianness::Little, 0x0102_0304);
    assert_eq!(buffer, vec![0x04, 0x03, 0x02, 0x01]);
    assert_eq!(read_slot(&buffer, 0, 4, Endianness::Little), 0x0102_0304);
}

#[test]
fn big_endian_bytes_of_a_four_byte_value() {
    let mut buffer = vec![0xAAu8; 6];
    write_slot(&mut buffer, 1, 4, Endianness::Big, 0x0102_0304);
    assert_eq!(buffer, vec![0xAA, 0x01, 0x02, 0x03, 0x04, 0xAA]);
    assert_eq!(read_slot(&buffer, 1, 4, Endianness::Big), 0x0102_0304);
}

#[test]
fn header_layout_has_size_five() {
    let layout = compute_layout(&header());
    assert_eq!(layout.total_size, 5);
    assert_eq!(
        layout.entries,
        vec![
            LayoutEntry { field_id: "version".to_string(), byte_offset: 0, byte_width: 1, element_count: 1 },
            LayoutEntry { field_id: "length".to_string(), byte_offset: 1, byte_width: 2, element_count: 1 },
            LayoutEntry { field_id: "flags".to_string(), byte_offset: 3, byte_width: 1, element_count: 2 },
        ]
    );
}

#[test]
fn header_slots_lie_at_offsets_0_1_3_4() {
    let codec = build_codec(&header(), Endianness::Little).unwrap();
    let offsets: Vec<usize> = codec.slots().iter().map(|slot| slot.byte_offset).collect();
    assert_eq!(offsets, vec![0, 1, 3, 4]);
    let elements: Vec<Option<usize>> = codec.slots().iter().map(|slot| slot.element_index).collect();
    assert_eq!(elements, vec![None, None, Some(0), Some(1)]);
    assert_eq!(codec.total_size(), 5);
}

#[test]
fn header_round_trip() {
    let codec = build_codec(&header(), Endianness::Little).unwrap();
    let values = vec![7u64, 0xBEEF, 1, 255];
    let bytes = codec.serialize(&values).unwrap();
    assert_eq!(bytes, vec![7, 0xEF, 0xBE, 1, 255]);
    assert_eq!(codec.deserialize(&bytes).unwrap(), values);
}

#[test]
fn value_that_does_not_fit_is_refused() {
    let codec = build_codec(&header(), Endianness::Little).unwrap();
    assert_eq!(codec.serialize(&vec![7, 0x1_0000, 1, 2]), Err(WireError::ValueTooWide { slot: 1 }));
    assert_eq!(codec.serialize(&vec![7, 1]), Err(WireError::ValueCount { expected: 4, found: 2 }));
    assert_eq!(codec.deserialize(&[1, 2, 3]), Err(WireError::BufferLength { expected: 5, found: 3 }));
}

#[test]
fn aggregate_is_refused_when_the_codec_is_built() {
    let text = "packet P { flags: uint8[2], total: uint32 = sum-of(flags) }".to_string();
    let packet = parse_file(&text).unwrap().remove(0);
    assert_eq!(
        build_codec(&packet, Endianness::Little),
        Err(CodecError::UnsupportedExpression { packet: "P".to_string(), field: "total".to_string() })
    );
}
