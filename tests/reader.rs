use rust_tiff::{
    decode_entry, inline_value, read_u16_in, read_u32_in, Diagnostic, EntryPolicy, HeaderMagic,
    IoFault, MemoryReader, SeekableReader, TIFFByteOrder, TIFFError, TIFFHeader, TIFFReader,
    TIFFTag, TagType, TagValue,
};

fn u16_bytes(order: TIFFByteOrder, v: u16) -> Vec<u8> {
    match order {
        TIFFByteOrder::LittleEndian => v.to_le_bytes().to_vec(),
        TIFFByteOrder::BigEndian => v.to_be_bytes().to_vec(),
    }
}

fn u32_bytes(order: TIFFByteOrder, v: u32) -> Vec<u8> {
    match order {
        TIFFByteOrder::LittleEndian => v.to_le_bytes().to_vec(),
        TIFFByteOrder::BigEndian => v.to_be_bytes().to_vec(),
    }
}

fn header_bytes(order: TIFFByteOrder, offset: u32) -> Vec<u8> {
    let mut v = match order {
        TIFFByteOrder::LittleEndian => vec![0x49, 0x49, 0x2a, 0x00],
        TIFFByteOrder::BigEndian => vec![0x4d, 0x4d, 0x00, 0x2a],
    };
    v.extend(u32_bytes(order, offset));
    v
}

fn record(order: TIFFByteOrder, tag: u16, typ: u16, count: u32, field: [u8; 4]) -> Vec<u8> {
    let mut v = u16_bytes(order, tag);
    v.extend(u16_bytes(order, typ));
    v.extend(u32_bytes(order, count));
    v.extend_from_slice(&field);
    v
}

/// A stream whose directory follows the header directly.
fn stream(order: TIFFByteOrder, records: &[Vec<u8>]) -> Vec<u8> {
    let mut v = header_bytes(order, 8);
    v.extend(u16_bytes(order, records.len() as u16));
    for r in records {
        v.extend_from_slice(r);
    }
    v
}

fn read(bytes: Vec<u8>) -> Result<TIFFHeader, TIFFError> {
    let mut source = MemoryReader::new(bytes);
    TIFFReader.read(&mut source)
}

fn read_lenient(bytes: Vec<u8>) -> Result<TIFFHeader, TIFFError> {
    let mut source = MemoryReader::new(bytes);
    TIFFReader.read_with_policy(&mut source, EntryPolicy::Lenient)
}

const LE: TIFFByteOrder = TIFFByteOrder::LittleEndian;
const BE: TIFFByteOrder = TIFFByteOrder::BigEndian;

#[test]
fn little_endian_header_decodes() {
    let mut bytes = vec![0x49, 0x49, 0x2a, 0x00, 0x10, 0x00, 0x00, 0x00];
    bytes.extend(vec![0u8; 8]);
    bytes.extend(vec![0x00, 0x00]);
    let h = read(bytes).unwrap();
    assert_eq!(h.byte_order, TIFFByteOrder::LittleEndian);
    assert_eq!(h.magic, HeaderMagic::LittleEndian);
    assert_eq!(h.ifd_offset, 16);
    assert_eq!(h.ifd.count, 0);
    assert!(h.ifd.entries.is_empty());
}

#[test]
fn big_endian_header_decodes_to_the_same_offset() {
    let mut bytes = vec![0x4d, 0x4d, 0x00, 0x2a, 0x00, 0x00, 0x00, 0x10];
    bytes.extend(vec![0u8; 8]);
    bytes.extend(vec![0x00, 0x00]);
    let h = read(bytes).unwrap();
    assert_eq!(h.byte_order, TIFFByteOrder::BigEndian);
    assert_eq!(h.magic, HeaderMagic::BigEndian);
    assert_eq!(h.ifd_offset, 16);
}

#[test]
fn large_offset_is_read_in_stream_order() {
    let mut le = header_bytes(LE, 0x0102);
    le.resize(0x0102, 0);
    le.extend(vec![0, 0]);
    assert_eq!(read(le).unwrap().ifd_offset, 0x0102);
    let mut be = header_bytes(BE, 0x0102);
    be.resize(0x0102, 0);
    be.extend(vec![0, 0]);
    assert_eq!(read(be).unwrap().ifd_offset, 0x0102);
}

#[test]
fn unknown_marker_fails() {
    let mut bytes = vec![0x00, 0x00, 0x2a, 0x00, 0x08, 0x00, 0x00, 0x00, 0x00, 0x00];
    assert_eq!(read(bytes.clone()).unwrap_err(), TIFFError::InvalidByteOrderMarker(0x0000));
    bytes[0] = 0x49;
    bytes[1] = 0x4d;
    assert_eq!(read(bytes).unwrap_err(), TIFFError::InvalidByteOrderMarker(0x4d49));
}

#[test]
fn wrong_magic_fails() {
    let bytes = vec![0x49, 0x49, 0x2b, 0x00, 0x08, 0x00, 0x00, 0x00, 0x00, 0x00];
    assert_eq!(read(bytes).unwrap_err(), TIFFError::InvalidMagicNumber(0x002b));
    let swapped = vec![0x49, 0x49, 0x00, 0x2a, 0x08, 0x00, 0x00, 0x00, 0x00, 0x00];
    assert_eq!(read(swapped).unwrap_err(), TIFFError::InvalidMagicNumber(0x2a00));
    let swapped_big = vec![0x4d, 0x4d, 0x2a, 0x00, 0x00, 0x00, 0x00, 0x08, 0x00, 0x00];
    assert_eq!(read(swapped_big).unwrap_err(), TIFFError::InvalidMagicNumber(0x2a00));
}

#[test]
fn two_entries_come_back_in_read_order() {
    let bytes = stream(
        LE,
        &[
            record(LE, 0x0100, 3, 1, [0x40, 0x01, 0, 0]),
            record(LE, 0x0101, 4, 1, [0xc8, 0x00, 0, 0]),
        ],
    );
    let h = read(bytes).unwrap();
    assert_eq!(h.ifd.count, 2);
    assert_eq!(h.ifd.entries.len(), 2);
    assert_eq!(h.ifd.entries[0].tag, TIFFTag::ImageWidthTag);
    assert_eq!(h.ifd.entries[0].value, Some(TagValue::ShortValue(320)));
    assert_eq!(h.ifd.entries[1].tag, TIFFTag::ImageLengthTag);
    assert_eq!(h.ifd.entries[1].value, Some(TagValue::LongValue(200)));
    assert!(h.ifd.diagnostics.is_empty());
}

#[test]
fn long_where_short_expected_warns_but_decodes() {
    let bytes = stream(BE, &[record(BE, 0x0103, 4, 1, [0, 0, 0, 1])]);
    let h = read(bytes).unwrap();
    assert_eq!(h.ifd.entries.len(), 1);
    let e = &h.ifd.entries[0];
    assert_eq!(e.tag, TIFFTag::CompressionTag);
    assert_eq!(e.typ, TagType::LongTag);
    assert_eq!(e.value, Some(TagValue::LongValue(1)));
    assert_eq!(
        h.ifd.diagnostics,
        vec![Diagnostic {
            index: 0,
            error: TIFFError::TypeMismatch {
                tag: TIFFTag::CompressionTag,
                expected: TagType::ShortTag,
                found: TagType::LongTag,
            },
        }]
    );
}

#[test]
fn count_mismatch_warns() {
    let bytes = stream(LE, &[record(LE, 0x0100, 4, 1, [1, 0, 0, 0]), record(LE, 0x0103, 3, 2, [1, 0, 1, 0])]);
    let h = read(bytes).unwrap();
    assert_eq!(h.ifd.entries.len(), 2);
    assert_eq!(h.ifd.entries[1].value, None);
    assert_eq!(h.ifd.entries[1].value_offset, 0x0001_0001);
    assert_eq!(
        h.ifd.diagnostics,
        vec![Diagnostic {
            index: 1,
            error: TIFFError::CountMismatch { tag: TIFFTag::CompressionTag, expected_count: 1, found_count: 2 },
        }]
    );
}

#[test]
fn short_or_long_accepts_only_those_two() {
    let bytes = stream(
        LE,
        &[
            record(LE, 0x0100, 3, 1, [1, 0, 0, 0]),
            record(LE, 0x0101, 4, 1, [1, 0, 0, 0]),
            record(LE, 0x0116, 1, 1, [1, 0, 0, 0]),
        ],
    );
    let h = read(bytes).unwrap();
    assert_eq!(
        h.ifd.diagnostics,
        vec![Diagnostic {
            index: 2,
            error: TIFFError::TypeMismatch {
                tag: TIFFTag::RowsPerStripTag,
                expected: TagType::ShortOrLongTag,
                found: TagType::ByteTag,
            },
        }]
    );
    assert_eq!(h.ifd.entries[2].value, Some(TagValue::ByteValue(1)));
}

#[test]
fn big_endian_short_is_left_justified() {
    let bytes = stream(BE, &[record(BE, 0x0103, 3, 1, [0x00, 0x01, 0x00, 0x00])]);
    let h = read(bytes).unwrap();
    let e = &h.ifd.entries[0];
    assert_eq!(e.value_offset, 0x0001_0000);
    assert_eq!(e.value, Some(TagValue::ShortValue(1)));
}

#[test]
fn little_endian_short_is_left_justified() {
    let bytes = stream(LE, &[record(LE, 0x0103, 3, 1, [0x05, 0x00, 0x07, 0x00])]);
    let h = read(bytes).unwrap();
    let e = &h.ifd.entries[0];
    assert_eq!(e.value_offset, 0x0007_0005);
    assert_eq!(e.value, Some(TagValue::ShortValue(5)));
}

#[test]
fn inline_values_of_each_kind() {
    let f = [0xff, 0xfe, 0x80, 0x01];
    assert_eq!(inline_value(TagType::ByteTag, 1, &f, BE), Some(TagValue::ByteValue(0xff)));
    assert_eq!(inline_value(TagType::SignedByteTag, 1, &f, BE), Some(TagValue::SignedByteValue(-1)));
    assert_eq!(inline_value(TagType::ShortTag, 1, &f, BE), Some(TagValue::ShortValue(0xfffe)));
    assert_eq!(inline_value(TagType::ShortTag, 1, &f, LE), Some(TagValue::ShortValue(0xfeff)));
    assert_eq!(inline_value(TagType::SignedShortTag, 1, &f, BE), Some(TagValue::SignedShortValue(-2)));
    assert_eq!(inline_value(TagType::LongTag, 1, &f, BE), Some(TagValue::LongValue(0xfffe_8001)));
    assert_eq!(inline_value(TagType::LongTag, 1, &f, LE), Some(TagValue::LongValue(0x0180_feff)));
    assert_eq!(
        inline_value(TagType::SignedLongTag, 1, &f, BE),
        Some(TagValue::SignedLongValue(0xfffe_8001u32 as i32))
    );
    let one = [0x3f, 0x80, 0x00, 0x00];
    assert_eq!(inline_value(TagType::FloatTag, 1, &one, BE), Some(TagValue::FloatValue(1.0f32.to_bits())));
    assert_eq!(f32::from_bits(0x3f80_0000), 1.0f32);
}

#[test]
fn values_left_unresolved() {
    let f = [1, 2, 3, 4];
    assert_eq!(inline_value(TagType::ShortTag, 2, &f, LE), None);
    assert_eq!(inline_value(TagType::ByteTag, 0, &f, LE), None);
    assert_eq!(inline_value(TagType::RationalTag, 1, &f, LE), None);
    assert_eq!(inline_value(TagType::SignedRationalTag, 1, &f, LE), None);
    assert_eq!(inline_value(TagType::DoubleTag, 1, &f, LE), None);
    assert_eq!(inline_value(TagType::ASCIITag, 1, &f, LE), None);
    assert_eq!(inline_value(TagType::UndefinedTag, 1, &f, LE), None);
}

#[test]
fn truncated_stream_fails_at_every_cut() {
    let bytes = stream(
        BE,
        &[
            record(BE, 0x0100, 3, 1, [0x01, 0x40, 0, 0]),
            record(BE, 0x0101, 3, 1, [0x00, 0xc8, 0, 0]),
        ],
    );
    assert!(read(bytes.clone()).is_ok());
    for k in 0..bytes.len() {
        let cut = bytes[..k].to_vec();
        match read(cut.clone()) {
            Err(TIFFError::IOError(_)) => {}
            other => panic!("cut at {} gave {:?}", k, other),
        }
        match read_lenient(cut) {
            Err(TIFFError::IOError(_)) => {}
            other => panic!("lenient cut at {} gave {:?}", k, other),
        }
    }
}

#[test]
fn cut_inside_a_record_is_end_of_input() {
    let bytes = stream(LE, &[record(LE, 0x0100, 3, 1, [1, 0, 0, 0])]);
    let cut = bytes[..bytes.len() - 3].to_vec();
    assert_eq!(read(cut).unwrap_err(), TIFFError::IOError(IoFault::UnexpectedEof));
}

#[test]
fn offset_past_the_end_fails_the_seek() {
    let bytes = header_bytes(LE, 9);
    assert_eq!(read(bytes).unwrap_err(), TIFFError::IOError(IoFault::SeekOutOfRange));
    let at_end = header_bytes(LE, 8);
    assert_eq!(read(at_end).unwrap_err(), TIFFError::IOError(IoFault::UnexpectedEof));
}

#[test]
fn unknown_tag_fails_strict_read() {
    let bytes = stream(LE, &[record(LE, 0x0100, 3, 1, [1, 0, 0, 0]), record(LE, 0x1234, 3, 1, [1, 0, 0, 0])]);
    assert_eq!(read(bytes).unwrap_err(), TIFFError::UnknownTag(0x1234));
}

#[test]
fn unknown_type_fails_strict_read() {
    let bytes = stream(LE, &[record(LE, 0x0100, 13, 1, [1, 0, 0, 0])]);
    assert_eq!(read(bytes).unwrap_err(), TIFFError::UnknownTagType(13));
}

#[test]
fn tag_without_expectation_fails_strict_read() {
    let bytes = stream(BE, &[record(BE, 0x00fe, 4, 1, [0, 0, 0, 0])]);
    assert_eq!(read(bytes).unwrap_err(), TIFFError::UnknownTag(0x00fe));
}

#[test]
fn lenient_read_skips_unknown_entries() {
    let bytes = stream(
        LE,
        &[
            record(LE, 0x1234, 3, 1, [1, 0, 0, 0]),
            record(LE, 0x0100, 3, 1, [2, 0, 0, 0]),
            record(LE, 0x0101, 99, 1, [3, 0, 0, 0]),
            record(LE, 0x0103, 4, 1, [4, 0, 0, 0]),
        ],
    );
    let h = read_lenient(bytes).unwrap();
    assert_eq!(h.ifd.count, 4);
    assert_eq!(h.ifd.entries.len(), 2);
    assert_eq!(h.ifd.entries[0].tag, TIFFTag::ImageWidthTag);
    assert_eq!(h.ifd.entries[1].tag, TIFFTag::CompressionTag);
    assert_eq!(
        h.ifd.diagnostics,
        vec![
            Diagnostic { index: 0, error: TIFFError::UnknownTag(0x1234) },
            Diagnostic { index: 2, error: TIFFError::UnknownTagType(99) },
            Diagnostic {
                index: 3,
                error: TIFFError::TypeMismatch {
                    tag: TIFFTag::CompressionTag,
                    expected: TagType::ShortTag,
                    found: TagType::LongTag,
                },
            },
        ]
    );
}

#[test]
fn decode_entry_resolves_and_checks() {
    let (e, w) = decode_entry(7, 0x0128, 3, 1, &[0, 2, 0, 0], BE).unwrap();
    assert_eq!(e.tag, TIFFTag::ResolutionUnitTag);
    assert_eq!(e.typ, TagType::ShortTag);
    assert_eq!(e.count, 1);
    assert_eq!(e.value_offset, 0x0002_0000);
    assert_eq!(e.value, Some(TagValue::ShortValue(2)));
    assert!(w.is_empty());
    assert_eq!(decode_entry(0, 0x0128, 0, 1, &[0, 2, 0, 0], BE).unwrap_err(), TIFFError::UnknownTagType(0));
    assert_eq!(decode_entry(0, 0x0001, 3, 1, &[0, 2, 0, 0], BE).unwrap_err(), TIFFError::UnknownTag(1));
}

#[test]
fn integers_follow_the_byte_order() {
    let b = [0x12, 0x34, 0x56, 0x78];
    assert_eq!(read_u16_in(LE, &b), 0x3412);
    assert_eq!(read_u16_in(BE, &b), 0x1234);
    assert_eq!(read_u32_in(LE, &b), 0x7856_3412);
    assert_eq!(read_u32_in(BE, &b), 0x1234_5678);
}

#[test]
fn memory_reader_seeks_and_reads() {
    let mut m = MemoryReader::new(vec![1, 2, 3, 4, 5]);
    assert_eq!(m.read_bytes(2).unwrap(), vec![1, 2]);
    assert_eq!(m.offset(), 2);
    assert_eq!(m.read_bytes(4).unwrap_err(), TIFFError::IOError(IoFault::UnexpectedEof));
    assert!(m.seek_to(5).is_ok());
    assert_eq!(m.read_bytes(0).unwrap(), Vec::<u8>::new());
    assert_eq!(m.seek_to(6).unwrap_err(), TIFFError::IOError(IoFault::SeekOutOfRange));
    assert!(m.seek_to(3).is_ok());
    assert_eq!(m.read_bytes(2).unwrap(), vec![4, 5]);
}
