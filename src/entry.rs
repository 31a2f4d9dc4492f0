//! Decoding and checking one directory entry once its four fields are read.

use vstd::prelude::*;
use crate::bytes::{read_u16_in, read_u32_in, u16_at, u32_at};
use crate::tags::{
    decode_tag, decode_tag_type, expected_type_and_count, lemma_tag_code_round_trip,
    lemma_type_code_injective, lemma_type_code_round_trip, tag_for_code, type_and_count_for_tag,
    type_for_code, TIFFTag,
};
use crate::types::{Diagnostic, IFDEntry, TIFFByteOrder, TIFFError, TagType, TagValue};

verus! {

/// Whether a declared type meets an expected one: they are equal, or a
/// short-or-long expectation meets a short or a long.
pub open spec fn type_accepted(expected: TagType, found: TagType) -> bool {
    found == expected || (expected == TagType::ShortOrLongTag && (found == TagType::ShortTag
        || found == TagType::LongTag))
}

/// Whether a declared count meets an expected one; 0 expects any count.
pub open spec fn count_accepted(expected: u32, found: u32) -> bool {
    expected == 0 || found == expected
}

/// The warnings for the entry at `index`: a type mismatch, then a count
/// mismatch, each where it occurs.
pub open spec fn entry_warnings(
    index: usize,
    tag: TIFFTag,
    typ: TagType,
    count: u32,
    expected_type: TagType,
    expected_count: u32,
) -> Seq<Diagnostic> {
    let type_part = if type_accepted(expected_type, typ) {
        Seq::<Diagnostic>::empty()
    } else {
        seq![Diagnostic { index, error: TIFFError::TypeMismatch { tag, expected: expected_type, found: typ } }]
    };
    let count_part = if count_accepted(expected_count, count) {
        Seq::<Diagnostic>::empty()
    } else {
        seq![Diagnostic { index, error: TIFFError::CountMismatch { tag, expected_count, found_count: count } }]
    };
    type_part + count_part
}

/// The value held inline by the 4-byte field `field`: a single scalar of a
/// kind that fits in 4 bytes, left-justified (it starts at the field's first
/// byte). Arrays, rationals, doubles, text and opaque bytes stay unresolved.
pub open spec fn inline_value_of(typ: TagType, count: u32, field: Seq<u8>, order: TIFFByteOrder) -> Option<TagValue> {
    if count != 1 {
        None
    } else {
        match typ {
            TagType::ByteTag => Some(TagValue::ByteValue(field[0])),
            TagType::ShortTag => Some(TagValue::ShortValue(u16_at(order, field, 0))),
            TagType::LongTag => Some(TagValue::LongValue(u32_at(order, field, 0))),
            TagType::SignedByteTag => Some(TagValue::SignedByteValue(field[0] as i8)),
            TagType::SignedShortTag => Some(TagValue::SignedShortValue(u16_at(order, field, 0) as i16)),
            TagType::SignedLongTag => Some(TagValue::SignedLongValue(u32_at(order, field, 0) as i32)),
            TagType::FloatTag => Some(TagValue::FloatValue(u32_at(order, field, 0))),
            _ => None,
        }
    }
}

/// The entry at `index` whose fields are the codes `tag_code` and
/// `type_code`, the count `count` and the 4 value/offset bytes `field`,
/// with its warnings; or the error that rejects it.
pub open spec fn decoded_entry(
    index: usize,
    tag_code: u16,
    type_code: u16,
    count: u32,
    field: Seq<u8>,
    order: TIFFByteOrder,
) -> Result<(IFDEntry, Seq<Diagnostic>), TIFFError> {
    match tag_for_code(tag_code) {
        None => Err(TIFFError::UnknownTag(tag_code)),
        Some(tag) => match type_for_code(type_code) {
            None => Err(TIFFError::UnknownTagType(type_code)),
            Some(typ) => match expected_type_and_count(tag) {
                None => Err(TIFFError::UnknownTag(tag_code)),
                Some((expected_type, expected_count)) => Ok(
                    (
                        IFDEntry {
                            tag,
                            typ,
                            count,
                            value_offset: u32_at(order, field, 0),
                            value: inline_value_of(typ, count, field, order),
                        },
                        entry_warnings(index, tag, typ, count, expected_type, expected_count),
                    ),
                ),
            },
        },
    }
}

/// The value held inline by `field`, where it is a single scalar that fits.
pub fn inline_value(typ: TagType, count: u32, field: &[u8], order: TIFFByteOrder) -> (r: Option<TagValue>)
    requires
        field@.len() == 4,
    ensures
        r == inline_value_of(typ, count, field@, order),
{
    if count != 1 {
        return None;
    }
    match typ {
        TagType::ByteTag => Some(TagValue::ByteValue(field[0])),
        TagType::ShortTag => Some(TagValue::ShortValue(read_u16_in(order, field))),
        TagType::LongTag => Some(TagValue::LongValue(read_u32_in(order, field))),
        TagType::SignedByteTag => Some(TagValue::SignedByteValue(field[0] as i8)),
        TagType::SignedShortTag => Some(TagValue::SignedShortValue(read_u16_in(order, field) as i16)),
        TagType::SignedLongTag => Some(TagValue::SignedLongValue(read_u32_in(order, field) as i32)),
        TagType::FloatTag => Some(TagValue::FloatValue(read_u32_in(order, field))),
        _ => None,
    }
}

/// The type and count warnings for the entry at `index`.
pub fn check_entry(
    index: usize,
    tag: TIFFTag,
    typ: TagType,
    count: u32,
    expected_type: TagType,
    expected_count: u32,
) -> (r: Vec<Diagnostic>)
    ensures
        r@ == entry_warnings(index, tag, typ, count, expected_type, expected_count),
{
    let mut r: Vec<Diagnostic> = Vec::new();
    let short_or_long = expected_type == TagType::ShortOrLongTag && (typ == TagType::ShortTag
        || typ == TagType::LongTag);
    if !short_or_long && typ != expected_type {
        r.push(Diagnostic { index, error: TIFFError::TypeMismatch { tag, expected: expected_type, found: typ } });
    }
    if expected_count != 0 && count != expected_count {
        r.push(Diagnostic { index, error: TIFFError::CountMismatch { tag, expected_count, found_count: count } });
    }
    proof {
        assert(r@ =~= entry_warnings(index, tag, typ, count, expected_type, expected_count));
    }
    r
}

/// Decodes the entry at `index` from its four fields: resolves tag and
/// type, checks them against the registry, and reads an inline value.
pub fn decode_entry(
    index: usize,
    tag_code: u16,
    type_code: u16,
    count: u32,
    field: &[u8],
    order: TIFFByteOrder,
) -> (r: Result<(IFDEntry, Vec<Diagnostic>), TIFFError>)
    requires
        field@.len() == 4,
    ensures
        match decoded_entry(index, tag_code, type_code, count, field@, order) {
            Ok((e, ds)) => r matches Ok((e2, ds2)) && e2 == e && ds2@ == ds,
            Err(err) => r == Err::<(IFDEntry, Vec<Diagnostic>), TIFFError>(err),
        },
{
    let tag = match decode_tag(tag_code) {
        Some(t) => t,
        None => return Err(TIFFError::UnknownTag(tag_code)),
    };
    let typ = match decode_tag_type(type_code) {
        Some(t) => t,
        None => return Err(TIFFError::UnknownTagType(type_code)),
    };
    let (expected_type, expected_count) = match type_and_count_for_tag(tag) {
        Some(tc) => tc,
        None => return Err(TIFFError::UnknownTag(tag_code)),
    };
    let warnings = check_entry(index, tag, typ, count, expected_type, expected_count);
    let entry = IFDEntry {
        tag,
        typ,
        count,
        value_offset: read_u32_in(order, field),
        value: inline_value(typ, count, field, order),
    };
    Ok((entry, warnings))
}

/// An entry whose tag expects one short but which declares one long still
/// decodes, with its value resolved, and carries a type-mismatch warning.
pub proof fn lemma_long_for_short_warns(index: usize, tag: TIFFTag, field: Seq<u8>, order: TIFFByteOrder)
    requires
        expected_type_and_count(tag) == Some((TagType::ShortTag, 1u32)),
        field.len() == 4,
    ensures
        decoded_entry(index, tag.spec_code(), TagType::LongTag.spec_code(), 1, field, order) == Ok::<
            (IFDEntry, Seq<Diagnostic>),
            TIFFError,
        >(
            (
                IFDEntry {
                    tag,
                    typ: TagType::LongTag,
                    count: 1,
                    value_offset: u32_at(order, field, 0),
                    value: Some(TagValue::LongValue(u32_at(order, field, 0))),
                },
                seq![Diagnostic { index, error: TIFFError::TypeMismatch { tag, expected: TagType::ShortTag, found: TagType::LongTag } }],
            ),
        ),
{
    lemma_tag_code_round_trip(tag);
    lemma_type_code_round_trip(4);
    lemma_type_code_injective();
    assert(type_for_code(4) == Some(TagType::LongTag));
    assert(entry_warnings(index, tag, TagType::LongTag, 1, TagType::ShortTag, 1) =~= seq![
        Diagnostic { index, error: TIFFError::TypeMismatch { tag, expected: TagType::ShortTag, found: TagType::LongTag } },
    ]);
}

/// A single short stored inline occupies the field's first two bytes: in a
/// big-endian stream the upper half of the raw 32-bit field, in a
/// little-endian one the lower half.
pub proof fn lemma_inline_short_left_justified(field: Seq<u8>, order: TIFFByteOrder)
    requires
        field.len() == 4,
    ensures
        inline_value_of(TagType::ShortTag, 1, field, order) == Some(
            TagValue::ShortValue(
                match order {
                    TIFFByteOrder::BigEndian => (u32_at(order, field, 0) / 0x1_0000) as u16,
                    TIFFByteOrder::LittleEndian => (u32_at(order, field, 0) % 0x1_0000) as u16,
                },
            ),
        ),
{
    let b0 = field[0] as int;
    let b1 = field[1] as int;
    let b2 = field[2] as int;
    let b3 = field[3] as int;
    match order {
        TIFFByteOrder::BigEndian => {
            assert((0x100_0000 * b0 + 0x1_0000 * b1 + 0x100 * b2 + b3) / 0x1_0000 == 0x100 * b0 + b1)
                by (nonlinear_arith)
                requires
                    0 <= b0 < 0x100 && 0 <= b1 < 0x100 && 0 <= b2 < 0x100 && 0 <= b3 < 0x100,
            ;
        },
        TIFFByteOrder::LittleEndian => {
            assert((b0 + 0x100 * b1 + 0x1_0000 * b2 + 0x100_0000 * b3) % 0x1_0000 == b0 + 0x100 * b1)
                by (nonlinear_arith)
                requires
                    0 <= b0 < 0x100 && 0 <= b1 < 0x100 && 0 <= b2 < 0x100 && 0 <= b3 < 0x100,
            ;
        },
    }
}

} // verus!
