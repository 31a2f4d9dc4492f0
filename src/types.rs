//! The data types of the format: byte order, magic, field types, values,
//! entries, directories and errors.

use vstd::prelude::*;
use crate::tags::TIFFTag;

verus! {

/// The byte order selected by the first two bytes of the stream.
#[derive(Clone, Copy, Debug, PartialEq, Eq, Structural)]
pub enum TIFFByteOrder {
    /// Marker `II` (0x4949): little-endian.
    LittleEndian,
    /// Marker `MM` (0x4d4d): big-endian.
    BigEndian,
}

/// The magic number 42 as it lies on disk in each byte order.
#[derive(Clone, Copy, Debug, PartialEq, Eq, Structural)]
pub enum HeaderMagic {
    /// Bytes `2A 00` (0x002a read little-endian).
    LittleEndian,
    /// Bytes `00 2A` (0x2a00 read little-endian).
    BigEndian,
}

/// The scalar field types of directory entries.
#[derive(Clone, Copy, Debug, PartialEq, Eq, Structural)]
pub enum TagType {
    ByteTag,
    ASCIITag,
    ShortTag,
    LongTag,
    RationalTag,
    SignedByteTag,
    UndefinedTag,
    SignedShortTag,
    SignedLongTag,
    SignedRationalTag,
    FloatTag,
    DoubleTag,
    /// Not an on-disk type: an expectation that accepts either
    /// `ShortTag` or `LongTag`.
    ShortOrLongTag,
}

impl TagType {
    /// The 16-bit code of the type; `ShortOrLongTag` gets 0xfffe, a code
    /// outside the on-disk catalogue.
    pub open spec fn spec_code(self) -> u16 {
        match self {
            TagType::ByteTag => 1,
            TagType::ASCIITag => 2,
            TagType::ShortTag => 3,
            TagType::LongTag => 4,
            TagType::RationalTag => 5,
            TagType::SignedByteTag => 6,
            TagType::UndefinedTag => 7,
            TagType::SignedShortTag => 8,
            TagType::SignedLongTag => 9,
            TagType::SignedRationalTag => 10,
            TagType::FloatTag => 11,
            TagType::DoubleTag => 12,
            TagType::ShortOrLongTag => 0xfffe,
        }
    }

    /// The 16-bit code of the type.
    pub fn code(self) -> (r: u16)
        ensures
            r == self.spec_code(),
    {
        match self {
            TagType::ByteTag => 1,
            TagType::ASCIITag => 2,
            TagType::ShortTag => 3,
            TagType::LongTag => 4,
            TagType::RationalTag => 5,
            TagType::SignedByteTag => 6,
            TagType::UndefinedTag => 7,
            TagType::SignedShortTag => 8,
            TagType::SignedLongTag => 9,
            TagType::SignedRationalTag => 10,
            TagType::FloatTag => 11,
            TagType::DoubleTag => 12,
            TagType::ShortOrLongTag => 0xfffe,
        }
    }
}

/// A value stored in an entry, one variant per on-disk scalar kind.
///
/// Floating-point values are kept as their IEEE 754 bit patterns.
#[derive(Clone, Debug, PartialEq, Eq)]
pub enum TagValue {
    ByteValue(u8),
    ShortValue(u16),
    LongValue(u32),
    AsciiValue(String),
    RationalValue(u32, u32),
    SignedByteValue(i8),
    SignedShortValue(i16),
    SignedLongValue(i32),
    SignedRationalValue(i32, i32),
    /// The bits of an IEEE 754 single-precision value.
    FloatValue(u32),
    /// The bits of an IEEE 754 double-precision value.
    DoubleValue(u64),
    UndefinedValue(u8),
}

/// Values of the PhotometricInterpretation tag.
#[derive(Clone, Copy, Debug, PartialEq, Eq, Structural)]
pub enum PhotometricInterpretation {
    WhiteIsZero,
    BlackIsZero,
}

impl PhotometricInterpretation {
    /// The on-disk value.
    pub fn code(self) -> (r: u16)
        ensures
            r == (match self {
                PhotometricInterpretation::WhiteIsZero => 0u16,
                PhotometricInterpretation::BlackIsZero => 1u16,
            }),
    {
        match self {
            PhotometricInterpretation::WhiteIsZero => 0,
            PhotometricInterpretation::BlackIsZero => 1,
        }
    }
}

/// Values of the Compression tag.
#[derive(Clone, Copy, Debug, PartialEq, Eq, Structural)]
pub enum Compression {
    /// No compression (value 1).
    Uncompressed,
    Huffman,
    PackBits,
}

impl Compression {
    /// The on-disk value.
    pub fn code(self) -> (r: u16)
        ensures
            r == (match self {
                Compression::Uncompressed => 1u16,
                Compression::Huffman => 2u16,
                Compression::PackBits => 32773u16,
            }),
    {
        match self {
            Compression::Uncompressed => 1,
            Compression::Huffman => 2,
            Compression::PackBits => 32773,
        }
    }
}

/// Values of the ResolutionUnit tag.
#[derive(Clone, Copy, Debug, PartialEq, Eq, Structural)]
pub enum ResolutionUnit {
    /// No absolute unit (value 1).
    NoUnit,
    Inch,
    Centimetre,
}

impl ResolutionUnit {
    /// The on-disk value.
    pub fn code(self) -> (r: u16)
        ensures
            r == (match self {
                ResolutionUnit::NoUnit => 1u16,
                ResolutionUnit::Inch => 2u16,
                ResolutionUnit::Centimetre => 3u16,
            }),
    {
        match self {
            ResolutionUnit::NoUnit => 1,
            ResolutionUnit::Inch => 2,
            ResolutionUnit::Centimetre => 3,
        }
    }
}

/// Values of the SampleFormat tag.
#[derive(Clone, Copy, Debug, PartialEq, Eq, Structural)]
pub enum SampleFormat {
    UnsignedInteger,
    TwosComplementSignedInteger,
    IEEEFloatingPoint,
    Undefined,
}

impl SampleFormat {
    /// The on-disk value.
    pub fn code(self) -> (r: u16)
        ensures
            r == (match self {
                SampleFormat::UnsignedInteger => 1u16,
                SampleFormat::TwosComplementSignedInteger => 2u16,
                SampleFormat::IEEEFloatingPoint => 3u16,
                SampleFormat::Undefined => 4u16,
            }),
    {
        match self {
            SampleFormat::UnsignedInteger => 1,
            SampleFormat::TwosComplementSignedInteger => 2,
            SampleFormat::IEEEFloatingPoint => 3,
            SampleFormat::Undefined => 4,
        }
    }
}

/// The baseline image kinds.
#[derive(Clone, Copy, Debug, PartialEq, Eq, Structural)]
pub enum ImageType {
    Bilevel,
    Grayscale,
    PaletteColour,
    RGB,
    YCbCr,
}

/// What went wrong in the byte source.
#[derive(Clone, Copy, Debug, PartialEq, Eq, Structural)]
pub enum IoFault {
    /// Fewer bytes were left than a field needs.
    UnexpectedEof,
    /// A seek went past the end of the source.
    SeekOutOfRange,
}

/// The errors of a load, and the warnings of a directory.
#[derive(Clone, Copy, Debug, PartialEq, Eq, Structural)]
pub enum TIFFError {
    /// The first two bytes (read little-endian) are neither `II` nor `MM`.
    InvalidByteOrderMarker(u16),
    /// The magic field, read in the stream's byte order, is not 42.
    InvalidMagicNumber(u16),
    /// An entry's tag code is not in the registry, or the registry has
    /// no expectation for it.
    UnknownTag(u16),
    /// An entry's type code is outside 1 to 12.
    UnknownTagType(u16),
    /// An entry's declared type differs from the one its tag expects.
    TypeMismatch { tag: TIFFTag, expected: TagType, found: TagType },
    /// An entry's declared count differs from the one its tag expects.
    CountMismatch { tag: TIFFTag, expected_count: u32, found_count: u32 },
    /// The byte source could not give what was asked of it.
    IOError(IoFault),
}

/// A non-fatal finding about the entry at position `index` of a directory.
#[derive(Clone, Copy, Debug, PartialEq, Eq, Structural)]
pub struct Diagnostic {
    pub index: usize,
    pub error: TIFFError,
}

/// What a directory read does with an entry whose tag or type is unknown.
#[derive(Clone, Copy, Debug, PartialEq, Eq, Structural)]
pub enum EntryPolicy {
    /// Fail the whole read with the entry's error.
    Strict,
    /// Leave the entry out, record the error as a diagnostic, go on.
    Lenient,
}

/// One directory entry: tag, declared type and count, the raw 4-byte
/// value/offset field, and the value itself where it is a single scalar
/// stored inline.
#[derive(Clone, Debug, PartialEq, Eq)]
pub struct IFDEntry {
    pub tag: TIFFTag,
    pub typ: TagType,
    pub count: u32,
    pub value_offset: u32,
    pub value: Option<TagValue>,
}

/// An image file directory: the entry count read from the stream, the
/// entries in read order, and the diagnostics found on the way.
#[derive(Clone, Debug, PartialEq, Eq)]
pub struct IFD {
    pub count: u16,
    pub entries: Vec<IFDEntry>,
    pub diagnostics: Vec<Diagnostic>,
}

/// The decoded header, with the first directory it points to.
#[derive(Clone, Debug, PartialEq, Eq)]
pub struct TIFFHeader {
    pub byte_order: TIFFByteOrder,
    pub magic: HeaderMagic,
    pub ifd_offset: u32,
    pub ifd: IFD,
}

} // verus!
