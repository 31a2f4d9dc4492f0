//! The registries: tag codes, field type codes, and what each known tag
//! is expected to hold.

use vstd::prelude::*;
use crate::types::TagType;

verus! {

/// The tags this library recognises, by their 16-bit on-disk codes.
#[derive(Clone, Copy, Debug, PartialEq, Eq, Structural)]
pub enum TIFFTag {
    // Baseline Tags

    ArtistTag,
    BitsPerSampleTag,
    CellLengthTag,
    CellWidthTag,
    ColorMapTag,
    CompressionTag,
    CopyrightTag,
    DateTimeTag,
    ExtraSamplesTag,
    FillOrderTag,
    FreeByteCountsTag,
    FreeOffsetsTag,
    GrayResponseCurveTag,
    GrayResponseUnitTag,
    HostComputerTag,
    ImageDescriptionTag,
    ImageLengthTag,
    ImageWidthTag,
    MakeTag,
    MaxSampleValueTag,
    MinSampleValueTag,
    ModelTag,
    NewSubfileTypeTag,
    OrientationTag,
    PhotometricInterpretationTag,
    PlanarConfigurationTag,
    Predictor,
    ResolutionUnitTag,
    RowsPerStripTag,
    SampleFormat,
    SamplesPerPixel,
    SoftwareTag,
    StripByteCountsTag,
    StripOffsetsTag,
    SubfileTypeTag,
    ThresholdingTag,
    XResolutionTag,
    YResolutionTag,

    // Section 20: Colorimetry

    WhitePointTag,
    PrimaryChromaticities,
    TransferFunction,
    TransferRange,
    ReferenceBlackWhite,

    // Section 21: YCbCr Images

    YCbCrCoefficients,
    YCbCrSubsampling,
    YCbCrPositioning,

    // TIFF/EP Tags

    SubIFDsTag,
    JPEGTablesTag,
    CFARepeatPatternDimTag,
    BatteryLevelTag,
    IPTCTag,
    InterColorProfileTag,
    InterlaceTag,
    TimeZoneOffsetTag,
    SelfTimerModeTag,
    NoiseTag,
    ImageNumberTag,
    SecurityClassificationTag,
    ImageHistoryTag,
    EPStandardIdTag,

    // Extension TIFF Tags
    XMPTag,

    // Private Tags
    PhotoshopTag,
    EXIFTag,
}

impl TIFFTag {
    /// The 16-bit on-disk code of the tag.
    pub open spec fn spec_code(self) -> u16 {
        match self {
            TIFFTag::ArtistTag => 0x013b,
            TIFFTag::BitsPerSampleTag => 0x0102,
            TIFFTag::CellLengthTag => 0x0109,
            TIFFTag::CellWidthTag => 0x0108,
            TIFFTag::ColorMapTag => 0x0140,
            TIFFTag::CompressionTag => 0x0103,
            TIFFTag::CopyrightTag => 0x8298,
            TIFFTag::DateTimeTag => 0x0132,
            TIFFTag::ExtraSamplesTag => 0x0152,
            TIFFTag::FillOrderTag => 0x010a,
            TIFFTag::FreeByteCountsTag => 0x0121,
            TIFFTag::FreeOffsetsTag => 0x0120,
            TIFFTag::GrayResponseCurveTag => 0x0123,
            TIFFTag::GrayResponseUnitTag => 0x0122,
            TIFFTag::HostComputerTag => 0x013c,
            TIFFTag::ImageDescriptionTag => 0x010e,
            TIFFTag::ImageLengthTag => 0x0101,
            TIFFTag::ImageWidthTag => 0x0100,
            TIFFTag::MakeTag => 0x010f,
            TIFFTag::MaxSampleValueTag => 0x0119,
            TIFFTag::MinSampleValueTag => 0x0118,
            TIFFTag::ModelTag => 0x0110,
            TIFFTag::NewSubfileTypeTag => 0x00fe,
            TIFFTag::OrientationTag => 0x0112,
            TIFFTag::PhotometricInterpretationTag => 0x0106,
            TIFFTag::PlanarConfigurationTag => 0x011c,
            TIFFTag::Predictor => 0x013d,
            TIFFTag::ResolutionUnitTag => 0x0128,
            TIFFTag::RowsPerStripTag => 0x0116,
            TIFFTag::SampleFormat => 0x0153,
            TIFFTag::SamplesPerPixel => 0x0115,
            TIFFTag::SoftwareTag => 0x0131,
            TIFFTag::StripByteCountsTag => 0x0117,
            TIFFTag::StripOffsetsTag => 0x0111,
            TIFFTag::SubfileTypeTag => 0x00ff,
            TIFFTag::ThresholdingTag => 0x0107,
            TIFFTag::XResolutionTag => 0x011a,
            TIFFTag::YResolutionTag => 0x011b,
            TIFFTag::WhitePointTag => 0x013e,
            TIFFTag::PrimaryChromaticities => 0x013f,
            TIFFTag::TransferFunction => 0x012d,
            TIFFTag::TransferRange => 0x0156,
            TIFFTag::ReferenceBlackWhite => 0x0214,
            TIFFTag::YCbCrCoefficients => 0x0211,
            TIFFTag::YCbCrSubsampling => 0x0212,
            TIFFTag::YCbCrPositioning => 0x0213,
            TIFFTag::SubIFDsTag => 0x014a,
            TIFFTag::JPEGTablesTag => 0x015b,
            TIFFTag::CFARepeatPatternDimTag => 0x828d,
            TIFFTag::BatteryLevelTag => 0x828f,
            TIFFTag::IPTCTag => 0x83bb,
            TIFFTag::InterColorProfileTag => 0x8773,
            TIFFTag::InterlaceTag => 0x8829,
            TIFFTag::TimeZoneOffsetTag => 0x882a,
            TIFFTag::SelfTimerModeTag => 0x882b,
            TIFFTag::NoiseTag => 0x920d,
            TIFFTag::ImageNumberTag => 0x9211,
            TIFFTag::SecurityClassificationTag => 0x9212,
            TIFFTag::ImageHistoryTag => 0x9213,
            TIFFTag::EPStandardIdTag => 0x9216,
            TIFFTag::XMPTag => 0x02bc,
            TIFFTag::PhotoshopTag => 0x8649,
            TIFFTag::EXIFTag => 0x8769,
        }
    }

    /// The 16-bit on-disk code of the tag.
    pub fn code(self) -> (r: u16)
        ensures
            r == self.spec_code(),
    {
        match self {
            TIFFTag::ArtistTag => 0x013b,
            TIFFTag::BitsPerSampleTag => 0x0102,
            TIFFTag::CellLengthTag => 0x0109,
            TIFFTag::CellWidthTag => 0x0108,
            TIFFTag::ColorMapTag => 0x0140,
            TIFFTag::CompressionTag => 0x0103,
            TIFFTag::CopyrightTag => 0x8298,
            TIFFTag::DateTimeTag => 0x0132,
            TIFFTag::ExtraSamplesTag => 0x0152,
            TIFFTag::FillOrderTag => 0x010a,
            TIFFTag::FreeByteCountsTag => 0x0121,
            TIFFTag::FreeOffsetsTag => 0x0120,
            TIFFTag::GrayResponseCurveTag => 0x0123,
            TIFFTag::GrayResponseUnitTag => 0x0122,
            TIFFTag::HostComputerTag => 0x013c,
            TIFFTag::ImageDescriptionTag => 0x010e,
            TIFFTag::ImageLengthTag => 0x0101,
            TIFFTag::ImageWidthTag => 0x0100,
            TIFFTag::MakeTag => 0x010f,
            TIFFTag::MaxSampleValueTag => 0x0119,
            TIFFTag::MinSampleValueTag => 0x0118,
            TIFFTag::ModelTag => 0x0110,
            TIFFTag::NewSubfileTypeTag => 0x00fe,
            TIFFTag::OrientationTag => 0x0112,
            TIFFTag::PhotometricInterpretationTag => 0x0106,
            TIFFTag::PlanarConfigurationTag => 0x011c,
            TIFFTag::Predictor => 0x013d,
            TIFFTag::ResolutionUnitTag => 0x0128,
            TIFFTag::RowsPerStripTag => 0x0116,
            TIFFTag::SampleFormat => 0x0153,
            TIFFTag::SamplesPerPixel => 0x0115,
            TIFFTag::SoftwareTag => 0x0131,
            TIFFTag::StripByteCountsTag => 0x0117,
            TIFFTag::StripOffsetsTag => 0x0111,
            TIFFTag::SubfileTypeTag => 0x00ff,
            TIFFTag::ThresholdingTag => 0x0107,
            TIFFTag::XResolutionTag => 0x011a,
            TIFFTag::YResolutionTag => 0x011b,
            TIFFTag::WhitePointTag => 0x013e,
            TIFFTag::PrimaryChromaticities => 0x013f,
            TIFFTag::TransferFunction => 0x012d,
            TIFFTag::TransferRange => 0x0156,
            TIFFTag::ReferenceBlackWhite => 0x0214,
            TIFFTag::YCbCrCoefficients => 0x0211,
            TIFFTag::YCbCrSubsampling => 0x0212,
            TIFFTag::YCbCrPositioning => 0x0213,
            TIFFTag::SubIFDsTag => 0x014a,
            TIFFTag::JPEGTablesTag => 0x015b,
            TIFFTag::CFARepeatPatternDimTag => 0x828d,
            TIFFTag::BatteryLevelTag => 0x828f,
            TIFFTag::IPTCTag => 0x83bb,
            TIFFTag::InterColorProfileTag => 0x8773,
            TIFFTag::InterlaceTag => 0x8829,
            TIFFTag::TimeZoneOffsetTag => 0x882a,
            TIFFTag::SelfTimerModeTag => 0x882b,
            TIFFTag::NoiseTag => 0x920d,
            TIFFTag::ImageNumberTag => 0x9211,
            TIFFTag::SecurityClassificationTag => 0x9212,
            TIFFTag::ImageHistoryTag => 0x9213,
            TIFFTag::EPStandardIdTag => 0x9216,
            TIFFTag::XMPTag => 0x02bc,
            TIFFTag::PhotoshopTag => 0x8649,
            TIFFTag::EXIFTag => 0x8769,
        }
    }
}

/// Whether some known tag has the code `v`.
pub open spec fn is_tag_code(v: u16) -> bool {
    exists|t: TIFFTag| t.spec_code() == v
}

/// The tag whose code is `v`, if any.
pub open spec fn tag_for_code(v: u16) -> Option<TIFFTag> {
    if is_tag_code(v) {
        Some(choose|t: TIFFTag| t.spec_code() == v)
    } else {
        None
    }
}

/// Looks up the tag whose on-disk code is `value`.
pub fn decode_tag(value: u16) -> (r: Option<TIFFTag>)
    ensures
        r == tag_for_code(value),
        r matches Some(t) ==> t.spec_code() == value,
        r is None <==> !is_tag_code(value),
{
    let r = match value {
        0x013b => Some(TIFFTag::ArtistTag),
        0x0102 => Some(TIFFTag::BitsPerSampleTag),
        0x0109 => Some(TIFFTag::CellLengthTag),
        0x0108 => Some(TIFFTag::CellWidthTag),
        0x0140 => Some(TIFFTag::ColorMapTag),
        0x0103 => Some(TIFFTag::CompressionTag),
        0x8298 => Some(TIFFTag::CopyrightTag),
        0x0132 => Some(TIFFTag::DateTimeTag),
        0x0152 => Some(TIFFTag::ExtraSamplesTag),
        0x010a => Some(TIFFTag::FillOrderTag),
        0x0121 => Some(TIFFTag::FreeByteCountsTag),
        0x0120 => Some(TIFFTag::FreeOffsetsTag),
        0x0123 => Some(TIFFTag::GrayResponseCurveTag),
        0x0122 => Some(TIFFTag::GrayResponseUnitTag),
        0x013c => Some(TIFFTag::HostComputerTag),
        0x010e => Some(TIFFTag::ImageDescriptionTag),
        0x0101 => Some(TIFFTag::ImageLengthTag),
        0x0100 => Some(TIFFTag::ImageWidthTag),
        0x010f => Some(TIFFTag::MakeTag),
        0x0119 => Some(TIFFTag::MaxSampleValueTag),
        0x0118 => Some(TIFFTag::MinSampleValueTag),
        0x0110 => Some(TIFFTag::ModelTag),
        0x00fe => Some(TIFFTag::NewSubfileTypeTag),
        0x0112 => Some(TIFFTag::OrientationTag),
        0x0106 => Some(TIFFTag::PhotometricInterpretationTag),
        0x011c => Some(TIFFTag::PlanarConfigurationTag),
        0x013d => Some(TIFFTag::Predictor),
        0x0128 => Some(TIFFTag::ResolutionUnitTag),
        0x0116 => Some(TIFFTag::RowsPerStripTag),
        0x0153 => Some(TIFFTag::SampleFormat),
        0x0115 => Some(TIFFTag::SamplesPerPixel),
        0x0131 => Some(TIFFTag::SoftwareTag),
        0x0117 => Some(TIFFTag::StripByteCountsTag),
        0x0111 => Some(TIFFTag::StripOffsetsTag),
        0x00ff => Some(TIFFTag::SubfileTypeTag),
        0x0107 => Some(TIFFTag::ThresholdingTag),
        0x011a => Some(TIFFTag::XResolutionTag),
        0x011b => Some(TIFFTag::YResolutionTag),
        0x013e => Some(TIFFTag::WhitePointTag),
        0x013f => Some(TIFFTag::PrimaryChromaticities),
        0x012d => Some(TIFFTag::TransferFunction),
        0x0156 => Some(TIFFTag::TransferRange),
        0x0214 => Some(TIFFTag::ReferenceBlackWhite),
        0x0211 => Some(TIFFTag::YCbCrCoefficients),
        0x0212 => Some(TIFFTag::YCbCrSubsampling),
        0x0213 => Some(TIFFTag::YCbCrPositioning),
        0x014a => Some(TIFFTag::SubIFDsTag),
        0x015b => Some(TIFFTag::JPEGTablesTag),
        0x828d => Some(TIFFTag::CFARepeatPatternDimTag),
        0x828f => Some(TIFFTag::BatteryLevelTag),
        0x83bb => Some(TIFFTag::IPTCTag),
        0x8773 => Some(TIFFTag::InterColorProfileTag),
        0x8829 => Some(TIFFTag::InterlaceTag),
        0x882a => Some(TIFFTag::TimeZoneOffsetTag),
        0x882b => Some(TIFFTag::SelfTimerModeTag),
        0x920d => Some(TIFFTag::NoiseTag),
        0x9211 => Some(TIFFTag::ImageNumberTag),
        0x9212 => Some(TIFFTag::SecurityClassificationTag),
        0x9213 => Some(TIFFTag::ImageHistoryTag),
        0x9216 => Some(TIFFTag::EPStandardIdTag),
        0x02bc => Some(TIFFTag::XMPTag),
        0x8649 => Some(TIFFTag::PhotoshopTag),
        0x8769 => Some(TIFFTag::EXIFTag),
        _ => None,
    };
    proof {
        if let Some(t) = r {
            lemma_tag_code_round_trip(t);
        }
    }
    r
}

/// No two tags share a code.
pub proof fn lemma_tag_code_injective()
    ensures
        forall|a: TIFFTag, b: TIFFTag| #[trigger] a.spec_code() == #[trigger] b.spec_code() ==> a == b,
{
}

/// Every known tag decodes back from its own code, and only from it.
pub proof fn lemma_tag_code_round_trip(t: TIFFTag)
    ensures
        tag_for_code(t.spec_code()) == Some(t),
        forall|v: u16| tag_for_code(v) == Some(t) ==> v == t.spec_code(),
{
    lemma_tag_code_injective();
    assert(is_tag_code(t.spec_code()));
}

/// The on-disk field type whose code is `v`: codes 1 to 12 name a type,
/// every other code none.
pub open spec fn type_for_code(v: u16) -> Option<TagType> {
    if 1 <= v <= 12 {
        Some(choose|t: TagType| t.spec_code() == v)
    } else {
        None
    }
}

/// No two field types share a code.
pub proof fn lemma_type_code_injective()
    ensures
        forall|a: TagType, b: TagType| #[trigger] a.spec_code() == #[trigger] b.spec_code() ==> a == b,
{
}

/// A type code decodes exactly when it lies in 1 to 12, and then to the
/// type that carries it.
pub proof fn lemma_type_code_round_trip(v: u16)
    ensures
        type_for_code(v) is Some <==> 1 <= v <= 12,
        type_for_code(v) matches Some(t) ==> t.spec_code() == v && t != TagType::ShortOrLongTag,
{
    lemma_type_code_injective();
    if 1 <= v <= 12 {
        let w: TagType = if v == 1 {
            TagType::ByteTag
        } else if v == 2 {
            TagType::ASCIITag
        } else if v == 3 {
            TagType::ShortTag
        } else if v == 4 {
            TagType::LongTag
        } else if v == 5 {
            TagType::RationalTag
        } else if v == 6 {
            TagType::SignedByteTag
        } else if v == 7 {
            TagType::UndefinedTag
        } else if v == 8 {
            TagType::SignedShortTag
        } else if v == 9 {
            TagType::SignedLongTag
        } else if v == 10 {
            TagType::SignedRationalTag
        } else if v == 11 {
            TagType::FloatTag
        } else {
            TagType::DoubleTag
        };
        assert(w.spec_code() == v);
    }
}

/// Looks up the on-disk field type whose code is `typ` (1 to 12).
pub fn decode_tag_type(typ: u16) -> (r: Option<TagType>)
    ensures
        r == type_for_code(typ),
        r is Some <==> 1 <= typ <= 12,
        r matches Some(t) ==> t.spec_code() == typ,
{
    proof {
        lemma_type_code_round_trip(typ);
    }
    let r = match typ {
        1 => Some(TagType::ByteTag),
        2 => Some(TagType::ASCIITag),
        3 => Some(TagType::ShortTag),
        4 => Some(TagType::LongTag),
        5 => Some(TagType::RationalTag),
        6 => Some(TagType::SignedByteTag),
        7 => Some(TagType::UndefinedTag),
        8 => Some(TagType::SignedShortTag),
        9 => Some(TagType::SignedLongTag),
        10 => Some(TagType::SignedRationalTag),
        11 => Some(TagType::FloatTag),
        12 => Some(TagType::DoubleTag),
        _ => None,
    };
    proof {
        lemma_type_code_injective();
    }
    r
}

/// The expected field type and value count of a known tag; a count of 0
/// means any count.
pub open spec fn expected_type_and_count(tag: TIFFTag) -> Option<(TagType, u32)> {
    match tag {
            TIFFTag::ArtistTag => Some((TagType::ASCIITag, 0)),
            TIFFTag::BitsPerSampleTag => Some((TagType::ShortTag, 0)),
            TIFFTag::CellLengthTag => Some((TagType::ShortTag, 1)),
            TIFFTag::CellWidthTag => Some((TagType::ShortTag, 1)),
            TIFFTag::ColorMapTag => Some((TagType::ShortTag, 0)),
            TIFFTag::CompressionTag => Some((TagType::ShortTag, 1)),
            TIFFTag::CopyrightTag => Some((TagType::ASCIITag, 0)),
            TIFFTag::DateTimeTag => Some((TagType::ASCIITag, 0)),
            TIFFTag::ExtraSamplesTag => Some((TagType::ShortTag, 0)),
            TIFFTag::FillOrderTag => Some((TagType::ShortTag, 1)),
            TIFFTag::GrayResponseCurveTag => Some((TagType::ShortTag, 0)),
            TIFFTag::GrayResponseUnitTag => Some((TagType::ShortTag, 1)),
            TIFFTag::HostComputerTag => Some((TagType::ASCIITag, 0)),
            TIFFTag::ImageDescriptionTag => Some((TagType::ASCIITag, 0)),
            TIFFTag::ImageLengthTag => Some((TagType::ShortOrLongTag, 1)),
            TIFFTag::ImageWidthTag => Some((TagType::ShortOrLongTag, 1)),
            TIFFTag::InterColorProfileTag => Some((TagType::UndefinedTag, 0)),
            TIFFTag::MakeTag => Some((TagType::ASCIITag, 0)),
            TIFFTag::MaxSampleValueTag => Some((TagType::ShortTag, 0)),
            TIFFTag::MinSampleValueTag => Some((TagType::ShortTag, 0)),
            TIFFTag::ModelTag => Some((TagType::ASCIITag, 0)),
            TIFFTag::OrientationTag => Some((TagType::ShortTag, 1)),
            TIFFTag::PhotometricInterpretationTag => Some((TagType::ShortTag, 1)),
            TIFFTag::PlanarConfigurationTag => Some((TagType::ShortTag, 1)),
            TIFFTag::Predictor => Some((TagType::ShortTag, 1)),
            TIFFTag::ResolutionUnitTag => Some((TagType::ShortTag, 1)),
            TIFFTag::RowsPerStripTag => Some((TagType::ShortOrLongTag, 1)),
            TIFFTag::SampleFormat => Some((TagType::ShortTag, 0)),
            TIFFTag::SamplesPerPixel => Some((TagType::ShortTag, 1)),
            TIFFTag::SoftwareTag => Some((TagType::ASCIITag, 0)),
            TIFFTag::StripByteCountsTag => Some((TagType::ShortOrLongTag, 0)),
            TIFFTag::StripOffsetsTag => Some((TagType::LongTag, 0)),
            TIFFTag::SubfileTypeTag => Some((TagType::ShortTag, 1)),
            TIFFTag::ThresholdingTag => Some((TagType::ShortTag, 1)),
            TIFFTag::XResolutionTag => Some((TagType::RationalTag, 1)),
            TIFFTag::YResolutionTag => Some((TagType::RationalTag, 1)),
            TIFFTag::XMPTag => Some((TagType::ByteTag, 0)),
            TIFFTag::PhotoshopTag => Some((TagType::ByteTag, 0)),
            TIFFTag::EXIFTag => Some((TagType::LongTag, 0)),
        _ => None,
    }
}

/// The expected field type and value count of `tag`, where the registry
/// gives one; a count of 0 means any count.
pub fn type_and_count_for_tag(tag: TIFFTag) -> (r: Option<(TagType, u32)>)
    ensures
        r == expected_type_and_count(tag),
{
    match tag {
        TIFFTag::ArtistTag => Some((TagType::ASCIITag, 0)),
        TIFFTag::BitsPerSampleTag => Some((TagType::ShortTag, 0)),
        TIFFTag::CellLengthTag => Some((TagType::ShortTag, 1)),
        TIFFTag::CellWidthTag => Some((TagType::ShortTag, 1)),
        TIFFTag::ColorMapTag => Some((TagType::ShortTag, 0)),
        TIFFTag::CompressionTag => Some((TagType::ShortTag, 1)),
        TIFFTag::CopyrightTag => Some((TagType::ASCIITag, 0)),
        TIFFTag::DateTimeTag => Some((TagType::ASCIITag, 0)),
        TIFFTag::ExtraSamplesTag => Some((TagType::ShortTag, 0)),
        TIFFTag::FillOrderTag => Some((TagType::ShortTag, 1)),
        TIFFTag::GrayResponseCurveTag => Some((TagType::ShortTag, 0)),
        TIFFTag::GrayResponseUnitTag => Some((TagType::ShortTag, 1)),
        TIFFTag::HostComputerTag => Some((TagType::ASCIITag, 0)),
        TIFFTag::ImageDescriptionTag => Some((TagType::ASCIITag, 0)),
        TIFFTag::ImageLengthTag => Some((TagType::ShortOrLongTag, 1)),
        TIFFTag::ImageWidthTag => Some((TagType::ShortOrLongTag, 1)),
        TIFFTag::InterColorProfileTag => Some((TagType::UndefinedTag, 0)),
        TIFFTag::MakeTag => Some((TagType::ASCIITag, 0)),
        TIFFTag::MaxSampleValueTag => Some((TagType::ShortTag, 0)),
        TIFFTag::MinSampleValueTag => Some((TagType::ShortTag, 0)),
        TIFFTag::ModelTag => Some((TagType::ASCIITag, 0)),
        TIFFTag::OrientationTag => Some((TagType::ShortTag, 1)),
        TIFFTag::PhotometricInterpretationTag => Some((TagType::ShortTag, 1)),
        TIFFTag::PlanarConfigurationTag => Some((TagType::ShortTag, 1)),
        TIFFTag::Predictor => Some((TagType::ShortTag, 1)),
        TIFFTag::ResolutionUnitTag => Some((TagType::ShortTag, 1)),
        TIFFTag::RowsPerStripTag => Some((TagType::ShortOrLongTag, 1)),
        TIFFTag::SampleFormat => Some((TagType::ShortTag, 0)),
        TIFFTag::SamplesPerPixel => Some((TagType::ShortTag, 1)),
        TIFFTag::SoftwareTag => Some((TagType::ASCIITag, 0)),
        TIFFTag::StripByteCountsTag => Some((TagType::ShortOrLongTag, 0)),
        TIFFTag::StripOffsetsTag => Some((TagType::LongTag, 0)),
        TIFFTag::SubfileTypeTag => Some((TagType::ShortTag, 1)),
        TIFFTag::ThresholdingTag => Some((TagType::ShortTag, 1)),
        TIFFTag::XResolutionTag => Some((TagType::RationalTag, 1)),
        TIFFTag::YResolutionTag => Some((TagType::RationalTag, 1)),
        TIFFTag::XMPTag => Some((TagType::ByteTag, 0)),
        TIFFTag::PhotoshopTag => Some((TagType::ByteTag, 0)),
        TIFFTag::EXIFTag => Some((TagType::LongTag, 0)),
        _ => None,
    }
}

} // verus!
