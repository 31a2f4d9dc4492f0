//! Reading the header and the first image file directory of a TIFF stream.
//!
//! The byte layout follows the TIFF 6.0 format: a fixed 8-byte header
//! (byte-order marker, magic number, directory offset) and a directory of
//! 12-byte tag entries. Every decoding step is stated over the stream's bytes
//! as a sequence and proved against that statement.

#![allow(non_camel_case_types)]

pub mod bytes;
pub mod entry;
pub mod laws;
pub mod reader;
pub mod source;
pub mod tags;
pub mod types;

use vstd::prelude::*;

verus! {

pub use crate::bytes::{read_u16_in, read_u32_in};
pub use crate::entry::{check_entry, decode_entry, inline_value};
pub use crate::reader::TIFFReader;
pub use crate::source::{MemoryReader, SeekableReader};
pub use crate::tags::{decode_tag, decode_tag_type, type_and_count_for_tag, TIFFTag};
pub use crate::types::{
    Compression, Diagnostic, EntryPolicy, HeaderMagic, IFD, IFDEntry, ImageType, IoFault,
    PhotometricInterpretation, ResolutionUnit, SampleFormat, TIFFByteOrder, TIFFError,
    TIFFHeader, TagType, TagValue,
};

} // verus!
