//! Decoding the header and the first directory from a byte source.

use vstd::prelude::*;
use crate::bytes::{read_u16_in, read_u32_in, u16_at, u16_from, u32_at};
use crate::entry::{decode_entry, decoded_entry};
use crate::source::SeekableReader;
use crate::types::{
    Diagnostic, EntryPolicy, HeaderMagic, IFD, IFDEntry, IoFault, TIFFByteOrder, TIFFError,
    TIFFHeader,
};

verus! {

/// What a successful read yields, as mathematical values.
pub struct HeaderView {
    pub byte_order: TIFFByteOrder,
    pub magic: HeaderMagic,
    pub ifd_offset: u32,
    pub count: u16,
    pub entries: Seq<IFDEntry>,
    pub diagnostics: Seq<Diagnostic>,
}

impl View for TIFFHeader {
    type V = HeaderView;

    open spec fn view(&self) -> HeaderView {
        HeaderView {
            byte_order: self.byte_order,
            magic: self.magic,
            ifd_offset: self.ifd_offset,
            count: self.ifd.count,
            entries: self.ifd.entries@,
            diagnostics: self.ifd.diagnostics@,
        }
    }
}

/// The failure of a read that runs out of bytes.
pub open spec fn eof() -> TIFFError {
    TIFFError::IOError(IoFault::UnexpectedEof)
}

/// The byte order that the marker bytes `b0 b1` select: `II` little-endian,
/// `MM` big-endian.
pub open spec fn marker_order(b0: u8, b1: u8) -> Option<TIFFByteOrder> {
    if b0 == 0x49 && b1 == 0x49 {
        Some(TIFFByteOrder::LittleEndian)
    } else if b0 == 0x4d && b1 == 0x4d {
        Some(TIFFByteOrder::BigEndian)
    } else {
        None
    }
}

/// The magic as it lies on disk in `order`.
pub open spec fn magic_for(order: TIFFByteOrder) -> HeaderMagic {
    match order {
        TIFFByteOrder::LittleEndian => HeaderMagic::LittleEndian,
        TIFFByteOrder::BigEndian => HeaderMagic::BigEndian,
    }
}

/// The byte order given by the marker at index `p` of `s`.
pub open spec fn byte_order_at(s: Seq<u8>, p: int) -> Result<TIFFByteOrder, TIFFError> {
    if p + 2 > s.len() {
        Err(eof())
    } else {
        match marker_order(s[p], s[p + 1]) {
            Some(order) => Ok(order),
            None => Err(
                TIFFError::InvalidByteOrderMarker(
                    u16_from(TIFFByteOrder::LittleEndian, s[p], s[p + 1]),
                ),
            ),
        }
    }
}

/// The magic at index `p` of `s`, which must read 42 in `order`.
pub open spec fn magic_at(s: Seq<u8>, p: int, order: TIFFByteOrder) -> Result<HeaderMagic, TIFFError> {
    if p + 2 > s.len() {
        Err(eof())
    } else if u16_at(order, s, p) == 42 {
        Ok(magic_for(order))
    } else {
        Err(TIFFError::InvalidMagicNumber(u16_at(order, s, p)))
    }
}

/// The 12-byte entry record at index `start` of `s`, the `index`-th of its
/// directory.
pub open spec fn record_at(s: Seq<u8>, order: TIFFByteOrder, start: int, index: usize) -> Result<
    (IFDEntry, Seq<Diagnostic>),
    TIFFError,
> {
    if start + 12 > s.len() {
        Err(eof())
    } else {
        decoded_entry(
            index,
            u16_at(order, s, start),
            u16_at(order, s, start + 2),
            u32_at(order, s, start + 4),
            s.subrange(start + 8, start + 12),
            order,
        )
    }
}

/// Whether the lenient policy leaves out an entry rejected with `e`.
pub open spec fn skippable(e: TIFFError) -> bool {
    e is UnknownTag || e is UnknownTagType
}

/// The first `n` entries of the directory whose records start at index
/// `base` of `s`, with the diagnostics found on the way; or the first error
/// that `policy` makes fatal.
pub open spec fn entries_from(
    s: Seq<u8>,
    order: TIFFByteOrder,
    base: int,
    n: nat,
    policy: EntryPolicy,
) -> Result<(Seq<IFDEntry>, Seq<Diagnostic>), TIFFError>
    decreases n,
{
    if n == 0 {
        Ok((Seq::empty(), Seq::empty()))
    } else {
        let i = (n - 1) as nat;
        match entries_from(s, order, base, i, policy) {
            Err(e) => Err(e),
            Ok((es, ds)) => match record_at(s, order, base + 12 * i, i as usize) {
                Ok((e, w)) => Ok((es.push(e), ds + w)),
                Err(err) => if policy == EntryPolicy::Lenient && skippable(err) {
                    Ok((es, ds.push(Diagnostic { index: i as usize, error: err })))
                } else {
                    Err(err)
                },
            },
        }
    }
}

/// The directory at index `p` of `s`: its entry count, entries and
/// diagnostics.
pub open spec fn directory_from(s: Seq<u8>, order: TIFFByteOrder, p: int, policy: EntryPolicy) -> Result<
    (u16, Seq<IFDEntry>, Seq<Diagnostic>),
    TIFFError,
> {
    if p + 2 > s.len() {
        Err(eof())
    } else {
        let n = u16_at(order, s, p);
        match entries_from(s, order, p + 2, n as nat, policy) {
            Err(e) => Err(e),
            Ok((es, ds)) => Ok((n, es, ds)),
        }
    }
}

/// The directory at the absolute offset `offset` of `s`, reached by a seek
/// that fails past the end.
pub open spec fn directory_at(s: Seq<u8>, order: TIFFByteOrder, offset: u32, policy: EntryPolicy) -> Result<
    (u16, Seq<IFDEntry>, Seq<Diagnostic>),
    TIFFError,
> {
    if offset > s.len() {
        Err(TIFFError::IOError(IoFault::SeekOutOfRange))
    } else {
        directory_from(s, order, offset as int, policy)
    }
}

/// The 8-byte header of `s`: byte order, magic and directory offset.
pub open spec fn header_of(s: Seq<u8>) -> Result<(TIFFByteOrder, HeaderMagic, u32), TIFFError> {
    match byte_order_at(s, 0) {
        Err(e) => Err(e),
        Ok(order) => match magic_at(s, 2, order) {
            Err(e) => Err(e),
            Ok(magic) => if s.len() < 8 {
                Err(eof())
            } else {
                Ok((order, magic, u32_at(order, s, 4)))
            },
        },
    }
}

/// The header and first directory of the TIFF stream `s`, or the error
/// that stops its decoding.
pub open spec fn tiff_of(s: Seq<u8>, policy: EntryPolicy) -> Result<HeaderView, TIFFError> {
    match header_of(s) {
        Err(e) => Err(e),
        Ok((order, magic, offset)) => match directory_at(s, order, offset, policy) {
            Err(e) => Err(e),
            Ok((n, es, ds)) => Ok(
                HeaderView {
                    byte_order: order,
                    magic,
                    ifd_offset: offset,
                    count: n,
                    entries: es,
                    diagnostics: ds,
                },
            ),
        },
    }
}

/// A read's result as mathematical values.
pub open spec fn header_outcome(r: Result<TIFFHeader, TIFFError>) -> Result<HeaderView, TIFFError> {
    match r {
        Ok(h) => Ok(h@),
        Err(e) => Err(e),
    }
}

/// A directory read's result as mathematical values.
pub open spec fn ifd_outcome(r: Result<IFD, TIFFError>) -> Result<
    (u16, Seq<IFDEntry>, Seq<Diagnostic>),
    TIFFError,
> {
    match r {
        Ok(d) => Ok((d.count, d.entries@, d.diagnostics@)),
        Err(e) => Err(e),
    }
}

/// Once the entries up to `i` fail, so do all the entries up to `n`, with
/// the same error.
proof fn lemma_entries_error_persists(
    s: Seq<u8>,
    order: TIFFByteOrder,
    base: int,
    i: nat,
    n: nat,
    policy: EntryPolicy,
)
    requires
        i <= n,
        entries_from(s, order, base, i, policy) is Err,
    ensures
        entries_from(s, order, base, n, policy) == entries_from(s, order, base, i, policy),
    decreases n - i,
{
    if i < n {
        lemma_entries_error_persists(s, order, base, i, (n - 1) as nat, policy);
    }
}

/// Reads a 16-bit integer in `order`.
fn read_u16<R: SeekableReader>(reader: &mut R, order: TIFFByteOrder) -> (r: Result<u16, TIFFError>)
    ensures
        final(reader).content() == old(reader).content(),
        old(reader).position() + 2 <= old(reader).content().len() ==> (r == Ok::<u16, TIFFError>(
            u16_at(order, old(reader).content(), old(reader).position() as int),
        ) && final(reader).position() == old(reader).position() + 2),
        old(reader).position() + 2 > old(reader).content().len() ==> r == Err::<u16, TIFFError>(
            eof(),
        ),
{
    let b = reader.read_bytes(2)?;
    Ok(read_u16_in(order, b.as_slice()))
}

/// Reads a 32-bit integer in `order`.
fn read_u32<R: SeekableReader>(reader: &mut R, order: TIFFByteOrder) -> (r: Result<u32, TIFFError>)
    ensures
        final(reader).content() == old(reader).content(),
        old(reader).position() + 4 <= old(reader).content().len() ==> (r == Ok::<u32, TIFFError>(
            u32_at(order, old(reader).content(), old(reader).position() as int),
        ) && final(reader).position() == old(reader).position() + 4),
        old(reader).position() + 4 > old(reader).content().len() ==> r == Err::<u32, TIFFError>(
            eof(),
        ),
{
    let b = reader.read_bytes(4)?;
    Ok(read_u32_in(order, b.as_slice()))
}

/// Decodes TIFF streams.
pub struct TIFFReader;

impl TIFFReader {
    /// Decodes the header and the first directory of `reader`, whose
    /// position is its first byte; an entry with an unknown tag or type
    /// fails the read.
    pub fn read<R: SeekableReader>(&self, reader: &mut R) -> (r: Result<TIFFHeader, TIFFError>)
        requires
            old(reader).position() == 0,
        ensures
            header_outcome(r) == tiff_of(old(reader).content(), EntryPolicy::Strict),
    {
        self.read_with_policy(reader, EntryPolicy::Strict)
    }

    /// Decodes the header and the first directory of `reader`, whose
    /// position is its first byte, treating entries with an unknown tag or
    /// type as `policy` says.
    pub fn read_with_policy<R: SeekableReader>(&self, reader: &mut R, policy: EntryPolicy) -> (r:
        Result<TIFFHeader, TIFFError>)
        requires
            old(reader).position() == 0,
        ensures
            header_outcome(r) == tiff_of(old(reader).content(), policy),
    {
        let order = self.read_byte_order(reader)?;
        let magic = self.read_magic(reader, order)?;
        self.read_(reader, order, magic, policy)
    }

    /// Reads the byte-order marker at the reader's position.
    pub fn read_byte_order<R: SeekableReader>(&self, reader: &mut R) -> (r: Result<
        TIFFByteOrder,
        TIFFError,
    >)
        ensures
            final(reader).content() == old(reader).content(),
            r == byte_order_at(old(reader).content(), old(reader).position() as int),
            r is Ok ==> final(reader).position() == old(reader).position() + 2,
    {
        let field = read_u16(reader, TIFFByteOrder::LittleEndian)?;
        if field == 0x4949 {
            Ok(TIFFByteOrder::LittleEndian)
        } else if field == 0x4d4d {
            Ok(TIFFByteOrder::BigEndian)
        } else {
            Err(TIFFError::InvalidByteOrderMarker(field))
        }
    }

    /// Reads the magic number at the reader's position, in `order`.
    pub fn read_magic<R: SeekableReader>(&self, reader: &mut R, order: TIFFByteOrder) -> (r:
        Result<HeaderMagic, TIFFError>)
        ensures
            final(reader).content() == old(reader).content(),
            r == magic_at(old(reader).content(), old(reader).position() as int, order),
            r is Ok ==> final(reader).position() == old(reader).position() + 2,
    {
        let field = read_u16(reader, order)?;
        if field != 42 {
            return Err(TIFFError::InvalidMagicNumber(field));
        }
        match order {
            TIFFByteOrder::LittleEndian => Ok(HeaderMagic::LittleEndian),
            TIFFByteOrder::BigEndian => Ok(HeaderMagic::BigEndian),
        }
    }

    /// Reads the directory offset at the reader's position, seeks there and
    /// reads the directory; yields the header with `order` and `magic`.
    pub fn read_<R: SeekableReader>(
        &self,
        reader: &mut R,
        order: TIFFByteOrder,
        magic: HeaderMagic,
        policy: EntryPolicy,
    ) -> (r: Result<TIFFHeader, TIFFError>)
        ensures
            old(reader).position() + 4 > old(reader).content().len() ==> r == Err::<TIFFHeader, TIFFError>(eof()),
            old(reader).position() + 4 <= old(reader).content().len() ==> match directory_at(
                old(reader).content(),
                order,
                u32_at(order, old(reader).content(), old(reader).position() as int),
                policy,
            ) {
                Ok((n, es, ds)) => r matches Ok(h) && h@ == (HeaderView {
                    byte_order: order,
                    magic,
                    ifd_offset: u32_at(order, old(reader).content(), old(reader).position() as int),
                    count: n,
                    entries: es,
                    diagnostics: ds,
                }),
                Err(e) => r == Err::<TIFFHeader, TIFFError>(e),
            },
    {
        let offset = read_u32(reader, order)?;
        reader.seek_to(offset as u64)?;
        let ifd = self.read_IFD(reader, order, policy)?;
        Ok(TIFFHeader { byte_order: order, magic, ifd_offset: offset, ifd })
    }

    /// Reads the directory at the reader's position: its entry count, then
    /// that many entries.
    #[allow(non_snake_case)]
    pub fn read_IFD<R: SeekableReader>(&self, reader: &mut R, order: TIFFByteOrder, policy: EntryPolicy) -> (r:
        Result<IFD, TIFFError>)
        ensures
            final(reader).content() == old(reader).content(),
            ifd_outcome(r) == directory_from(old(reader).content(), order, old(reader).position() as int, policy),
    {
        let ghost s = reader.content();
        let ghost base: int = reader.position() as int + 2;
        let entry_count = read_u16(reader, order)?;
        let mut entries: Vec<IFDEntry> = Vec::with_capacity(entry_count as usize);
        let mut diagnostics: Vec<Diagnostic> = Vec::new();
        let n = entry_count as usize;
        let mut i: usize = 0;
        let mut failure: Option<TIFFError> = None;
        while i < n
            invariant_except_break
                reader.position() == base + 12 * i,
                failure is None,
            invariant
                n == entry_count,
                i <= n,
                reader.content() == s,
                entries_from(s, order, base, i as nat, policy) == Ok::<(Seq<IFDEntry>, Seq<Diagnostic>), TIFFError>(
                    (entries@, diagnostics@),
                ),
            ensures
                reader.content() == s,
                failure matches Some(err) ==> entries_from(s, order, base, n as nat, policy) == Err::<(Seq<IFDEntry>, Seq<Diagnostic>), TIFFError>(err),
                failure is None ==> entries_from(s, order, base, n as nat, policy) == Ok::<(Seq<IFDEntry>, Seq<Diagnostic>), TIFFError>(
                    (entries@, diagnostics@),
                ),
            decreases n - i,
        {
            match self.read_tag(i, reader, order) {
                Ok((entry, mut warnings)) => {
                    entries.push(entry);
                    diagnostics.append(&mut warnings);
                },
                Err(err) => {
                    let skip = match err {
                        TIFFError::UnknownTag(_) => true,
                        TIFFError::UnknownTagType(_) => true,
                        _ => false,
                    };
                    if skip && policy == EntryPolicy::Lenient {
                        diagnostics.push(Diagnostic { index: i, error: err });
                    } else {
                        proof {
                            lemma_entries_error_persists(s, order, base, (i + 1) as nat, n as nat, policy);
                        }
                        failure = Some(err);
                        break;
                    }
                },
            }
            i = i + 1;
        }
        if let Some(err) = failure {
            return Err(err);
        }
        Ok(IFD { count: entry_count, entries, diagnostics })
    }

    /// Reads the 12-byte entry record at the reader's position, the
    /// `entry_number`-th of its directory, and decodes it.
    pub fn read_tag<R: SeekableReader>(&self, entry_number: usize, reader: &mut R, order: TIFFByteOrder) -> (r:
        Result<(IFDEntry, Vec<Diagnostic>), TIFFError>)
        ensures
            final(reader).content() == old(reader).content(),
            match record_at(old(reader).content(), order, old(reader).position() as int, entry_number) {
                Ok((e, w)) => r matches Ok((e2, w2)) && e2 == e && w2@ == w,
                Err(err) => r == Err::<(IFDEntry, Vec<Diagnostic>), TIFFError>(err),
            },
            old(reader).position() + 12 <= old(reader).content().len() ==> final(reader).position()
                == old(reader).position() + 12,
    {
        let ghost s = reader.content();
        let ghost p = reader.position() as int;
        let tag_code = read_u16(reader, order)?;
        let type_code = read_u16(reader, order)?;
        let count = read_u32(reader, order)?;
        let field = reader.read_bytes(4)?;
        proof {
            assert(field@ =~= s.subrange(p + 8, p + 12));
        }
        decode_entry(entry_number, tag_code, type_code, count, field.as_slice(), order)
    }
}

} // verus!
