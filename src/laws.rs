//! Facts about whole streams, proved from the decoding functions' own
//! statements.

use vstd::prelude::*;
use crate::bytes::{u16_at, u16_from, u32_from};
use crate::reader::{
    directory_from, entries_from, eof, header_of, marker_order, record_at, skippable, tiff_of,
    HeaderView,
};
use crate::types::{Diagnostic, EntryPolicy, HeaderMagic, IFDEntry, TIFFByteOrder, TIFFError};

verus! {

/// A stream that starts `49 49 2A 00` then holds `offset` little-endian
/// decodes to a little-endian header with a valid magic and that offset.
pub proof fn lemma_little_endian_header(s: Seq<u8>, offset: u32)
    requires
        s.len() >= 8,
        s[0] == 0x49 && s[1] == 0x49 && s[2] == 0x2a && s[3] == 0x00,
        u32_from(TIFFByteOrder::LittleEndian, s[4], s[5], s[6], s[7]) == offset,
    ensures
        header_of(s) == Ok::<(TIFFByteOrder, HeaderMagic, u32), TIFFError>(
            (TIFFByteOrder::LittleEndian, HeaderMagic::LittleEndian, offset),
        ),
{
}

/// A stream that starts `4D 4D 00 2A` then holds `offset` big-endian decodes
/// to a big-endian header with a valid magic and that offset.
pub proof fn lemma_big_endian_header(s: Seq<u8>, offset: u32)
    requires
        s.len() >= 8,
        s[0] == 0x4d && s[1] == 0x4d && s[2] == 0x00 && s[3] == 0x2a,
        u32_from(TIFFByteOrder::BigEndian, s[4], s[5], s[6], s[7]) == offset,
    ensures
        header_of(s) == Ok::<(TIFFByteOrder, HeaderMagic, u32), TIFFError>(
            (TIFFByteOrder::BigEndian, HeaderMagic::BigEndian, offset),
        ),
{
}

/// A stream whose first two bytes are neither `II` nor `MM` fails with an
/// invalid byte-order marker, under either policy, and yields no header.
pub proof fn lemma_bad_marker_fails(s: Seq<u8>, policy: EntryPolicy)
    requires
        s.len() >= 2,
        marker_order(s[0], s[1]) is None,
    ensures
        tiff_of(s, policy) == Err::<HeaderView, TIFFError>(
            TIFFError::InvalidByteOrderMarker(u16_from(TIFFByteOrder::LittleEndian, s[0], s[1])),
        ),
{
}

/// Under the strict policy the entries of a directory that decodes are
/// exactly its records, one for each, in the order they are stored.
pub proof fn lemma_strict_entries_in_order(
    s: Seq<u8>,
    order: TIFFByteOrder,
    base: int,
    n: nat,
)
    requires
        entries_from(s, order, base, n, EntryPolicy::Strict) is Ok,
    ensures
        ({
            let es = entries_from(s, order, base, n, EntryPolicy::Strict)->Ok_0.0;
            &&& es.len() == n
            &&& forall|i: int|
                0 <= i < n ==> (#[trigger] record_at(s, order, base + 12 * i, i as usize) matches Ok(
                    (e, w),
                ) && e == es[i])
        }),
    decreases n,
{
    if n > 0 {
        let i = (n - 1) as nat;
        lemma_strict_entries_in_order(s, order, base, i);
    }
}

/// Under the strict policy a directory that decodes holds as many entries
/// as its count says, each decoded from its own record, in stored order.
pub proof fn lemma_strict_directory_in_order(s: Seq<u8>, order: TIFFByteOrder, p: int)
    requires
        directory_from(s, order, p, EntryPolicy::Strict) is Ok,
    ensures
        ({
            let (n, es, ds) = directory_from(s, order, p, EntryPolicy::Strict)->Ok_0;
            &&& es.len() == n
            &&& forall|i: int|
                0 <= i < n ==> (#[trigger] record_at(s, order, p + 2 + 12 * i, i as usize) matches Ok(
                    (e, w),
                ) && e == es[i])
        }),
{
    let n = u16_at(order, s, p);
    lemma_strict_entries_in_order(s, order, p + 2, n as nat);
}

/// The span of bytes a successful read covers: the 8-byte header, and the
/// directory's count and records.
pub open spec fn read_extent(h: HeaderView) -> int {
    let end = h.ifd_offset + 2 + 12 * h.count;
    if end > 8 {
        end
    } else {
        8
    }
}

/// Entries that decode lie within the stream.
proof fn lemma_entries_fit(s: Seq<u8>, order: TIFFByteOrder, base: int, n: nat, policy: EntryPolicy)
    requires
        entries_from(s, order, base, n, policy) is Ok,
        n > 0,
    ensures
        base + 12 * n <= s.len(),
    decreases n,
{
    let i = (n - 1) as nat;
    if i > 0 {
        lemma_entries_fit(s, order, base, i, policy);
    }
}

/// Entries whose records lie within a prefix decode there as in the whole.
proof fn lemma_entries_of_prefix(
    s: Seq<u8>,
    k: int,
    order: TIFFByteOrder,
    base: int,
    m: nat,
    policy: EntryPolicy,
)
    requires
        0 <= base,
        base + 12 * m <= k <= s.len(),
    ensures
        entries_from(s.take(k), order, base, m, policy) == entries_from(s, order, base, m, policy),
    decreases m,
{
    if m > 0 {
        let i = (m - 1) as nat;
        lemma_entries_of_prefix(s, k, order, base, i, policy);
        let start = base + 12 * i;
        assert(s.take(k).subrange(start + 8, start + 12) =~= s.subrange(start + 8, start + 12));
    }
}

/// Entries that decode in the whole stream fail on a prefix that cuts their
/// records short, with an end-of-input error.
proof fn lemma_entries_cut(
    s: Seq<u8>,
    k: int,
    order: TIFFByteOrder,
    base: int,
    n: nat,
    policy: EntryPolicy,
)
    requires
        entries_from(s, order, base, n, policy) is Ok,
        0 <= base <= k <= s.len(),
        k < base + 12 * n,
    ensures
        entries_from(s.take(k), order, base, n, policy) == Err::<(Seq<IFDEntry>, Seq<Diagnostic>), TIFFError>(eof()),
    decreases n,
{
    let i = (n - 1) as nat;
    if k < base + 12 * i {
        lemma_entries_cut(s, k, order, base, i, policy);
    } else {
        lemma_entries_of_prefix(s, k, order, base, i, policy);
        assert(!skippable(eof()));
    }
}

/// A stream that decodes, cut anywhere within the span the read covers,
/// fails with an I/O error: no header and no partial directory come back.
pub proof fn lemma_truncated_stream_fails(s: Seq<u8>, k: int, policy: EntryPolicy)
    requires
        tiff_of(s, policy) is Ok,
        0 <= k < read_extent(tiff_of(s, policy)->Ok_0),
    ensures
        tiff_of(s.take(k), policy) matches Err(e) && e is IOError,
{
    let t = s.take(k);
    let h = tiff_of(s, policy)->Ok_0;
    let (order, magic, offset) = header_of(s)->Ok_0;
    let n = h.count;
    if n > 0 {
        lemma_entries_fit(s, order, offset + 2, n as nat, policy);
    }
    assert(k <= s.len());
    if k >= 2 {
        assert(t[0] == s[0] && t[1] == s[1]);
    }
    if k >= 4 {
        assert(t[2] == s[2] && t[3] == s[3]);
    }
    if k >= 8 {
        assert(t[4] == s[4] && t[5] == s[5] && t[6] == s[6] && t[7] == s[7]);
        assert(header_of(t) == header_of(s));
        if offset <= k && offset + 2 <= k {
            assert(t[offset as int] == s[offset as int] && t[offset + 1] == s[offset + 1]);
            lemma_entries_cut(s, k, order, offset + 2, n as nat, policy);
        }
    }
}

} // verus!
