//! Seekable byte sources.

use vstd::prelude::*;
use crate::types::{IoFault, TIFFError};

verus! {

/// A byte source read from a position that can be set: the stream a TIFF
/// is decoded from.
pub trait SeekableReader {
    /// Every byte of the source.
    spec fn content(&self) -> Seq<u8>;

    /// The index of the next byte to read.
    spec fn position(&self) -> nat;

    /// Moves to the absolute offset `offset`; fails where it lies past the
    /// end.
    fn seek_to(&mut self, offset: u64) -> (r: Result<(), TIFFError>)
        ensures
            final(self).content() == old(self).content(),
            offset <= old(self).content().len() ==> r is Ok && final(self).position() == offset,
            offset > old(self).content().len() ==> r == Err::<(), TIFFError>(
                TIFFError::IOError(IoFault::SeekOutOfRange),
            ),
    ;

    /// Reads the next `n` bytes; fails where fewer are left.
    fn read_bytes(&mut self, n: usize) -> (r: Result<Vec<u8>, TIFFError>)
        ensures
            final(self).content() == old(self).content(),
            old(self).position() + n <= old(self).content().len() ==> (r matches Ok(v) && v@
                == old(self).content().subrange(
                old(self).position() as int,
                old(self).position() + n,
            ) && final(self).position() == old(self).position() + n),
            old(self).position() + n > old(self).content().len() ==> r == Err::<Vec<u8>, TIFFError>(
                TIFFError::IOError(IoFault::UnexpectedEof),
            ),
    ;
}

/// A byte source held in memory.
pub struct MemoryReader {
    data: Vec<u8>,
    pos: usize,
}

impl MemoryReader {
    /// A source over `data`, positioned at its first byte.
    pub fn new(data: Vec<u8>) -> (r: Self)
        ensures
            r.content() == data@,
            r.position() == 0,
    {
        MemoryReader { data, pos: 0 }
    }

    /// The index of the next byte to read.
    pub fn offset(&self) -> (r: usize)
        ensures
            r == self.position(),
    {
        self.pos
    }
}

impl SeekableReader for MemoryReader {
    closed spec fn content(&self) -> Seq<u8> {
        self.data@
    }

    closed spec fn position(&self) -> nat {
        self.pos as nat
    }

    fn seek_to(&mut self, offset: u64) -> (r: Result<(), TIFFError>) {
        if offset > self.data.len() as u64 {
            return Err(TIFFError::IOError(IoFault::SeekOutOfRange));
        }
        self.pos = offset as usize;
        Ok(())
    }

    fn read_bytes(&mut self, n: usize) -> (r: Result<Vec<u8>, TIFFError>) {
        if self.pos > self.data.len() || n > self.data.len() - self.pos {
            return Err(TIFFError::IOError(IoFault::UnexpectedEof));
        }
        let end: usize = self.pos + n;
        let v = vstd::slice::slice_to_vec(vstd::slice::slice_subrange(self.data.as_slice(), self.pos, end));
        self.pos = end;
        Ok(v)
    }
}

} // verus!
