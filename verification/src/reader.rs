//! Whole-file reads assembled from chunked transfers.
//!
//! The firmware read primitive may hand back fewer bytes than requested per
//! call. `FileReader` keeps the fill state of one whole-file read: the caller
//! learns from `request` how many bytes are still owed, feeds every chunk the
//! platform delivered to `absorb`, and stops when `absorb` says so — either
//! the buffer is complete or a zero-length chunk signalled an early end of
//! file. The assembled buffer is exactly the concatenation of the absorbed
//! chunks.

use vstd::prelude::*;

verus! {

/// The concatenation, in order, of a sequence of chunks.
pub open spec fn concat_chunks(chunks: Seq<Seq<u8>>) -> Seq<u8>
    decreases chunks.len(),
{
    if chunks.len() == 0 {
        Seq::empty()
    } else {
        concat_chunks(chunks.drop_last()) + chunks.last()
    }
}

/// The fill state reached from `data` after absorbing `chunks` in order.
pub open spec fn absorb_all(data: Seq<u8>, chunks: Seq<Seq<u8>>) -> Seq<u8>
    decreases chunks.len(),
{
    if chunks.len() == 0 {
        data
    } else {
        absorb_all(data + chunks.first(), chunks.drop_first())
    }
}

/// Fill state of one whole-file read: the file's total size, queried up
/// front, and the bytes delivered so far.
pub struct FileReader {
    target: usize,
    data: Vec<u8>,
}

impl FileReader {
    /// The total number of bytes the file holds.
    pub closed spec fn capacity(&self) -> int {
        self.target as int
    }

    /// The bytes delivered so far, in order.
    pub closed spec fn contents(&self) -> Seq<u8> {
        self.data@
    }

    /// The fill never exceeds the file size.
    pub open spec fn wf(&self) -> bool {
        self.contents().len() <= self.capacity()
    }

    /// Start a whole-file read of a file of `size` bytes.
    pub fn new(size: usize) -> (r: Self)
        ensures
            r.capacity() == size,
            r.contents() == Seq::<u8>::empty(),
            r.wf(),
    {
        FileReader { target: size, data: Vec::new() }
    }

    /// How many bytes are still owed; the next read should ask for this many.
    pub fn request(&self) -> (n: usize)
        requires
            self.wf(),
        ensures
            n == self.capacity() - self.contents().len(),
    {
        self.target - self.data.len()
    }

    /// Take one delivered chunk. Returns whether the read loop must go on:
    /// it stops once the buffer is complete, and a zero-length chunk means
    /// the file ended early and nothing more will come.
    pub fn absorb(&mut self, chunk: Vec<u8>) -> (more: bool)
        requires
            old(self).wf(),
            chunk@.len() <= old(self).capacity() - old(self).contents().len(),
        ensures
            final(self).wf(),
            final(self).capacity() == old(self).capacity(),
            final(self).contents() == old(self).contents() + chunk@,
            more == (final(self).contents().len() < final(self).capacity()
                && chunk@.len() > 0),
    {
        let mut chunk = chunk;
        let got = chunk.len();
        self.data.append(&mut chunk);
        got > 0 && self.data.len() < self.target
    }

    /// Whether the whole file has been delivered.
    pub fn is_complete(&self) -> (b: bool)
        ensures
            b == (self.contents().len() == self.capacity()),
    {
        self.data.len() == self.target
    }

    /// Hand out the assembled buffer.
    pub fn finish(self) -> (r: Vec<u8>)
        ensures
            r@ == self.contents(),
    {
        self.data
    }
}

/// The concatenation of a non-empty chunk sequence starts with its first chunk.
proof fn lemma_concat_chunks_first(chunks: Seq<Seq<u8>>)
    requires
        chunks.len() > 0,
    ensures
        concat_chunks(chunks) == chunks.first() + concat_chunks(chunks.drop_first()),
    decreases chunks.len(),
{
    if chunks.len() == 1 {
        assert(chunks.drop_last().len() == 0);
        assert(chunks.drop_first().len() == 0);
        assert(concat_chunks(chunks.drop_last()) == Seq::<u8>::empty());
        assert(concat_chunks(chunks.drop_first()) == Seq::<u8>::empty());
        assert(concat_chunks(chunks) == concat_chunks(chunks.drop_last()) + chunks.last());
        assert(chunks.first() == chunks.last());
        assert(concat_chunks(chunks) =~= chunks.first() + concat_chunks(chunks.drop_first()));
    } else {
        lemma_concat_chunks_first(chunks.drop_last());
        assert(chunks.drop_last().first() == chunks.first());
        assert(chunks.drop_last().drop_first() =~= chunks.drop_first().drop_last());
        assert(chunks.drop_first().last() == chunks.last());
        assert(concat_chunks(chunks) == concat_chunks(chunks.drop_last()) + chunks.last());
        assert(chunks.drop_first().len() > 0);
        assert(concat_chunks(chunks.drop_first()) == concat_chunks(chunks.drop_first().drop_last())
            + chunks.drop_first().last());
        assert(concat_chunks(chunks) =~= chunks.first() + concat_chunks(chunks.drop_first()));
    }
}

/// Absorbing chunks in order appends their concatenation to the fill state.
pub proof fn lemma_absorb_all_appends(data: Seq<u8>, chunks: Seq<Seq<u8>>)
    ensures
        absorb_all(data, chunks) == data + concat_chunks(chunks),
    decreases chunks.len(),
{
    if chunks.len() == 0 {
        assert(absorb_all(data, chunks) =~= data + concat_chunks(chunks));
    } else {
        lemma_concat_chunks_first(chunks);
        lemma_absorb_all_appends(data + chunks.first(), chunks.drop_first());
        assert(absorb_all(data, chunks) =~= data + concat_chunks(chunks));
    }
}

/// A whole-file read rebuilds the file exactly: for any file content and any
/// split of it into consecutive chunks — whatever their sizes — absorbing the
/// chunks in order yields precisely that content, of precisely its length.
pub proof fn lemma_chunked_read_rebuilds_content(content: Seq<u8>, chunks: Seq<Seq<u8>>)
    requires
        concat_chunks(chunks) == content,
    ensures
        absorb_all(Seq::empty(), chunks) == content,
        absorb_all(Seq::empty(), chunks).len() == content.len(),
{
    lemma_absorb_all_appends(Seq::empty(), chunks);
    assert(Seq::empty() + content =~= content);
}

} // verus!
