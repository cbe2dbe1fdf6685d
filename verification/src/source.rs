use vstd::prelude::*;
use crate::err::Error;

verus! {

/// How many bytes one pull of at most `n` bytes yields from a source of
/// length `len` whose cursor stands at `cursor`: all that is asked for, or
/// all that is left.
pub open spec fn spec_read_len(len: nat, cursor: nat, n: nat) -> nat
    recommends
        cursor <= len,
{
    if cursor + n <= len {
        n
    } else {
        (len - cursor) as nat
    }
}

/// Where the cursor stands after a run of pulls with the given chunk sizes.
pub open spec fn spec_cursor_after(len: nat, cursor: nat, chunks: Seq<nat>) -> nat
    recommends
        cursor <= len,
    decreases chunks.len(),
{
    if chunks.len() == 0 {
        cursor
    } else {
        spec_cursor_after(len, cursor + spec_read_len(len, cursor, chunks[0]), chunks.drop_first())
    }
}

/// Every byte a run of pulls with the given chunk sizes yields, in order.
pub open spec fn spec_yielded(data: Seq<u8>, cursor: nat, chunks: Seq<nat>) -> Seq<u8>
    recommends
        cursor <= data.len(),
    decreases chunks.len(),
{
    if chunks.len() == 0 {
        Seq::empty()
    } else {
        let k = spec_read_len(data.len(), cursor, chunks[0]);
        data.subrange(cursor as int, (cursor + k) as int) + spec_yielded(
            data,
            cursor + k,
            chunks.drop_first(),
        )
    }
}

/// The total number of bytes a run of pulls asks for.
pub open spec fn spec_chunk_sum(chunks: Seq<nat>) -> nat
    decreases chunks.len(),
{
    if chunks.len() == 0 {
        0
    } else {
        chunks[0] + spec_chunk_sum(chunks.drop_first())
    }
}

/// A run of pulls yields exactly the bytes between the starting cursor and
/// the final cursor: nothing is skipped, repeated or invented, and the
/// cursor never moves backwards nor past the end.
pub proof fn lemma_reads_yield_exact_prefix(data: Seq<u8>, cursor: nat, chunks: Seq<nat>)
    requires
        cursor <= data.len(),
    ensures
        cursor <= spec_cursor_after(data.len(), cursor, chunks) <= data.len(),
        spec_yielded(data, cursor, chunks) == data.subrange(
            cursor as int,
            spec_cursor_after(data.len(), cursor, chunks) as int,
        ),
    decreases chunks.len(),
{
    if chunks.len() == 0 {
        assert(spec_yielded(data, cursor, chunks) =~= data.subrange(
            cursor as int,
            cursor as int,
        ));
    } else {
        let k = spec_read_len(data.len(), cursor, chunks[0]);
        lemma_reads_yield_exact_prefix(data, cursor + k, chunks.drop_first());
        let end = spec_cursor_after(data.len(), cursor + k, chunks.drop_first());
        assert(data.subrange(cursor as int, (cursor + k) as int) + data.subrange(
            (cursor + k) as int,
            end as int,
        ) =~= data.subrange(cursor as int, end as int));
    }
}

/// The cursor after a run of pulls stands at the end of the source or at the
/// total of the chunk sizes, whichever comes first.
pub proof fn lemma_cursor_after_is_min(len: nat, cursor: nat, chunks: Seq<nat>)
    requires
        cursor <= len,
    ensures
        spec_cursor_after(len, cursor, chunks) == if cursor + spec_chunk_sum(chunks) <= len {
            cursor + spec_chunk_sum(chunks)
        } else {
            len
        },
    decreases chunks.len(),
{
    if chunks.len() > 0 {
        let k = spec_read_len(len, cursor, chunks[0]);
        lemma_cursor_after_is_min(len, cursor + k, chunks.drop_first());
    }
}

/// Pulling chunks whose sizes total at least the source length yields every
/// byte of the source exactly once, and any pull after that yields nothing.
pub proof fn lemma_exhaustive_reads_yield_all(data: Seq<u8>, chunks: Seq<nat>)
    requires
        spec_chunk_sum(chunks) >= data.len(),
    ensures
        spec_cursor_after(data.len(), 0, chunks) == data.len(),
        spec_yielded(data, 0, chunks) == data,
        forall|n: nat| spec_read_len(data.len(), data.len(), n) == 0,
{
    lemma_cursor_after_is_min(data.len(), 0, chunks);
    lemma_reads_yield_exact_prefix(data, 0, chunks);
    assert(data.subrange(0, data.len() as int) =~= data);
}

/// An in-memory byte source with a running read cursor.
#[derive(Debug, Clone)]
pub struct MemorySource {
    pub data: Vec<u8>,
    pub cursor: usize,
}

impl MemorySource {
    /// The cursor never stands past the end of the data.
    pub open spec fn wf(&self) -> bool {
        self.cursor <= self.data@.len()
    }

    pub fn new(data: Vec<u8>) -> (r: Self)
        ensures
            r.wf(),
            r.data@ == data@,
            r.cursor == 0,
    {
        MemorySource { data, cursor: 0 }
    }

    /// One pull of the engine's read protocol: yields the next
    /// `min(max_len, remaining)` bytes and advances the cursor by exactly
    /// that amount; an exhausted source yields nothing, which is the
    /// engine's end-of-data signal, never an error.
    pub fn read(&mut self, max_len: usize) -> (r: Vec<u8>)
        requires
            old(self).wf(),
        ensures
            final(self).wf(),
            final(self).data@ == old(self).data@,
            r@.len() == spec_read_len(
                old(self).data@.len(),
                old(self).cursor as nat,
                max_len as nat,
            ),
            r@ == old(self).data@.subrange(
                old(self).cursor as int,
                old(self).cursor + r@.len(),
            ),
            final(self).cursor == old(self).cursor + r@.len(),
    {
        let len: usize = self.data.len();
        let left: usize = len - self.cursor;
        let n: usize = if left < max_len {
            left
        } else {
            max_len
        };
        let mut out: Vec<u8> = Vec::new();
        let mut i: usize = 0;
        while i < n
            invariant
                *self == *old(self),
                old(self).wf(),
                self.cursor + n <= self.data@.len(),
                self.data@.len() <= usize::MAX,
                i <= n,
                out@ == self.data@.subrange(self.cursor as int, self.cursor + i),
            decreases n - i,
        {
            let b: u8 = self.data[self.cursor + i];
            out.push(b);
            i = i + 1;
            proof {
                assert(out@ =~= self.data@.subrange(self.cursor as int, self.cursor + i));
            }
        }
        self.cursor = self.cursor + n;
        out
    }

    /// How many bytes are left to read.
    pub fn remaining(&self) -> (r: usize)
        requires
            self.wf(),
        ensures
            r == self.data@.len() - self.cursor,
    {
        self.data.len() - self.cursor
    }
}

/// What feeds a stream: an owned in-memory buffer with its cursor, or a file
/// path the engine opens itself.
#[derive(Debug, Clone)]
pub enum ByteSource {
    Memory(MemorySource),
    File(Vec<u8>),
}

/// The pull-based byte stream handed to the engine, bound to exactly one
/// byte source.
#[derive(Debug, Clone)]
pub struct Stream {
    pub source: ByteSource,
}

impl Stream {
    pub open spec fn wf(&self) -> bool {
        match self.source {
            ByteSource::Memory(m) => m.wf(),
            ByteSource::File(_) => true,
        }
    }

    /// A stream over an owned copy of the given bytes, cursor at the start.
    pub fn from_bytes(buf: &[u8]) -> (r: Result<Stream, Error>)
        ensures
            ({
                &&& r matches Ok(s)
                &&& s.wf()
                &&& s.source matches ByteSource::Memory(m)
                &&& m.data@ == buf@
                &&& m.cursor == 0
            }),
    {
        let mut data: Vec<u8> = Vec::new();
        let len: usize = buf.len();
        let mut i: usize = 0;
        while i < len
            invariant
                i <= len,
                len == buf@.len(),
                data@ == buf@.subrange(0, i as int),
            decreases len - i,
        {
            data.push(buf[i]);
            i = i + 1;
            proof {
                assert(data@ =~= buf@.subrange(0, i as int));
            }
        }
        proof {
            assert(buf@.subrange(0, buf@.len() as int) =~= buf@);
        }
        Ok(Stream { source: ByteSource::Memory(MemorySource::new(data)) })
    }

    /// A stream over a file path. The engine expects a terminated string, so
    /// a path with an embedded terminator byte cannot be represented and is
    /// rejected with the position of the first one.
    pub fn from_file(file_name: Vec<u8>) -> (r: Result<Stream, Error>)
        ensures
            (forall|i: int| 0 <= i < file_name@.len() ==> file_name@[i] != 0u8) <==> r is Ok,
            r matches Ok(s) ==> s.wf() && s.source == ByteSource::File(file_name),
            r matches Err(e) ==> e matches Error::NulError(p) && 0 <= p < file_name@.len()
                && file_name@[p as int] == 0u8 && (forall|j: int|
                0 <= j < p ==> file_name@[j] != 0u8),
    {
        let len: usize = file_name.len();
        let mut i: usize = 0;
        while i < len
            invariant
                i <= len,
                len == file_name@.len(),
                forall|j: int| 0 <= j < i ==> file_name@[j] != 0u8,
            decreases len - i,
        {
            if file_name[i] == 0 {
                return Err(Error::NulError(i));
            }
            i = i + 1;
        }
        Ok(Stream { source: ByteSource::File(file_name) })
    }

    /// One pull of the read callback against this stream's memory source.
    pub fn read(&mut self, max_len: usize) -> (r: Vec<u8>)
        requires
            old(self).wf(),
            old(self).source is Memory,
        ensures
            final(self).wf(),
            final(self).source is Memory,
            ({
                let m0 = old(self).source->Memory_0;
                let m1 = final(self).source->Memory_0;
                &&& m1.data@ == m0.data@
                &&& r@.len() == spec_read_len(m0.data@.len(), m0.cursor as nat, max_len as nat)
                &&& r@ == m0.data@.subrange(m0.cursor as int, m0.cursor + r@.len())
                &&& m1.cursor == m0.cursor + r@.len()
            }),
    {
        match &mut self.source {
            ByteSource::Memory(m) => m.read(max_len),
            ByteSource::File(_) => {
                proof {
                    assert(false);
                }
                Vec::new()
            },
        }
    }
}

} // verus!
