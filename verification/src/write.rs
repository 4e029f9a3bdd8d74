//! The positional writer: a single pre-sized, offset-addressable output
//! buffer shared by all chunk workers, and the lightweight per-chunk view
//! bound to a fixed base offset.
//!
//! The output must be pre-sized to the full content length before any
//! writer is used, so that every offset is valid and regions not yet
//! written read as zero.  The surrounding process serializes access by the
//! workers and flushes the finished contents to the output file.

use vstd::prelude::*;

verus! {

/// The contents of `s` after writing `data` over the bytes at
/// `[off, off + data.len())`, all other bytes unchanged.
pub open spec fn spec_write_at(s: Seq<u8>, off: int, data: Seq<u8>) -> Seq<u8> {
    Seq::new(
        s.len(),
        |i: int|
            if off <= i < off + data.len() {
                data[i - off]
            } else {
                s[i]
            },
    )
}

/// Structure that contains the shared output contents
pub struct OutputFileWriter {
    buf: Vec<u8>,
}

impl View for OutputFileWriter {
    type V = Seq<u8>;

    closed spec fn view(&self) -> Seq<u8> {
        self.buf@
    }
}

impl OutputFileWriter {
    /// Create a writer pre-sized to `size` bytes, every byte zero.
    pub fn new(size: usize) -> (w: OutputFileWriter)
        ensures
            w@.len() == size,
            forall|i: int| 0 <= i < size ==> w@[i] == 0u8,
    {
        let mut buf: Vec<u8> = Vec::new();
        let mut k: usize = 0;
        while k < size
            invariant
                k <= size,
                buf@.len() == k,
                forall|i: int| 0 <= i < k ==> buf@[i] == 0u8,
            decreases size - k,
        {
            buf.push(0u8);
            k = k + 1;
        }
        OutputFileWriter { buf }
    }

    /// Write all of `buf` at the absolute offset `offset`.  The pair is
    /// one atomic unit from the callers' point of view: the surrounding
    /// process holds the writer under a single lock, so no two workers'
    /// writes interleave.
    pub fn write(&mut self, offset: u64, buf: &[u8])
        requires
            offset as int + buf@.len() <= old(self)@.len(),
        ensures
            final(self)@ == spec_write_at(old(self)@, offset as int, buf@),
    {
        let total: usize = self.buf.len();
        proof {
            assert(offset as int <= total as int);
        }
        let off = offset as usize;
        let mut k: usize = 0;
        while k < buf.len()
            invariant
                offset as int + buf@.len() <= self@.len(),
                self@.len() <= usize::MAX,
                off == offset as int,
                k <= buf@.len(),
                self@.len() == old(self)@.len(),
                forall|i: int| 0 <= i < self@.len() && !(off <= i < off + k) ==> self@[i]
                    == old(self)@[i],
                forall|i: int| 0 <= i < k ==> self@[off + i] == buf@[i],
            decreases buf@.len() - k,
        {
            self.buf[off + k] = buf[k];
            k = k + 1;
        }
        proof {
            assert(final(self)@ =~= spec_write_at(old(self)@, offset as int, buf@));
        }
    }

    /// The finished contents, for the surrounding process to flush to the
    /// output file.
    pub fn as_bytes(&self) -> (r: &[u8])
        ensures
            r@ == self@,
    {
        self.buf.as_slice()
    }

    /// Hand out the lightweight chunk view bound to the given base offset.
    pub fn get_chunk_writer(&mut self, offset: u64) -> (w: OutputChunkWriter)
        ensures
            final(self)@ == old(self)@,
            w.offset == offset,
    {
        OutputChunkWriter { offset: offset }
    }
}

/// Structure that addresses the shared output through a fixed base
/// offset: the view a single chunk worker writes through.
#[derive(Clone, Copy, PartialEq, Eq, Structural, Debug)]
pub struct OutputChunkWriter {
    pub offset: u64,
}

impl OutputChunkWriter {
    /// Write `buf` at `done_offset` bytes past this view's base offset.
    pub fn write(&mut self, out: &mut OutputFileWriter, done_offset: u64, buf: &[u8])
        requires
            old(self).offset as int + done_offset as int + buf@.len() <= old(out)@.len(),
        ensures
            *final(self) == *old(self),
            final(out)@ == spec_write_at(
                old(out)@,
                old(self).offset as int + done_offset as int,
                buf@,
            ),
    {
        proof {
            broadcast use vstd::std_specs::vec::axiom_spec_len;

            assert(old(out)@.len() == vstd::std_specs::vec::spec_vec_len(&old(out).buf));
        }
        let off = self.offset + done_offset;
        out.write(off, buf);
    }
}

/// The writer's contents always fit the machine's address space.
pub proof fn lemma_writer_contents_fit(w: &OutputFileWriter)
    ensures
        w@.len() <= usize::MAX,
{
    broadcast use vstd::std_specs::vec::axiom_spec_len;

    assert(w@.len() == vstd::std_specs::vec::spec_vec_len(&w.buf));
}

/// Two writes at adjacent offsets amount to one write of the
/// concatenated data.
pub proof fn lemma_write_at_adjacent(s: Seq<u8>, off: int, a: Seq<u8>, b: Seq<u8>)
    requires
        0 <= off,
    ensures
        spec_write_at(spec_write_at(s, off, a), off + a.len(), b) == spec_write_at(s, off, a + b),
{
    assert(spec_write_at(spec_write_at(s, off, a), off + a.len(), b) =~= spec_write_at(
        s,
        off,
        a + b,
    ));
}

/// Law: two writes to disjoint ranges commute: whichever order the two
/// chunk workers' writes are issued in, the final contents are the same.
pub proof fn lemma_disjoint_writes_commute(
    s: Seq<u8>,
    off1: int,
    data1: Seq<u8>,
    off2: int,
    data2: Seq<u8>,
)
    requires
        0 <= off1,
        0 <= off2,
        off1 + data1.len() <= off2 || off2 + data2.len() <= off1,
    ensures
        spec_write_at(spec_write_at(s, off1, data1), off2, data2) == spec_write_at(
            spec_write_at(s, off2, data2),
            off1,
            data1,
        ),
{
    assert(spec_write_at(spec_write_at(s, off1, data1), off2, data2) =~= spec_write_at(
        spec_write_at(s, off2, data2),
        off1,
        data1,
    ));
}

} // verus!
