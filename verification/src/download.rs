//! Partitioning of the remote content into byte ranges, one per chunk, and
//! the per-chunk bookkeeping of the download: storing fetched data at the
//! chunk's offsets, progress accounting, and the aggregate verdict.

use vstd::prelude::*;
use vstd::arithmetic::div_mod::lemma_fundamental_div_mod;
use crate::Bytes;
use crate::cargo_helper::CargoInfo;
use crate::response::CheckResponseStatus;
use crate::response::Response;
use crate::response::spec_is_partial_content;
use crate::write::OutputChunkWriter;
use crate::write::OutputFileWriter;
use crate::write::spec_write_at;

verus! {

/// Represents a range between two Bytes types
#[derive(Debug, PartialEq, Eq, Structural, Clone, Copy)]
pub struct RangeBytes(pub Bytes, pub Bytes);

/// The inclusive byte range of chunk `i`, over unbounded integers: `None`
/// when the content is empty, the stride is zero, or the chunk's start
/// would fall at or past the last byte.
pub open spec fn spec_chunk_range(i: int, len: int, stride: int) -> Option<(int, int)> {
    if len <= 0 || stride <= 0 {
        None
    } else if i * stride >= len - 1 {
        None
    } else {
        Some((i * stride, vstd::math::min(len - 1, (i + 1) * stride - 1)))
    }
}

/// Function to get the current chunk length, based on the chunk index.
pub fn get_chunk_length(
    chunk_index: u64,
    content_length: Bytes,
    global_chunk_length: Bytes,
) -> (r: Option<RangeBytes>)
    ensures
        match r {
            Some(rb) => spec_chunk_range(
                chunk_index as int,
                content_length as int,
                global_chunk_length as int,
            ) == Some((rb.0 as int, rb.1 as int)),
            None => spec_chunk_range(
                chunk_index as int,
                content_length as int,
                global_chunk_length as int,
            ) is None,
        },
{
    if content_length == 0 || global_chunk_length == 0 {
        return None;
    }

    // A start at or past 2^64 is certainly at or past the last byte.
    if chunk_index > u64::MAX / global_chunk_length {
        proof {
            lemma_fundamental_div_mod(u64::MAX as int, global_chunk_length as int);
            assert(chunk_index as int * global_chunk_length as int >= content_length as int - 1)
                by (nonlinear_arith)
                requires
                    global_chunk_length as int > 0,
                    chunk_index as int > u64::MAX as int / global_chunk_length as int,
                    u64::MAX as int == global_chunk_length as int * (u64::MAX as int
                        / global_chunk_length as int) + u64::MAX as int % global_chunk_length as int,
                    (u64::MAX as int % global_chunk_length as int) < global_chunk_length as int,
                    content_length as int <= u64::MAX as int,
            ;
        }
        return None;
    }

    proof {
        lemma_fundamental_div_mod(u64::MAX as int, global_chunk_length as int);
        assert(chunk_index as int * global_chunk_length as int <= u64::MAX as int)
            by (nonlinear_arith)
            requires
                global_chunk_length as int > 0,
                chunk_index as int <= u64::MAX as int / global_chunk_length as int,
                u64::MAX as int == global_chunk_length as int * (u64::MAX as int
                    / global_chunk_length as int) + u64::MAX as int % global_chunk_length as int,
                u64::MAX as int % global_chunk_length as int >= 0,
        ;
    }
    let b_range: Bytes = chunk_index * global_chunk_length;

    if b_range >= content_length - 1 {
        return None;
    }

    // Here the start lies strictly before the last byte, so the index
    // itself is small enough for `chunk_index + 1` to fit.
    proof {
        assert(chunk_index as int <= chunk_index as int * global_chunk_length as int)
            by (nonlinear_arith)
            requires
                global_chunk_length as int >= 1,
                chunk_index as int >= 0,
        ;
    }

    let e_range: Bytes = if chunk_index + 1 > u64::MAX / global_chunk_length {
        proof {
            lemma_fundamental_div_mod(u64::MAX as int, global_chunk_length as int);
            assert((chunk_index as int + 1) * global_chunk_length as int - 1 >= content_length
                as int - 1)
                by (nonlinear_arith)
                requires
                    global_chunk_length as int > 0,
                    chunk_index as int + 1 > u64::MAX as int / global_chunk_length as int,
                    u64::MAX as int == global_chunk_length as int * (u64::MAX as int
                        / global_chunk_length as int) + u64::MAX as int % global_chunk_length as int,
                    (u64::MAX as int % global_chunk_length as int) < global_chunk_length as int,
                    content_length as int <= u64::MAX as int,
            ;
        }
        content_length - 1
    } else {
        proof {
            lemma_fundamental_div_mod(u64::MAX as int, global_chunk_length as int);
            assert((chunk_index as int + 1) * global_chunk_length as int <= u64::MAX as int)
                by (nonlinear_arith)
                requires
                    global_chunk_length as int > 0,
                    chunk_index as int + 1 <= u64::MAX as int / global_chunk_length as int,
                    u64::MAX as int == global_chunk_length as int * (u64::MAX as int
                        / global_chunk_length as int) + u64::MAX as int % global_chunk_length as int,
                    u64::MAX as int % global_chunk_length as int >= 0,
            ;
            assert((chunk_index as int + 1) * global_chunk_length as int >= global_chunk_length
                as int)
                by (nonlinear_arith)
                requires
                    global_chunk_length as int >= 1,
                    chunk_index as int >= 0,
            ;
        }
        let upper: Bytes = (chunk_index + 1) * global_chunk_length - 1;
        if content_length - 1 < upper {
            content_length - 1
        } else {
            upper
        }
    };

    Some(RangeBytes(b_range, e_range))
}

/// The byte-range request header value for an inclusive range:
/// `bytes=start-end`, as ASCII bytes.
pub open spec fn spec_range_header(start: int, end: int) -> Seq<u8> {
    seq![98u8, 121u8, 116u8, 101u8, 115u8, 61u8] + crate::digits::spec_decimal(start)
        + seq![45u8] + crate::digits::spec_decimal(end)
}

/// Build the byte-range request header value for an inclusive range.
pub fn range_header_bytes(start: Bytes, end: Bytes) -> (h: Vec<u8>)
    ensures
        h@ == spec_range_header(start as int, end as int),
{
    let mut h: Vec<u8> = Vec::new();
    h.push(98);
    h.push(121);
    h.push(116);
    h.push(101);
    h.push(115);
    h.push(61);
    crate::digits::push_decimal(&mut h, start);
    h.push(45);
    crate::digits::push_decimal(&mut h, end);
    proof {
        assert(h@ =~= spec_range_header(start as int, end as int));
    }
    h
}

/// Function to get the HTTP header to send to the file server, for a chunk (specified by its index).
/// Yields the range header value together with the chunk's start offset
/// and the distance from its first to its last byte.
pub fn get_header_from_index(
    chunk_index: u64,
    content_length: Bytes,
    global_chunk_length: Bytes,
) -> (r: Option<(Vec<u8>, RangeBytes)>)
    ensures
        match r {
            Some(p) => spec_chunk_range(
                chunk_index as int,
                content_length as int,
                global_chunk_length as int,
            ) matches Some(q) && p.0@ == spec_range_header(q.0, q.1) && p.1.0 as int == q.0
                && p.1.1 as int == q.1 - q.0,
            None => spec_chunk_range(
                chunk_index as int,
                content_length as int,
                global_chunk_length as int,
            ) is None,
        },
{
    match get_chunk_length(chunk_index, content_length, global_chunk_length) {
        Some(range) => {
            proof {
                lemma_chunk_range_within(
                    content_length as int,
                    global_chunk_length as int,
                    chunk_index as int,
                );
            }
            let header = range_header_bytes(range.0, range.1);
            Some((header, RangeBytes(range.0, range.1 - range.0)))
        }
        None => None,
    }
}

/// The stride that partitions `len` bytes into `n` chunks: the last real
/// chunk absorbs any remainder, and indices past the data yield no range.
pub open spec fn spec_chunk_stride(len: int, n: int) -> int {
    len / n + 1
}

/// The byte width of each chunk for a content of `content_length` bytes
/// downloaded in `nb_chunks` chunks.
pub fn compute_chunk_stride(content_length: Bytes, nb_chunks: u64) -> (s: Bytes)
    requires
        1 <= nb_chunks,
        content_length < u64::MAX,
    ensures
        s as int == spec_chunk_stride(content_length as int, nb_chunks as int),
{
    proof {
        assert(content_length as int / nb_chunks as int <= content_length as int)
            by (nonlinear_arith)
            requires
                1 <= nb_chunks as int,
                0 <= content_length as int,
        ;
    }
    content_length / nb_chunks + 1
}

/// The list of actual byte ranges for a plan: one range per chunk index,
/// in index order, stopping at the requested chunk count or at the first
/// index past the data, whichever comes first.
pub fn plan_ranges(content_length: Bytes, nb_chunks: u64) -> (v: Vec<RangeBytes>)
    requires
        1 <= nb_chunks,
        content_length < u64::MAX,
    ensures
        v@.len() <= nb_chunks,
        forall|k: int|
            0 <= k < v@.len() ==> spec_chunk_range(
                k,
                content_length as int,
                spec_chunk_stride(content_length as int, nb_chunks as int),
            ) == Some((v@[k].0 as int, v@[k].1 as int)),
        v@.len() < nb_chunks ==> spec_chunk_range(
            v@.len() as int,
            content_length as int,
            spec_chunk_stride(content_length as int, nb_chunks as int),
        ) is None,
{
    let stride = compute_chunk_stride(content_length, nb_chunks);
    let mut v: Vec<RangeBytes> = Vec::new();
    let mut i: u64 = 0;
    while i < nb_chunks
        invariant
            0 <= i <= nb_chunks,
            v@.len() == i,
            stride as int == spec_chunk_stride(content_length as int, nb_chunks as int),
            forall|k: int|
                0 <= k < i ==> spec_chunk_range(
                    k,
                    content_length as int,
                    stride as int,
                ) == Some((v@[k].0 as int, v@[k].1 as int)),
        decreases nb_chunks - i,
    {
        match get_chunk_length(i, content_length, stride) {
            Some(range) => {
                v.push(range);
            }
            None => {
                return v;
            }
        }
        i = i + 1;
    }
    v
}

/// A per-chunk failure: the chunk is marked failed, other chunks are
/// unaffected.
#[derive(Clone, Copy, PartialEq, Eq, Structural, Debug)]
pub enum ChunkError {
    /// The network transfer failed mid-chunk.
    Transport,
    /// The transfer ended after zero bytes, without a transport error.
    EmptyChunk,
    /// The server ignored the byte-range request although partial-content
    /// support was negotiated; continuing would corrupt adjacent chunks.
    PartialContentNotHonored,
}

/// The check made on a chunk's response before any of its body is read.
pub open spec fn spec_check_chunk_response(partial_expected: bool, r: Response) -> Result<
    (),
    ChunkError,
> {
    if partial_expected && !spec_is_partial_content(r) {
        Err(ChunkError::PartialContentNotHonored)
    } else {
        Ok(())
    }
}

/// Guard a chunk's response: when partial-content support was negotiated,
/// a response without the partial-content status means the server ignored
/// the range, and the chunk must fail rather than risk corrupting its
/// neighbours.  The flag is also exactly the multi-chunk mode flag: a
/// single sequential download accepts any successful status.
pub fn check_chunk_response(partial_expected: bool, response: &Response) -> (r: Result<
    (),
    ChunkError,
>)
    ensures
        r == spec_check_chunk_response(partial_expected, *response),
{
    if partial_expected && !response.check_partialcontent_status() {
        Err(ChunkError::PartialContentNotHonored)
    } else {
        Ok(())
    }
}

/// The outcome of a chunk whose body was read to the end: a transfer of
/// zero bytes is an `EmptyChunk` failure even though no transport error
/// occurred.
pub open spec fn spec_finish_chunk(total: Bytes) -> Result<Bytes, ChunkError> {
    if total == 0 {
        Err(ChunkError::EmptyChunk)
    } else {
        Ok(total)
    }
}

/// Close a chunk transfer that reached end-of-stream after `total` bytes.
pub fn finish_chunk(total: Bytes) -> (r: Result<Bytes, ChunkError>)
    ensures
        r == spec_finish_chunk(total),
{
    if total == 0 {
        Err(ChunkError::EmptyChunk)
    } else {
        Ok(total)
    }
}

/// Whether a chunk's recorded outcome counts as success: it completed with
/// a nonzero byte count and no error.
pub open spec fn spec_chunk_succeeded(outcome: Result<Bytes, ChunkError>) -> bool {
    outcome matches Ok(n) && n > 0
}

/// Classify one worker's outcome for the aggregate verdict.
pub fn chunk_succeeded(outcome: &Result<Bytes, ChunkError>) -> (r: bool)
    ensures
        r == spec_chunk_succeeded(*outcome),
{
    match outcome {
        Ok(n) => *n > 0,
        Err(_) => false,
    }
}

/// The aggregate verdict over the per-chunk outcomes: true only when
/// every chunk succeeded.
pub open spec fn spec_all_true(results: Seq<bool>) -> bool {
    forall|k: int| 0 <= k < results.len() ==> results[k]
}

/// Reduce the recorded per-chunk results to the one aggregate boolean:
/// the logical AND over all of them.
pub fn aggregate_verdict(results: &Vec<bool>) -> (r: bool)
    ensures
        r == spec_all_true(results@),
{
    let mut k: usize = 0;
    while k < results.len()
        invariant
            0 <= k <= results@.len(),
            forall|m: int| 0 <= m < k ==> results@[m],
        decreases results@.len() - k,
    {
        if !results[k] {
            return false;
        }
        k = k + 1;
    }
    true
}

/// The bytes of a whole chunk transfer: the concatenation, in arrival
/// order, of the buffers read from the response body.
pub open spec fn spec_segments_bytes(segments: Seq<Seq<u8>>) -> Seq<u8> {
    segments.flatten()
}

/// Flattening one more segment appends it to the flattened prefix.
proof fn lemma_flatten_take_succ(segments: Seq<Seq<u8>>, j: int)
    requires
        0 <= j < segments.len(),
    ensures
        segments.take(j + 1).flatten() == segments.take(j).flatten() + segments[j],
{
    let prefix = segments.take(j + 1);
    assert(prefix.drop_last() =~= segments.take(j));
    prefix.lemma_flatten_and_flatten_alt_are_equivalent();
    segments.take(j).lemma_flatten_and_flatten_alt_are_equivalent();
    assert(prefix.flatten_alt() == prefix.drop_last().flatten_alt().add(prefix.last()));
}

/// A flattened prefix is no longer than the whole flattened sequence.
proof fn lemma_flatten_take_le(segments: Seq<Seq<u8>>, j: int)
    requires
        0 <= j <= segments.len(),
    ensures
        segments.take(j).flatten().len() <= segments.flatten().len(),
    decreases segments.len() - j,
{
    if j == segments.len() {
        assert(segments.take(j) =~= segments);
    } else {
        lemma_flatten_take_succ(segments, j);
        lemma_flatten_take_le(segments, j + 1);
    }
}

/// Stream a fetched chunk into the shared output: write each body segment
/// through the chunk view at the cumulative offset read so far, and
/// return the total byte count.  The output ends up holding the
/// concatenation of the segments at the chunk's base offset, all other
/// bytes untouched.
pub fn store_chunk(
    out: &mut OutputFileWriter,
    chunk_writer: &mut OutputChunkWriter,
    segments: &Vec<Vec<u8>>,
) -> (total: Bytes)
    requires
        old(chunk_writer).offset as int + spec_segments_bytes(segments.deep_view()).len() <= old(
            out,
        )@.len(),
    ensures
        *final(chunk_writer) == *old(chunk_writer),
        total as int == spec_segments_bytes(segments.deep_view()).len(),
        final(out)@ == spec_write_at(
            old(out)@,
            old(chunk_writer).offset as int,
            spec_segments_bytes(segments.deep_view()),
        ),
{
    proof {
        crate::write::lemma_writer_contents_fit(old(out));
    }
    let ghost all = segments.deep_view();
    proof {
        assert(all.take(0) =~= Seq::<Seq<u8>>::empty());
        lemma_flatten_take_le(all, 0);
        assert(out@ =~= spec_write_at(old(out)@, old(chunk_writer).offset as int, all.take(0).flatten()));
    }
    let mut total: Bytes = 0;
    let mut j: usize = 0;
    while j < segments.len()
        invariant
            j <= all.len(),
            all == segments.deep_view(),
            all.take(j as int).flatten().len() <= all.flatten().len(),
            total as int == all.take(j as int).flatten().len(),
            *chunk_writer == *old(chunk_writer),
            chunk_writer.offset as int + all.flatten().len() <= out@.len(),
            out@.len() == old(out)@.len(),
            out@.len() <= usize::MAX,
            out@ == spec_write_at(old(out)@, chunk_writer.offset as int, all.take(j as int).flatten()),
        decreases all.len() - j,
    {
        proof {
            lemma_flatten_take_succ(all, j as int);
            lemma_flatten_take_le(all, j as int + 1);
            assert(all[j as int] =~= segments@[j as int]@);
        }
        let seg: &Vec<u8> = &segments[j];
        proof {
            crate::write::lemma_write_at_adjacent(
                old(out)@,
                chunk_writer.offset as int,
                all.take(j as int).flatten(),
                seg@,
            );
        }
        chunk_writer.write(out, total, seg.as_slice());
        total = total + (seg.len() as u64);
        j = j + 1;
    }
    proof {
        assert(all.take(all.len() as int) =~= all);
    }
    total
}

/// The progress accounting of one chunk fetch: how many bytes have been
/// transferred, and how many of them have already been reported to the
/// progress collaborator.  Reports are time-throttled by the caller;
/// the accounting guarantees no byte is reported twice or lost.
#[derive(Clone, Copy, PartialEq, Eq, Structural, Debug)]
pub struct ChunkProgress {
    pub transferred: Bytes,
    pub reported: Bytes,
}

impl ChunkProgress {
    /// Start the accounting of a fresh chunk transfer.
    pub fn new() -> (p: ChunkProgress)
        ensures
            p.transferred == 0,
            p.reported == 0,
    {
        ChunkProgress { transferred: 0, reported: 0 }
    }

    /// Record `delta` more transferred bytes.
    pub fn advance(&mut self, delta: Bytes)
        requires
            old(self).transferred + delta <= u64::MAX,
        ensures
            final(self).transferred == old(self).transferred + delta,
            final(self).reported == old(self).reported,
    {
        self.transferred = self.transferred + delta;
    }

    /// Take the not-yet-reported byte count for one progress update,
    /// marking it reported.
    pub fn take_unreported(&mut self) -> (delta: Bytes)
        requires
            old(self).reported <= old(self).transferred,
        ensures
            delta == old(self).transferred - old(self).reported,
            final(self).transferred == old(self).transferred,
            final(self).reported == old(self).transferred,
    {
        let delta = self.transferred - self.reported;
        self.reported = self.transferred;
        delta
    }
}

/// Law: a plan without partial-content support is downloaded as one single
/// range covering the whole content, and that degraded download succeeds
/// exactly when its one transfer moved at least one byte: end-of-stream
/// after zero bytes fails the aggregate verdict.
pub proof fn lemma_single_range_verdict(plan: CargoInfo, transferred: Bytes)
    requires
        !plan.accept_partialcontent,
        2 <= plan.content_length,
    ensures
        spec_chunk_range(
            0,
            plan.content_length as int,
            spec_chunk_stride(plan.content_length as int, 1),
        ) == Some((0int, plan.content_length - 1)),
        spec_chunk_range(
            1,
            plan.content_length as int,
            spec_chunk_stride(plan.content_length as int, 1),
        ) is None,
        spec_all_true(seq![spec_chunk_succeeded(spec_finish_chunk(transferred))]) == (transferred
            > 0),
{
    let s = seq![spec_chunk_succeeded(spec_finish_chunk(transferred))];
    assert(s[0] == spec_chunk_succeeded(spec_finish_chunk(transferred)));
    if transferred > 0 {
        assert(spec_all_true(s));
    } else {
        assert(!s[0]);
        assert(!spec_all_true(s));
    }
}

/// Every chunk range lies within the content: its bounds are ordered and
/// both fall inside `[0, len - 1]`.
pub proof fn lemma_chunk_range_within(len: int, stride: int, i: int)
    requires
        0 <= i,
        spec_chunk_range(i, len, stride) is Some,
    ensures
        spec_chunk_range(i, len, stride) matches Some(p) && 0 <= p.0 <= p.1 <= len - 1,
{
    assert(0 <= i * stride && i * stride + 1 <= (i + 1) * stride) by (nonlinear_arith)
        requires
            0 <= i,
            0 < stride,
    ;
}

/// Once a chunk index yields no range, every later index yields none
/// either: the produced ranges stop at the first `None`.
pub proof fn lemma_chunk_ranges_stop(len: int, stride: int, i: int, j: int)
    requires
        0 <= i <= j,
        spec_chunk_range(i, len, stride) is None,
    ensures
        spec_chunk_range(j, len, stride) is None,
{
    if 0 < len && 0 < stride {
        assert(i * stride <= j * stride) by (nonlinear_arith)
            requires
                0 <= i <= j,
                0 < stride,
        ;
    }
}

/// Ranges of distinct chunks are pairwise disjoint: the earlier chunk's
/// range ends strictly before the later chunk's range begins.
pub proof fn lemma_chunk_ranges_disjoint(len: int, stride: int, i: int, j: int)
    requires
        0 <= i < j,
        spec_chunk_range(i, len, stride) is Some,
        spec_chunk_range(j, len, stride) is Some,
    ensures
        spec_chunk_range(i, len, stride) matches Some(p)
            && spec_chunk_range(j, len, stride) matches Some(q) && p.1 < q.0,
{
    assert((i + 1) * stride <= j * stride) by (nonlinear_arith)
        requires
            i + 1 <= j,
            0 < stride,
    ;
}

/// Consecutive chunk ranges are gap-free: whenever chunk `i + 1` has a
/// range, chunk `i` has one too, and the later range starts exactly one
/// byte after the earlier one ends.
pub proof fn lemma_chunk_ranges_contiguous(len: int, stride: int, i: int)
    requires
        0 <= i,
        spec_chunk_range(i + 1, len, stride) is Some,
    ensures
        spec_chunk_range(i, len, stride) matches Some(p)
            && spec_chunk_range(i + 1, len, stride) matches Some(q) && q.0 == p.1 + 1,
{
    assert(i * stride + stride == (i + 1) * stride && i * stride >= 0) by (nonlinear_arith)
        requires
            0 <= i,
            0 < stride,
    ;
}

/// Every byte of the content is covered: byte `b` lies in the range of
/// chunk `b / stride`.  This holds whenever the last byte does not fall
/// exactly on a stride boundary; when `(len - 1) % stride == 0` the final
/// byte belongs to no chunk, since the chunk that would start there is
/// suppressed.
pub proof fn lemma_chunk_ranges_cover(len: int, stride: int, b: int)
    requires
        0 < len,
        0 < stride,
        (len - 1) % stride != 0,
        0 <= b < len,
    ensures
        spec_chunk_range(b / stride, len, stride) matches Some(p) && p.0 <= b <= p.1,
{
    let i = b / stride;
    assert(0 <= i && i * stride <= b && b <= (i + 1) * stride - 1) by (nonlinear_arith)
        requires
            0 < stride,
            0 <= b,
            i == b / stride,
    ;
    assert((i * stride) % stride == 0) by (nonlinear_arith)
        requires
            0 < stride,
    ;
    assert(i * stride != len - 1);
    assert(i * stride < len - 1);
}

} // verus!
