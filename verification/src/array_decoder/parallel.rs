//! The stages of the parallel decoder: cutting the input into blocks of whole
//! lines, decoding a block, and the choices of the threads that run them.

use vstd::prelude::*;

use crate::array_decoder::line::{cut, ends_lines, lemma_records_concat, record_spans, records};
use crate::array_decoder::DecodeError;
use crate::array_decoder::Progress;
use std::collections::VecDeque;

verus! {

/// Where a full buffer is cut: just behind its last newline. Zero where it
/// holds no newline.
pub open spec fn cut_point(w: Seq<u8>) -> nat
    decreases w.len(),
{
    if w.len() == 0 {
        0
    } else if w.last() == 0x0a {
        w.len()
    } else {
        cut_point(w.drop_last())
    }
}

/// The length of the block that a full buffer gives: up to and including its
/// last newline, or all of it where it holds none.
pub open spec fn block_len(w: Seq<u8>) -> nat {
    if cut_point(w) == 0 {
        w.len()
    } else {
        cut_point(w)
    }
}

/// `cut_point` is behind the last newline.
pub proof fn lemma_cut_point(w: Seq<u8>)
    ensures
        cut_point(w) <= w.len(),
        cut_point(w) > 0 ==> w[cut_point(w) - 1] == 0x0a,
        forall|k: int| cut_point(w) <= k < w.len() ==> w[k] != 0x0a,
    decreases w.len(),
{
    if w.len() == 0 || w.last() == 0x0a {
    } else {
        let v = w.drop_last();
        lemma_cut_point(v);
        assert forall|k: int| cut_point(w) <= k < w.len() implies w[k] != 0x0a by {
            if k < v.len() {
                assert(w[k] == v[k]);
            }
        }
    }
}

/// A position behind a newline, with no newline after it, is the cut point.
pub proof fn lemma_cut_point_is(w: Seq<u8>, n: int)
    requires
        0 <= n <= w.len(),
        n > 0 ==> w[n - 1] == 0x0a,
        forall|k: int| n <= k < w.len() ==> w[k] != 0x0a,
    ensures
        cut_point(w) == n,
    decreases w.len(),
{
    if w.len() == 0 || w.last() == 0x0a {
    } else {
        let v = w.drop_last();
        assert(n < w.len());
        assert forall|k: int| n <= k < v.len() implies v[k] != 0x0a by {
            assert(v[k] == w[k]);
        }
        if n > 0 {
            assert(v[n - 1] == w[n - 1]);
        }
        lemma_cut_point_is(v, n);
    }
}

/// The blocks that an input is cut into with buffers of `c` bytes: each full
/// buffer gives a block and leaves the rest for the next; what is left at the
/// end, shorter than a buffer, is the last block.
pub open spec fn blocks(s: Seq<u8>, c: nat) -> Seq<Seq<u8>>
    decreases s.len(),
    via blocks_decreases
{
    if s.len() == 0 || c == 0 {
        Seq::empty()
    } else if s.len() < c {
        seq![s]
    } else {
        let k = block_len(s.subrange(0, c as int)) as int;
        seq![s.subrange(0, k)] + blocks(s.subrange(k, s.len() as int), c)
    }
}

#[via_fn]
proof fn blocks_decreases(s: Seq<u8>, c: nat) {
    if s.len() == 0 || c == 0 {
    } else if s.len() < c {
    } else {
        lemma_cut_point(s.subrange(0, c as int));
    }
}

/// What the chunk reader does next.
#[derive(Debug)]
pub enum ChunkStep {
    /// The buffer is not full: read up to so many bytes from the stream and
    /// feed them.
    Need(usize),
    /// A block of the input, ready to be decoded.
    Chunk(Vec<u8>),
    /// The input has been given out whole.
    Done,
}

/// Cuts a byte stream into blocks of whole lines, one buffer at a time. It
/// holds no stream: its caller reads what it asks for and feeds it.
pub struct ChunkReader {
    chunk_size: usize,
    buf: Vec<u8>,
    exhausted: bool,
}

impl ChunkReader {
    /// The size of the buffer, which no block exceeds.
    pub closed spec fn chunk_size(&self) -> nat {
        self.chunk_size as nat
    }

    /// The bytes that were fed and not given out yet.
    pub closed spec fn held(&self) -> Seq<u8> {
        self.buf@
    }

    /// Whether the stream has reported its end.
    pub closed spec fn exhausted(&self) -> bool {
        self.exhausted
    }

    /// The reader holds no more bytes than its buffer takes.
    pub closed spec fn wf(&self) -> bool {
        self.buf@.len() <= self.chunk_size
    }

    /// A reader with an empty buffer of `chunk_size` bytes.
    pub fn new(chunk_size: usize) -> (r: ChunkReader)
        ensures
            r.wf(),
            r.chunk_size() == chunk_size,
            r.held() == Seq::<u8>::empty(),
            !r.exhausted(),
    {
        ChunkReader { chunk_size, buf: Vec::new(), exhausted: false }
    }

    /// Takes what a read of the stream gave: `data` joins the bytes held. An
    /// empty `data` is the end of the stream.
    pub fn feed(&mut self, data: &[u8])
        requires
            old(self).wf(),
            old(self).held().len() + data@.len() <= old(self).chunk_size(),
        ensures
            final(self).wf(),
            final(self).chunk_size() == old(self).chunk_size(),
            final(self).held() == old(self).held() + data@,
            final(self).exhausted() == (old(self).exhausted() || data@.len() == 0),
    {
        if data.len() == 0 {
            self.exhausted = true;
            proof {
                assert(self.buf@ + data@ =~= self.buf@);
            }
        } else {
            let mut i: usize = 0;
            while i < data.len()
                invariant
                    i <= data@.len(),
                    self.chunk_size == old(self).chunk_size,
                    self.exhausted == old(self).exhausted,
                    self.buf@ == old(self).buf@ + data@.subrange(0, i as int),
                decreases data@.len() - i,
            {
                self.buf.push(data[i]);
                i = i + 1;
                proof {
                    assert(self.buf@ =~= old(self).buf@ + data@.subrange(0, i as int));
                }
            }
            proof {
                assert(data@.subrange(0, i as int) =~= data@);
            }
        }
    }

    /// The next step. With a buffer that is not full and a stream that has
    /// not ended, it asks for the bytes that are missing. A full buffer is cut
    /// behind its last newline: what stands before the cut is the block, the
    /// rest stays for the next one; with no newline in it the whole buffer is
    /// the block. Once the stream has ended, what is held is the last block,
    /// as it is.
    pub fn read_chunk(&mut self) -> (step: ChunkStep)
        requires
            old(self).wf(),
        ensures
            final(self).wf(),
            final(self).chunk_size() == old(self).chunk_size(),
            final(self).exhausted() == old(self).exhausted(),
            match step {
                ChunkStep::Need(n) => {
                    &&& !old(self).exhausted()
                    &&& old(self).held().len() < old(self).chunk_size()
                    &&& n == old(self).chunk_size() - old(self).held().len()
                    &&& final(self).held() == old(self).held()
                },
                ChunkStep::Chunk(block) => {
                    &&& old(self).held().len() > 0
                    &&& block@.len() > 0
                    &&& old(self).held() == block@ + final(self).held()
                    &&& final(self).held().len() < old(self).held().len()
                    &&& if old(self).exhausted() {
                        &&& block@ == old(self).held()
                        &&& final(self).held() == Seq::<u8>::empty()
                    } else {
                        let k = block_len(old(self).held()) as int;
                        &&& old(self).held().len() == old(self).chunk_size()
                        &&& block@ == old(self).held().subrange(0, k)
                        &&& final(self).held() == old(self).held().subrange(
                            k,
                            old(self).held().len() as int,
                        )
                    }
                },
                ChunkStep::Done => {
                    &&& old(self).held().len() == 0
                    &&& old(self).exhausted() || old(self).chunk_size() == 0
                    &&& final(self).held() == old(self).held()
                },
            },
    {
        let held: usize = self.buf.len();
        if self.exhausted {
            if held == 0 {
                return ChunkStep::Done;
            }
            let rest = self.buf.split_off(0);
            proof {
                assert(rest@ =~= old(self).buf@);
                assert(old(self).buf@ =~= rest@ + self.buf@);
            }
            return ChunkStep::Chunk(rest);
        }
        if self.chunk_size == 0 {
            return ChunkStep::Done;
        }
        if held < self.chunk_size {
            return ChunkStep::Need(self.chunk_size - held);
        }
        let mut at: usize = held;
        while at > 0 && self.buf[at - 1] != 0x0a
            invariant
                at <= held,
                held == self.buf@.len(),
                self.buf@ == old(self).buf@,
                forall|k: int| at <= k < held ==> self.buf@[k] != 0x0a,
            decreases at,
        {
            at = at - 1;
        }
        proof {
            lemma_cut_point_is(self.buf@, at as int);
        }
        if at == 0 {
            at = held;
        }
        let mut rest = self.buf.split_off(at);
        std::mem::swap(&mut rest, &mut self.buf);
        proof {
            assert(old(self).buf@ =~= rest@ + self.buf@);
        }
        ChunkStep::Chunk(rest)
    }
}

/// The byte strings that the blocks of `out` hold.
pub open spec fn block_views(out: Seq<Vec<u8>>) -> Seq<Seq<u8>> {
    Seq::new(out.len(), |i: int| out[i]@)
}

/// Cuts an input that is in memory into its blocks, by feeding a chunk reader
/// what it asks for until it is done.
pub fn split_blocks(input: &[u8], chunk_size: usize) -> (out: Vec<Vec<u8>>)
    ensures
        block_views(out@) == blocks(input@, chunk_size as nat),
{
    let len: usize = input.len();
    let mut reader = ChunkReader::new(chunk_size);
    let mut out: Vec<Vec<u8>> = Vec::new();
    let mut pos: usize = 0;
    let mut done: bool = false;
    proof {
        assert(reader.held() + input@.subrange(0, len as int) =~= input@);
        assert(block_views(out@) + blocks(input@, chunk_size as nat) =~= blocks(
            input@,
            chunk_size as nat,
        ));
    }
    while !done
        invariant
            len == input@.len(),
            pos <= len,
            reader.wf(),
            reader.chunk_size() == chunk_size,
            reader.exhausted() ==> pos == len && reader.held().len() < chunk_size,
            !done ==> blocks(input@, chunk_size as nat) == block_views(out@) + blocks(
                reader.held() + input@.subrange(pos as int, len as int),
                chunk_size as nat,
            ),
            done ==> blocks(input@, chunk_size as nat) == block_views(out@),
        decreases
            if done { 0int } else { 1int },
            2 * (len - pos) + reader.held().len() + (if reader.exhausted() { 0int } else { 1 }),
    {
        let ghost held = reader.held();
        let ghost rest = input@.subrange(pos as int, len as int);
        let ghost before = out@;
        match reader.read_chunk() {
            ChunkStep::Need(n) => {
                let take: usize = if n < len - pos {
                    n
                } else {
                    len - pos
                };
                reader.feed(&input[pos..pos + take]);
                pos = pos + take;
                proof {
                    assert((held + rest.subrange(0, take as int)) + input@.subrange(
                        pos as int,
                        len as int,
                    ) =~= held + rest);
                    assert(input@.subrange(pos as int - take, pos as int) =~= rest.subrange(
                        0,
                        take as int,
                    ));
                }
            },
            ChunkStep::Chunk(block) => {
                out.push(block);
                proof {
                    let all = held + rest;
                    let c = chunk_size as nat;
                    assert(block_views(out@) =~= block_views(before) + seq![block@]);
                    if reader.exhausted() {
                        assert(rest.len() == 0);
                        assert(all =~= held);
                        assert(reader.held() + rest =~= Seq::<u8>::empty());
                        assert(blocks(Seq::<u8>::empty(), c) =~= Seq::<Seq<u8>>::empty());
                        assert(blocks(all, c) == seq![all]);
                        assert(block_views(before) + seq![all] =~= block_views(out@)
                            + Seq::<Seq<u8>>::empty());
                    } else {
                        let k = block_len(held) as int;
                        lemma_cut_point(held);
                        assert(all.subrange(0, c as int) =~= held);
                        assert(all.subrange(0, k) =~= held.subrange(0, k));
                        assert(all.subrange(k, all.len() as int) =~= reader.held() + rest);
                        assert(block_views(before) + (seq![block@] + blocks(
                            reader.held() + rest,
                            c,
                        )) =~= block_views(out@) + blocks(reader.held() + rest, c));
                    }
                }
            },
            ChunkStep::Done => {
                done = true;
                proof {
                    let c = chunk_size as nat;
                    if c != 0 {
                        assert(rest.len() == 0);
                    }
                    assert(blocks(held + rest, c) =~= Seq::<Seq<u8>>::empty());
                    assert(block_views(out@) + Seq::<Seq<u8>>::empty() =~= block_views(out@));
                }
            },
        }
    }
    out
}

/// The blocks of `bl`, one after the other, as one byte string.
pub open spec fn joined(bl: Seq<Seq<u8>>) -> Seq<u8>
    decreases bl.len(),
{
    if bl.len() == 0 {
        Seq::empty()
    } else {
        bl[0] + joined(bl.drop_first())
    }
}

/// The records of the blocks of `bl`, block after block.
pub open spec fn all_records(bl: Seq<Seq<u8>>) -> Seq<Seq<u8>>
    decreases bl.len(),
{
    if bl.len() == 0 {
        Seq::empty()
    } else {
        records(bl[0]) + all_records(bl.drop_first())
    }
}

/// The `c` bytes of `s` from `i` on hold a newline.
pub open spec fn window_has_newline(s: Seq<u8>, i: int, c: nat) -> bool {
    exists|k: int| i <= k < i + c && #[trigger] s[k] == 0x0a
}

/// No line of `s` fills a buffer of `c` bytes: wherever such a buffer lies
/// on `s`, it holds a newline.
pub open spec fn lines_fit(s: Seq<u8>, c: nat) -> bool {
    forall|i: int| 0 <= i && i + c <= s.len() ==> #[trigger] window_has_newline(s, i, c)
}

/// Nothing is lost or added by the cutting: the blocks of an input, one after
/// the other, are the input.
pub proof fn lemma_blocks_join(s: Seq<u8>, c: nat)
    requires
        c > 0,
    ensures
        joined(blocks(s, c)) == s,
    decreases s.len(),
{
    if s.len() == 0 {
        assert(joined(blocks(s, c)) =~= s);
    } else if s.len() < c {
        assert(seq![s].drop_first() =~= Seq::<Seq<u8>>::empty());
        assert(joined(Seq::<Seq<u8>>::empty()) =~= Seq::<u8>::empty());
        assert(joined(seq![s]) =~= s);
    } else {
        let w = s.subrange(0, c as int);
        lemma_cut_point(w);
        let k = block_len(w) as int;
        let head = s.subrange(0, k);
        let tail = s.subrange(k, s.len() as int);
        lemma_blocks_join(tail, c);
        let bl = seq![head] + blocks(tail, c);
        assert(bl[0] == head);
        assert(bl.drop_first() =~= blocks(tail, c));
        assert(head + tail =~= s);
    }
}

/// Every block holds at least one byte and no more than the buffer takes, and
/// every block but the last ends with a newline or fills the buffer without
/// holding one.
pub proof fn lemma_blocks_shape(s: Seq<u8>, c: nat, i: int)
    requires
        c > 0,
        0 <= i < blocks(s, c).len(),
    ensures
        0 < blocks(s, c)[i].len() <= c,
        i + 1 < blocks(s, c).len() ==> {
            ||| blocks(s, c)[i].last() == 0x0a
            ||| (blocks(s, c)[i].len() == c && forall|k: int|
                0 <= k < c ==> blocks(s, c)[i][k] != 0x0a)
        },
    decreases s.len(),
{
    if s.len() == 0 {
    } else if s.len() < c {
    } else {
        let w = s.subrange(0, c as int);
        lemma_cut_point(w);
        let k = block_len(w) as int;
        let head = s.subrange(0, k);
        let tail = s.subrange(k, s.len() as int);
        let bl = seq![head] + blocks(tail, c);
        if i == 0 {
            assert(bl[0] == head);
            if cut_point(w) == 0 {
                assert(head =~= w);
            } else {
                assert(head.last() == w[k - 1]);
            }
        } else {
            assert(bl[i] == blocks(tail, c)[i - 1]);
            lemma_blocks_shape(tail, c, i - 1);
        }
    }
}

/// Cutting keeps the records wherever no line fills a buffer: the records of
/// the blocks, block after block, are the records of the input read in one
/// pass.
pub proof fn lemma_blocks_keep_records(s: Seq<u8>, c: nat)
    requires
        c > 0,
        lines_fit(s, c),
    ensures
        all_records(blocks(s, c)) == records(s),
    decreases s.len(),
{
    if s.len() == 0 {
        assert(all_records(blocks(s, c)) =~= records(s));
    } else if s.len() < c {
        assert(seq![s].drop_first() =~= Seq::<Seq<u8>>::empty());
        assert(all_records(Seq::<Seq<u8>>::empty()) =~= Seq::<Seq<u8>>::empty());
        assert(all_records(seq![s]) =~= records(s));
    } else {
        let w = s.subrange(0, c as int);
        lemma_cut_point(w);
        assert(window_has_newline(s, 0, c));
        let j = choose|j: int| 0 <= j < 0 + c && #[trigger] s[j] == 0x0a;
        assert(w[j] == s[j]);
        assert(cut_point(w) > 0);
        let k = cut_point(w) as int;
        let head = s.subrange(0, k);
        let tail = s.subrange(k, s.len() as int);
        assert(head.last() == w[k - 1]);
        assert(ends_lines(head));
        assert forall|i: int| 0 <= i && i + c <= tail.len() implies #[trigger] window_has_newline(
            tail,
            i,
            c,
        ) by {
            assert(window_has_newline(s, i + k, c));
            let m = choose|m: int| i + k <= m < i + k + c && #[trigger] s[m] == 0x0a;
            assert(tail[m - k] == s[m]);
        }
        lemma_blocks_keep_records(tail, c);
        lemma_records_concat(head, tail);
        assert(head + tail =~= s);
        let bl = seq![head] + blocks(tail, c);
        assert(bl[0] == head);
        assert(bl.drop_first() =~= blocks(tail, c));
    }
}

/// The record decoder `decode` can give `out` for the line `line`.
pub open spec fn decodes<D, F: Fn(&[u8]) -> Result<D, String>>(
    decode: &F,
    line: Seq<u8>,
    out: Result<D, String>,
) -> bool {
    exists|b: &[u8]| b@ == line && call_ensures(decode, (b,), out)
}

/// The record decoder `decode` can accept the line `line`.
pub open spec fn accepts<D, F: Fn(&[u8]) -> Result<D, String>>(decode: &F, line: Seq<u8>) -> bool {
    exists|v: D| decodes(decode, line, Ok::<D, String>(v))
}

/// What `decode` makes of the block `bs`: `r` holds the records of all its
/// lines in their order, or names the first line that `decode` refused.
pub open spec fn block_outcome<D, F: Fn(&[u8]) -> Result<D, String>>(
    decode: &F,
    bs: Seq<u8>,
    r: Result<Vec<D>, DecodeError>,
) -> bool {
    match r {
        Ok(values) => {
            &&& values@.len() == records(bs).len()
            &&& forall|i: int|
                0 <= i < values@.len() ==> decodes(
                    decode,
                    #[trigger] records(bs)[i],
                    Ok::<D, String>(values@[i]),
                )
        },
        Err(DecodeError::Line { position, line, reason }) => {
            &&& position < records(bs).len()
            &&& line@ == records(bs)[position as int]
            &&& decodes(decode, line@, Err::<D, String>(reason))
            &&& forall|i: int|
                0 <= i < position ==> accepts::<D, F>(decode, #[trigger] records(bs)[i])
        },
        Err(_) => false,
    }
}

/// A copy of the bytes `from..to` of `bs`.
fn copy_span(bs: &[u8], from: usize, to: usize) -> (out: Vec<u8>)
    requires
        from <= to <= bs@.len(),
    ensures
        out@ == bs@.subrange(from as int, to as int),
{
    let mut out: Vec<u8> = Vec::new();
    let mut i: usize = from;
    while i < to
        invariant
            from <= i <= to <= bs@.len(),
            out@ == bs@.subrange(from as int, i as int),
        decreases to - i,
    {
        out.push(bs[i]);
        i = i + 1;
        proof {
            assert(out@ =~= bs@.subrange(from as int, i as int));
        }
    }
    out
}

/// Decodes blocks, one after the other, and remembers how many records the
/// largest of them held.
pub struct ChunkParser {
    max_values_len: usize,
}

impl ChunkParser {
    /// The largest number of records that a block gave so far.
    pub closed spec fn max_values_len(&self) -> nat {
        self.max_values_len as nat
    }

    /// A parser that has seen no block.
    pub fn new() -> (r: ChunkParser)
        ensures
            r.max_values_len() == 0,
    {
        ChunkParser { max_values_len: 0 }
    }

    /// Decodes the block `bs`: hands the payload of each of its lines to
    /// `decode`, in the order of the lines, and gathers what comes back. The
    /// first line that `decode` refuses ends the work: the error names its
    /// place, holds its bytes and the reason, and every line before it was
    /// accepted.
    pub fn parse_chunk<D, F: Fn(&[u8]) -> Result<D, String>>(&mut self, bs: &[u8], decode: &F) -> (r:
        Result<Vec<D>, DecodeError>)
        requires
            forall|b: &[u8]| call_requires(decode, (b,)),
        ensures
            block_outcome(decode, bs@, r),
            final(self).max_values_len() == match r {
                Ok(values) => if values@.len() > old(self).max_values_len() {
                    values@.len()
                } else {
                    old(self).max_values_len()
                },
                Err(_) => old(self).max_values_len(),
            },
    {
        let spans = record_spans(bs);
        let mut values: Vec<D> = Vec::with_capacity(self.max_values_len);
        let mut i: usize = 0;
        while i < spans.len()
            invariant
                i <= spans@.len(),
                cut(bs@, spans@) == records(bs@),
                crate::array_decoder::line::spans_ordered(spans@, bs@.len()),
                forall|b: &[u8]| call_requires(decode, (b,)),
                values@.len() == i,
                *self == *old(self),
                forall|j: int|
                    0 <= j < i ==> decodes(
                        decode,
                        #[trigger] records(bs@)[j],
                        Ok::<D, String>(values@[j]),
                    ),
            decreases spans@.len() - i,
        {
            let span = spans[i];
            let piece = &bs[span.0..span.1];
            proof {
                assert(cut(bs@, spans@)[i as int] == piece@);
            }
            match decode(piece) {
                Ok(v) => {
                    values.push(v);
                },
                Err(reason) => {
                    let line = copy_span(bs, span.0, span.1);
                    proof {
                        assert forall|j: int| 0 <= j < i implies accepts::<D, F>(
                            decode,
                            #[trigger] records(bs@)[j],
                        ) by {
                            assert(decodes(decode, records(bs@)[j], Ok::<D, String>(values@[j])));
                        }
                    }
                    return Err(DecodeError::Line { position: i, line, reason });
                },
            }
            i = i + 1;
        }
        if values.len() > self.max_values_len {
            self.max_values_len = values.len();
        }
        Ok(values)
    }
}

/// One turn of a decode worker on what the reader sent for a block. A block
/// is decoded; an error of the reader is passed on as it is. The flag tells
/// whether the worker goes on: after an error it takes no further block.
pub fn parse<D, F: Fn(&[u8]) -> Result<D, String>>(
    parser: &mut ChunkParser,
    input: Result<Vec<u8>, DecodeError>,
    decode: &F,
) -> (out: (Result<Vec<D>, DecodeError>, bool))
    requires
        forall|b: &[u8]| call_requires(decode, (b,)),
    ensures
        out.1 == out.0.is_ok(),
        match input {
            Ok(bs) => block_outcome(decode, bs@, out.0),
            Err(e) => out.0 == Err::<Vec<D>, DecodeError>(e) && final(parser).max_values_len()
                == old(parser).max_values_len(),
        },
{
    match input {
        Ok(bs) => {
            let r = parser.parse_chunk(bs.as_slice(), decode);
            let go = r.is_ok();
            (r, go)
        },
        Err(e) => (Err(e), false),
    }
}

/// What the input reader does next.
#[derive(Debug)]
pub enum ReadAction {
    /// Read up to so many bytes from the input and feed them.
    Fetch(usize),
    /// Send this block, under this index, to the workers.
    Send(usize, Vec<u8>),
    /// The input has been sent whole: close the queue.
    Stop,
}

/// The choices of the thread that reads the input: it numbers the blocks in
/// the order in which they are cut and reports the bytes of each block to the
/// progress sink once the block is final.
pub struct InputReader<P: Progress> {
    chunks: ChunkReader,
    progress: P,
    index: usize,
}

impl<P: Progress> InputReader<P> {
    /// The state of the cutting.
    pub closed spec fn chunks(&self) -> ChunkReader {
        self.chunks
    }

    /// The index that the next block gets.
    pub closed spec fn index(&self) -> nat {
        self.index as nat
    }

    /// A reader at the start of its input: the first block gets index 0.
    pub fn new(chunk_size: usize, progress: P) -> (r: InputReader<P>)
        ensures
            r.index() == 0,
            r.chunks().wf(),
            r.chunks().chunk_size() == chunk_size,
            r.chunks().held() == Seq::<u8>::empty(),
            !r.chunks().exhausted(),
    {
        InputReader { chunks: ChunkReader::new(chunk_size), progress, index: 0 }
    }

    /// The index that the next block gets.
    pub fn next_index(&self) -> (r: usize)
        ensures
            r == self.index(),
    {
        self.index
    }

    /// Takes what a read of the input gave; an empty `data` is its end.
    pub fn feed(&mut self, data: &[u8])
        requires
            old(self).chunks().wf(),
            old(self).chunks().held().len() + data@.len() <= old(self).chunks().chunk_size(),
        ensures
            final(self).index() == old(self).index(),
            final(self).chunks().wf(),
            final(self).chunks().chunk_size() == old(self).chunks().chunk_size(),
            final(self).chunks().held() == old(self).chunks().held() + data@,
            final(self).chunks().exhausted() == (old(self).chunks().exhausted() || data@.len()
                == 0),
    {
        self.chunks.feed(data);
    }

    /// The next step of the reader. A block that the cutting gives is sent
    /// under the next index, which then moves on by one, and its length is
    /// reported as progress; bytes still held for the next block are not.
    pub fn read(&mut self) -> (action: ReadAction)
        requires
            old(self).chunks().wf(),
            old(self).index() < usize::MAX,
        ensures
            final(self).chunks().wf(),
            final(self).chunks().chunk_size() == old(self).chunks().chunk_size(),
            final(self).chunks().exhausted() == old(self).chunks().exhausted(),
            match action {
                ReadAction::Fetch(n) => {
                    &&& !old(self).chunks().exhausted()
                    &&& old(self).chunks().held().len() < old(self).chunks().chunk_size()
                    &&& n == old(self).chunks().chunk_size() - old(self).chunks().held().len()
                    &&& final(self).chunks().held() == old(self).chunks().held()
                    &&& final(self).index() == old(self).index()
                },
                ReadAction::Send(idx, block) => {
                    &&& idx == old(self).index()
                    &&& final(self).index() == old(self).index() + 1
                    &&& block@.len() > 0
                    &&& old(self).chunks().held() == block@ + final(self).chunks().held()
                    &&& if old(self).chunks().exhausted() {
                        final(self).chunks().held().len() == 0
                    } else {
                        &&& old(self).chunks().held().len() == old(self).chunks().chunk_size()
                        &&& block@.len() == block_len(old(self).chunks().held())
                    }
                },
                ReadAction::Stop => {
                    &&& old(self).chunks().held().len() == 0
                    &&& old(self).chunks().exhausted() || old(self).chunks().chunk_size() == 0
                    &&& final(self).chunks().held() == old(self).chunks().held()
                    &&& final(self).index() == old(self).index()
                },
            },
    {
        match self.chunks.read_chunk() {
            ChunkStep::Need(n) => ReadAction::Fetch(n),
            ChunkStep::Chunk(block) => {
                proof {
                    let held = old(self).chunks.held();
                    lemma_cut_point(held);
                    assert(held =~= block@ + self.chunks.held());
                }
                self.progress.inc(block.len());
                let idx = self.index;
                self.index = self.index + 1;
                ReadAction::Send(idx, block)
            },
            ChunkStep::Done => ReadAction::Stop,
        }
    }

    /// The message that an error of the input becomes: it goes to the
    /// workers under the index of the block that was being made.
    pub fn fail(&self, reason: String) -> (out: (usize, DecodeError))
        ensures
            out.0 == self.index(),
            out.1 == DecodeError::Io(reason),
    {
        (self.index, DecodeError::Io(reason))
    }
}

/// The number of logical processors of this machine.
///
/// Trusted: calls `num_cpus::get`, whose documentation promises a number of
/// at least one and nothing else that holds on every machine.
#[verifier::external_body]
fn cpu_count() -> (n: usize)
    ensures
        n >= 1,
{
    num_cpus::get()
}

/// The number of decode workers: the number asked for where one is, else two
/// for each of the `cpus` processors, as many as the machine can count.
pub fn worker_count(setting: Option<usize>, cpus: usize) -> (n: usize)
    ensures
        n == match setting {
            Some(k) => k as int,
            None => if 2 * cpus <= usize::MAX {
                2 * cpus
            } else {
                usize::MAX as int
            },
        },
{
    match setting {
        Some(k) => k,
        None => if cpus <= usize::MAX / 2 {
            2 * cpus
        } else {
            usize::MAX
        },
    }
}

/// The number of decode workers on this machine: the number asked for where
/// one is, else one that follows from the processors found, which is at
/// least two.
pub fn get_worker_cnt(setting: Option<usize>) -> (n: usize)
    ensures
        match setting {
            Some(k) => n == k,
            None => n >= 2,
        },
{
    worker_count(setting, cpu_count())
}

/// What the caller of the decoder gets for one pull.
#[derive(Debug)]
pub enum Pull<D> {
    /// The next record.
    Entry(D),
    /// No record is at hand: receive the next message of the collector and
    /// hand it over.
    Wait,
    /// The stream has ended.
    End,
}

/// The consumer's end of the pipeline: it hands out the records of the
/// batches that the collector sent, one at a time, and ends for good at the
/// first error or when the collector's queue is closed.
pub struct ParallelDecoder<D> {
    reading: VecDeque<D>,
    ended: bool,
}

impl<D> ParallelDecoder<D> {
    /// The records at hand, the next one first.
    pub closed spec fn reading(&self) -> Seq<D> {
        self.reading@
    }

    /// Whether the stream has ended.
    pub closed spec fn ended(&self) -> bool {
        self.ended
    }

    /// A decoder with no record at hand, whose stream has not ended.
    pub fn start() -> (r: ParallelDecoder<D>)
        ensures
            r.reading() == Seq::<D>::empty(),
            !r.ended(),
    {
        ParallelDecoder { reading: VecDeque::new(), ended: false }
    }

    /// The next record at hand, if there is one; else whether to wait for
    /// the collector or the stream has ended.
    pub fn read_entry(&mut self) -> (pull: Pull<D>)
        ensures
            final(self).ended() == old(self).ended(),
            match pull {
                Pull::Entry(v) => old(self).reading().len() > 0 && v == old(self).reading()[0]
                    && final(self).reading() == old(self).reading().drop_first(),
                Pull::Wait => old(self).reading().len() == 0 && !old(self).ended() && final(self).reading() == old(self).reading(),
                Pull::End => old(self).reading().len() == 0 && old(self).ended() && final(self).reading() == old(self).reading(),
            },
    {
        match self.reading.pop_front() {
            Some(v) => {
                proof {
                    assert(self.reading@ =~= old(self).reading@.drop_first());
                }
                Pull::Entry(v)
            },
            None => if self.ended {
                Pull::End
            } else {
                Pull::Wait
            },
        }
    }

    /// Takes the message that the collector's queue gave: a batch joins the
    /// records at hand, behind them; an error is handed on and ends the
    /// stream; `None`, the closed queue, ends it too. A stream that has ended
    /// takes nothing more in.
    pub fn receive(&mut self, message: Option<Result<Vec<D>, DecodeError>>) -> (r: Result<
        (),
        DecodeError,
    >)
        ensures
            if old(self).ended() {
                r.is_ok() && final(self).ended() && final(self).reading() == old(self).reading()
            } else {
                match message {
                    Some(Ok(batch)) => r.is_ok() && !final(self).ended() && final(self).reading()
                        == old(self).reading() + batch@,
                    Some(Err(e)) => r == Err::<(), DecodeError>(e) && final(self).ended()
                        && final(self).reading() == old(self).reading(),
                    None => r.is_ok() && final(self).ended() && final(self).reading() == old(self).reading(),
                }
            },
    {
        if self.ended {
            return Ok(());
        }
        match message {
            Some(Ok(batch)) => {
                let mut batch = batch;
                let ghost all = batch@;
                let ghost before = self.reading@;
                let n: usize = self.reading.len();
                proof {
                    assert(before + all.subrange(0, 0) =~= before);
                }
                while batch.len() > 0
                    invariant
                        self.ended == old(self).ended,
                        n == before.len(),
                        batch@.len() <= all.len(),
                        batch@ == all.subrange(0, batch@.len() as int),
                        self.reading@ == before + all.subrange(
                            batch@.len() as int,
                            all.len() as int,
                        ),
                    decreases batch@.len(),
                {
                    let ghost m = batch@.len() as int;
                    let ghost q = self.reading@;
                    let v = batch.pop().unwrap();
                    self.reading.insert(n, v);
                    proof {
                        assert(batch@ =~= all.subrange(0, m - 1));
                        assert(self.reading@ =~= before + all.subrange(m - 1, all.len() as int));
                    }
                }
                proof {
                    assert(all.subrange(0, all.len() as int) =~= all);
                }
                Ok(())
            },
            Some(Err(e)) => {
                self.ended = true;
                Err(e)
            },
            None => {
                self.ended = true;
                Ok(())
            },
        }
    }
}

} // verus!
