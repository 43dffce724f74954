use vstd::prelude::*;
use crate::is_barcode;

verus! {

/// The bytes that trimming removes from both ends of a segment: ASCII
/// whitespace, the byte range the serial device can emit around a frame.
pub open spec fn is_space(b: u8) -> bool {
    b == 32 || (9 <= b && b <= 13)
}

/// A segment with its leading whitespace removed.
pub open spec fn trim_front(s: Seq<u8>) -> Seq<u8>
    decreases s.len(),
{
    if s.len() > 0 && is_space(s[0]) {
        trim_front(s.drop_first())
    } else {
        s
    }
}

/// A segment with its trailing whitespace removed.
pub open spec fn trim_back(s: Seq<u8>) -> Seq<u8>
    decreases s.len(),
{
    if s.len() > 0 && is_space(s.last()) {
        trim_back(s.drop_last())
    } else {
        s
    }
}

/// A segment with surrounding whitespace removed from both ends.
pub open spec fn trim(s: Seq<u8>) -> Seq<u8> {
    trim_back(trim_front(s))
}

/// The segments of a byte stream split on newline bytes: a stream without
/// a newline is a single segment, and every newline byte ends the segment
/// before it and opens a new one, so there is always one segment more than
/// there are newlines.
pub open spec fn segments(s: Seq<u8>) -> Seq<Seq<u8>>
    decreases s.len(),
{
    if s.len() == 0 {
        seq![Seq::<u8>::empty()]
    } else if s.last() == 10 {
        segments(s.drop_last()).push(Seq::<u8>::empty())
    } else {
        let rest = segments(s.drop_last());
        rest.update(rest.len() - 1, rest.last().push(s.last()))
    }
}

/// The tokens that a flush of the given segments emits, in order: each
/// segment trimmed, kept only when the trimmed length is exactly the
/// barcode length. Everything else — empty segments and partial or
/// overlong noise — is discarded.
pub open spec fn tokens_of_segments(segs: Seq<Seq<u8>>) -> Seq<Seq<u8>>
    decreases segs.len(),
{
    if segs.len() == 0 {
        Seq::<Seq<u8>>::empty()
    } else {
        let rest = tokens_of_segments(segs.drop_last());
        let t = trim(segs.last());
        if is_barcode(t) {
            rest.push(t)
        } else {
            rest
        }
    }
}

/// The candidate barcodes framed out of a flushed buffer.
pub open spec fn framed_tokens(s: Seq<u8>) -> Seq<Seq<u8>> {
    tokens_of_segments(segments(s))
}

/// A buffer is flushed as soon as it holds a newline byte or at least as
/// many bytes as one barcode, whichever comes first.
pub open spec fn flush_due(s: Seq<u8>) -> bool {
    s.contains(10) || s.len() >= 18
}

/// Removes surrounding ASCII whitespace from a segment.
fn trim_bytes(v: &Vec<u8>) -> (r: Vec<u8>)
    ensures
        r@ == trim(v@),
{
    let n = v.len();
    proof {
        assert(v@.skip(0) =~= v@);
    }
    let mut lo: usize = 0;
    while lo < n && (v[lo] == 32 || (9 <= v[lo] && v[lo] <= 13))
        invariant
            n == v@.len(),
            0 <= lo <= n,
            trim_front(v@) == trim_front(v@.skip(lo as int)),
        decreases n - lo,
    {
        proof {
            assert(v@.skip(lo as int).drop_first() =~= v@.skip(lo as int + 1));
            assert(trim_front(v@.skip(lo as int)) == trim_front(v@.skip(lo as int + 1)));
        }
        lo = lo + 1;
    }
    proof {
        if lo == n {
            assert(v@.skip(lo as int) =~= Seq::<u8>::empty());
        }
        assert(trim_front(v@) == v@.skip(lo as int));
        assert(v@.skip(lo as int) =~= v@.subrange(lo as int, n as int));
    }
    let mut hi: usize = n;
    while hi > lo && (v[hi - 1] == 32 || (9 <= v[hi - 1] && v[hi - 1] <= 13))
        invariant
            n == v@.len(),
            0 <= lo <= hi <= n,
            trim(v@) == trim_back(v@.subrange(lo as int, hi as int)),
        decreases hi,
    {
        proof {
            let sub = v@.subrange(lo as int, hi as int);
            assert(sub.last() == v@[hi as int - 1]);
            assert(sub.drop_last() =~= v@.subrange(lo as int, hi as int - 1));
            assert(trim_back(sub) == trim_back(v@.subrange(lo as int, hi as int - 1)));
        }
        hi = hi - 1;
    }
    proof {
        if hi == lo {
            assert(v@.subrange(lo as int, hi as int) =~= Seq::<u8>::empty());
        }
        assert(trim(v@) == v@.subrange(lo as int, hi as int));
    }
    let mut r: Vec<u8> = Vec::new();
    let mut j: usize = lo;
    while j < hi
        invariant
            n == v@.len(),
            lo <= j <= hi <= n,
            r@ == v@.subrange(lo as int, j as int),
        decreases hi - j,
    {
        r.push(v[j]);
        proof {
            assert(v@.subrange(lo as int, j as int + 1) =~= v@.subrange(lo as int, j as int).push(
                v@[j as int],
            ));
        }
        j = j + 1;
    }
    r
}

/// Reports whether a buffer is due for a flush.
fn flush_due_now(buf: &Vec<u8>) -> (r: bool)
    ensures
        r == flush_due(buf@),
{
    if buf.len() >= 18 {
        return true;
    }
    let n = buf.len();
    let mut i: usize = 0;
    while i < n
        invariant
            n == buf@.len(),
            0 <= i <= n,
            forall|k: int| 0 <= k < i ==> buf@[k] != 10,
        decreases n - i,
    {
        if buf[i] == 10 {
            proof {
                assert(buf@.contains(10)) by {
                    assert(buf@[i as int] == 10);
                }
            }
            return true;
        }
        i = i + 1;
    }
    proof {
        assert(!buf@.contains(10)) by {
            if buf@.contains(10) {
                let j = choose|j: int| 0 <= j < buf@.len() && buf@[j] == 10;
                assert(false);
            }
        }
    }
    false
}

/// Splits a flushed buffer on newline bytes and emits every segment whose
/// trimmed length is exactly the barcode length, in the order the segments
/// stand in the buffer.
fn extract_tokens(buf: &Vec<u8>) -> (tokens: Vec<Vec<u8>>)
    ensures
        tokens.deep_view() == framed_tokens(buf@),
{
    let n = buf.len();
    let mut tokens: Vec<Vec<u8>> = Vec::new();
    let mut cur: Vec<u8> = Vec::new();
    let ghost mut segs: Seq<Seq<u8>> = Seq::<Seq<u8>>::empty();
    proof {
        assert(buf@.take(0) =~= Seq::<u8>::empty());
        assert(segs + seq![cur@] =~= seq![cur@]);
        assert(tokens.deep_view() =~= Seq::<Seq<u8>>::empty());
    }
    let mut i: usize = 0;
    while i < n
        invariant
            n == buf@.len(),
            0 <= i <= n,
            segments(buf@.take(i as int)) == segs + seq![cur@],
            tokens.deep_view() == tokens_of_segments(segs),
        decreases n - i,
    {
        let b = buf[i];
        proof {
            let post = buf@.take(i as int + 1);
            assert(post.drop_last() =~= buf@.take(i as int));
            assert(post.last() == buf@[i as int]);
        }
        if b == 10 {
            let t = trim_bytes(&cur);
            let ghost dv0 = tokens.deep_view();
            let ghost tv = t@;
            if t.len() == 18 {
                tokens.push(t);
                proof {
                    assert(tokens.deep_view() =~~= dv0.push(tv));
                }
            }
            proof {
                assert(segs.push(cur@).drop_last() =~= segs);
                assert(tokens_of_segments(segs.push(cur@)) == if is_barcode(trim(cur@)) {
                    tokens_of_segments(segs).push(trim(cur@))
                } else {
                    tokens_of_segments(segs)
                });
                assert((segs + seq![cur@]).push(Seq::<u8>::empty()) =~= segs.push(cur@) + seq![
                    Seq::<u8>::empty(),
                ]);
                segs = segs.push(cur@);
            }
            cur = Vec::new();
        } else {
            proof {
                let rest = segs + seq![cur@];
                assert(rest.last() == cur@);
                assert(rest.update(rest.len() - 1, cur@.push(b)) =~= segs + seq![cur@.push(b)]);
            }
            cur.push(b);
        }
        i = i + 1;
    }
    proof {
        assert(buf@.take(n as int) =~= buf@);
    }
    let t = trim_bytes(&cur);
    let ghost dv0 = tokens.deep_view();
    let ghost tv = t@;
    if t.len() == 18 {
        tokens.push(t);
        proof {
            assert(tokens.deep_view() =~~= dv0.push(tv));
        }
    }
    proof {
        assert(segs.push(cur@).drop_last() =~= segs);
        assert(segs + seq![cur@] =~= segs.push(cur@));
        assert(tokens_of_segments(segs.push(cur@)) == if is_barcode(trim(cur@)) {
            tokens_of_segments(segs).push(trim(cur@))
        } else {
            tokens_of_segments(segs)
        });
    }
    tokens
}

/// The serial framer: accumulates raw bytes read from the hardware link
/// and emits complete candidate barcodes.
///
/// Bytes pile up in a private buffer until the buffer holds a newline or
/// reaches the barcode length. A flush then splits the buffer on newlines,
/// trims each segment, emits exactly the segments of barcode length, and
/// clears the buffer entirely: partial frames are never carried over to
/// the next flush.
pub struct Framer {
    buf: Vec<u8>,
}

impl Framer {
    /// The bytes currently accumulated between reads.
    pub closed spec fn buffered(&self) -> Seq<u8> {
        self.buf@
    }

    /// Between calls the buffer never holds a complete frame: no newline
    /// byte and fewer bytes than one barcode.
    pub open spec fn wf(&self) -> bool {
        !flush_due(self.buffered())
    }

    /// Creates the framer a fresh read session starts with.
    pub fn new() -> (r: Framer)
        ensures
            r.wf(),
            r.buffered() == Seq::<u8>::empty(),
    {
        let r = Framer { buf: Vec::new() };
        proof {
            assert(!r.buf@.contains(10)) by {
                if r.buf@.contains(10) {
                    let j = choose|j: int| 0 <= j < r.buf@.len() && r.buf@[j] == 10;
                    assert(false);
                }
            }
        }
        r
    }

    /// Consumes the bytes of one successful read.
    ///
    /// The chunk is appended to the buffer. If the grown buffer is due for
    /// a flush, the framed candidate barcodes are returned and the buffer
    /// is cleared; otherwise nothing is emitted and the buffer keeps the
    /// accumulated bytes. A read of zero bytes is a no-op.
    pub fn push_bytes(&mut self, chunk: &Vec<u8>) -> (tokens: Vec<Vec<u8>>)
        requires
            old(self).wf(),
        ensures
            final(self).wf(),
            flush_due(old(self).buffered() + chunk@) ==> final(self).buffered() == Seq::<
                u8,
            >::empty() && tokens.deep_view() == framed_tokens(old(self).buffered() + chunk@),
            !flush_due(old(self).buffered() + chunk@) ==> final(self).buffered() == old(
                self,
            ).buffered() + chunk@ && tokens.deep_view() == Seq::<Seq<u8>>::empty(),
    {
        let m = chunk.len();
        proof {
            assert(old(self).buf@ + chunk@.take(0) =~= old(self).buf@);
        }
        let mut i: usize = 0;
        while i < m
            invariant
                m == chunk@.len(),
                0 <= i <= m,
                self.buf@ == old(self).buf@ + chunk@.take(i as int),
            decreases m - i,
        {
            self.buf.push(chunk[i]);
            proof {
                assert(old(self).buf@ + chunk@.take(i as int + 1) =~= (old(self).buf@
                    + chunk@.take(i as int)).push(chunk@[i as int]));
            }
            i = i + 1;
        }
        proof {
            assert(chunk@.take(m as int) =~= chunk@);
        }
        if flush_due_now(&self.buf) {
            let tokens = extract_tokens(&self.buf);
            self.buf.clear();
            proof {
                assert(!Seq::<u8>::empty().contains(10)) by {
                    if Seq::<u8>::empty().contains(10) {
                        let j = choose|j: int|
                            0 <= j < Seq::<u8>::empty().len() && Seq::<u8>::empty()[j] == 10;
                        assert(false);
                    }
                }
            }
            tokens
        } else {
            let tokens: Vec<Vec<u8>> = Vec::new();
            proof {
                assert(tokens.deep_view() =~= Seq::<Seq<u8>>::empty());
            }
            tokens
        }
    }
}

} // verus!
