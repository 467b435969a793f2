//! Byte sources: the read capability a drain run consumes, and two verified
//! in-memory endpoints — a raw one and a buffering wrapper — mirroring the two
//! read strategies under comparison.

use vstd::prelude::*;

verus! {

/// How many bytes the buffering wrapper fetches from its inner source at once.
pub const CACHE_BYTES: usize = 8192;

/// A connection endpoint seen from the reading side: a bounded stream of
/// pending bytes that a read call consumes from the front.
///
/// `read_window(buf, start, len)` attempts one read into the window
/// `buf[start .. start + len]` and returns how many bytes it delivered. A
/// return of zero with a non-empty window means the stream is exhausted; a
/// read blocks conceptually until it can deliver at least one byte, so a
/// non-empty window over a non-empty stream always delivers something.
pub trait ByteSource: Sized {
    /// Well-formedness of the endpoint.
    spec fn inv(&self) -> bool;

    /// The bytes not yet delivered, in the order they will arrive.
    spec fn pending(&self) -> Seq<u8>;

    /// One read into `buf[start .. start + len]`; returns the delivered count.
    fn read_window(&mut self, buf: &mut Vec<u8>, start: usize, len: usize) -> (n: usize)
        requires
            old(self).inv(),
            start + len <= old(buf)@.len(),
        ensures
            final(self).inv(),
            n <= len,
            n <= old(self).pending().len(),
            len > 0 && old(self).pending().len() > 0 ==> n > 0,
            final(self).pending() == old(self).pending().skip(n as int),
            final(buf)@.len() == old(buf)@.len(),
            forall|i: int| 0 <= i < n ==> final(buf)@[start + i] == old(self).pending()[i],
            forall|i: int|
                0 <= i < old(buf)@.len() && !(start <= i < start + n) ==> final(buf)@[i] == old(
                    buf,
                )@[i],
    ;
}

/// A fresh, zero-filled buffer of length `n` — the drain buffer a run owns.
pub fn zero_vec(n: usize) -> (v: Vec<u8>)
    ensures
        v@.len() == n,
        forall|i: int| 0 <= i < n ==> v@[i] == 0u8,
{
    let mut v: Vec<u8> = Vec::with_capacity(n);
    let mut i: usize = 0;
    while i < n
        invariant
            i <= n,
            v@.len() == i,
            forall|j: int| 0 <= j < i ==> v@[j] == 0u8,
        decreases n - i,
    {
        v.push(0u8);
        i = i + 1;
    }
    v
}

/// The raw strategy's endpoint: a fixed byte sequence delivered in order,
/// as many bytes per read as the window allows.
pub struct MemorySource {
    data: Vec<u8>,
    pos: usize,
}

impl MemorySource {
    /// An endpoint that will deliver exactly `data`, then end.
    pub fn new(data: Vec<u8>) -> (s: MemorySource)
        ensures
            s.inv(),
            s.pending() == data@,
    {
        let s = MemorySource { data, pos: 0 };
        proof {
            assert(s.pending() =~= s.data@);
        }
        s
    }
}

impl ByteSource for MemorySource {
    closed spec fn inv(&self) -> bool {
        self.pos <= self.data@.len()
    }

    closed spec fn pending(&self) -> Seq<u8> {
        self.data@.skip(self.pos as int)
    }

    fn read_window(&mut self, buf: &mut Vec<u8>, start: usize, len: usize) -> (n: usize) {
        let avail = self.data.len() - self.pos;
        let m = if len < avail {
            len
        } else {
            avail
        };
        let buf_len: usize = buf.len();
        let data_len: usize = self.data.len();
        let mut i: usize = 0;
        while i < m
            invariant
                i <= m,
                self.data@.len() == data_len,
                m + self.pos <= data_len,
                start + m <= buf_len,
                buf@.len() == buf_len,
                buf@.len() == old(buf)@.len(),
                self == old(self),
                forall|j: int|
                    start <= j < start + i ==> buf@[j] == self.data@[self.pos + (j - start)],
                forall|j: int|
                    0 <= j < buf@.len() && !(start <= j < start + i) ==> buf@[j] == old(buf)@[j],
            decreases m - i,
        {
            let b = self.data[self.pos + i];
            buf.set(start + i, b);
            i = i + 1;
        }
        let ghost before = *self;
        self.pos = self.pos + m;
        proof {
            assert(self.pending() =~= before.pending().skip(m as int));
            assert forall|j: int| 0 <= j < m implies buf@[start + j] == before.pending()[j] by {
                assert(buf@[start + j] == before.data@[before.pos + j]);
            }
        }
        m
    }
}

/// The buffered strategy's endpoint: a wrapper over any byte source that
/// fetches larger chunks into an internal cache and serves small read windows
/// from it, amortizing the per-read cost.
pub struct BufferedSource<S: ByteSource> {
    inner: S,
    cache: Vec<u8>,
    cache_pos: usize,
}

impl<S: ByteSource> BufferedSource<S> {
    /// Wrap an endpoint; the pending bytes are unchanged by wrapping.
    pub fn new(inner: S) -> (s: BufferedSource<S>)
        requires
            inner.inv(),
        ensures
            s.inv(),
            s.pending() == inner.pending(),
    {
        let s = BufferedSource { inner, cache: Vec::new(), cache_pos: 0 };
        proof {
            assert(s.pending() =~= s.inner.pending());
        }
        s
    }
}

impl<S: ByteSource> ByteSource for BufferedSource<S> {
    closed spec fn inv(&self) -> bool {
        self.inner.inv() && self.cache_pos <= self.cache@.len()
    }

    closed spec fn pending(&self) -> Seq<u8> {
        self.cache@.skip(self.cache_pos as int) + self.inner.pending()
    }

    fn read_window(&mut self, buf: &mut Vec<u8>, start: usize, len: usize) -> (n: usize) {
        if len == 0 {
            proof {
                assert(self.pending() =~= self.pending().skip(0));
            }
            return 0;
        }
        if self.cache_pos == self.cache.len() {
            let ghost before_fill = *self;
            let mut chunk = zero_vec(CACHE_BYTES);
            let got = self.inner.read_window(&mut chunk, 0, CACHE_BYTES);
            chunk.truncate(got);
            self.cache = chunk;
            self.cache_pos = 0;
            proof {
                assert(self.pending() =~= before_fill.pending());
            }
        }
        let ghost pre = *self;
        let avail = self.cache.len() - self.cache_pos;
        let m = if len < avail {
            len
        } else {
            avail
        };
        let buf_len: usize = buf.len();
        let cache_len: usize = self.cache.len();
        let mut i: usize = 0;
        while i < m
            invariant
                i <= m,
                self.cache@.len() == cache_len,
                m + self.cache_pos <= cache_len,
                start + m <= buf_len,
                buf@.len() == buf_len,
                buf@.len() == old(buf)@.len(),
                *self == pre,
                forall|j: int|
                    start <= j < start + i ==> buf@[j] == self.cache@[self.cache_pos + (j - start)],
                forall|j: int|
                    0 <= j < buf@.len() && !(start <= j < start + i) ==> buf@[j] == old(buf)@[j],
            decreases m - i,
        {
            let b = self.cache[self.cache_pos + i];
            buf.set(start + i, b);
            i = i + 1;
        }
        self.cache_pos = self.cache_pos + m;
        proof {
            assert(self.pending() =~= pre.pending().skip(m as int));
            assert forall|j: int| 0 <= j < m implies buf@[start + j] == pre.pending()[j] by {
                assert(buf@[start + j] == pre.cache@[pre.cache_pos + j]);
            }
        }
        m
    }
}

} // verus!
