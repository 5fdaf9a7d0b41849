use vstd::prelude::*;

use std::collections::VecDeque;

verus! {

/// Which elementary stream a unit or chunk belongs to.
#[derive(Debug, Clone, Copy, PartialEq, Eq, Structural)]
pub enum StreamTag {
    Video,
    Audio,
}

/// Encoder output: a payload with its presentation time and length, in microseconds.
pub struct EncodedChunk {
    pub pts_us: u64,
    pub duration_us: u64,
    pub stream: StreamTag,
    pub data: Vec<u8>,
}

pub struct ChunkView {
    pub pts: u64,
    pub duration: u64,
    pub stream: StreamTag,
    pub data: Seq<u8>,
}

impl View for EncodedChunk {
    type V = ChunkView;

    open spec fn view(&self) -> ChunkView {
        ChunkView { pts: self.pts_us, duration: self.duration_us, stream: self.stream, data: self.data@ }
    }
}

/// The moment a chunk stops playing.
pub open spec fn chunk_end(c: ChunkView) -> int {
    c.pts + c.duration
}

/// Time from the start of the oldest chunk to the end of the newest one.
pub open spec fn span(s: Seq<ChunkView>) -> int {
    if s.len() == 0 {
        0
    } else {
        chunk_end(s.last()) - s[0].pts
    }
}

pub open spec fn chunk_views(s: Seq<EncodedChunk>) -> Seq<ChunkView> {
    s.map_values(|c: EncodedChunk| c@)
}

impl EncodedChunk {
    /// A copy with the same timing, tag and payload.
    pub fn duplicate(&self) -> (r: EncodedChunk)
        ensures
            r@ == self@,
    {
        let data = self.data.clone();
        proof {
            assert(data@ =~= self.data@);
        }
        EncodedChunk { pts_us: self.pts_us, duration_us: self.duration_us, stream: self.stream, data }
    }
}

/// A FIFO of recent chunks whose span never exceeds a fixed window.
pub struct ReplayBuffer {
    chunks: VecDeque<EncodedChunk>,
    window_us: u64,
}

impl ReplayBuffer {
    /// The buffered chunks, oldest first.
    pub closed spec fn contents(&self) -> Seq<ChunkView> {
        chunk_views(self.chunks@)
    }

    /// The configured window, in microseconds.
    pub closed spec fn window(&self) -> nat {
        self.window_us as nat
    }

    /// The ring invariant: what is buffered spans no more than the window.
    pub open spec fn well_formed(&self) -> bool {
        span(self.contents()) <= self.window()
    }

    pub fn new(window_us: u64) -> (r: Self)
        ensures
            r.well_formed(),
            r.window() == window_us,
            r.contents() == Seq::<ChunkView>::empty(),
    {
        let r = ReplayBuffer { chunks: VecDeque::new(), window_us };
        proof {
            assert(r.contents() =~= Seq::<ChunkView>::empty());
        }
        r
    }

    pub fn len(&self) -> (r: usize)
        ensures
            r == self.contents().len(),
    {
        self.chunks.len()
    }

    pub fn window_us(&self) -> (r: u64)
        ensures
            r == self.window(),
    {
        self.window_us
    }

    /// Whether the span of the buffered chunks is over the window.
    fn over_window(&self) -> (r: bool)
        ensures
            r == (span(self.contents()) > self.window()),
    {
        let n = self.chunks.len();
        if n == 0 {
            false
        } else {
            let first = self.chunks[0].pts_us as u128;
            let last = &self.chunks[n - 1];
            (last.pts_us as u128) + (last.duration_us as u128) > first + (self.window_us as u128)
        }
    }

    /// Appends a chunk and evicts from the front, oldest first, exactly as many
    /// chunks as needed to bring the span back within the window. Returns how
    /// many were evicted.
    pub fn append(&mut self, chunk: EncodedChunk) -> (evicted: usize)
        ensures
            final(self).window() == old(self).window(),
            final(self).well_formed(),
            evicted <= old(self).contents().len() + 1,
            final(self).contents() == old(self).contents().push(chunk@).skip(evicted as int),
            evicted > 0 ==> span(old(self).contents().push(chunk@).skip(evicted - 1)) > old(
                self,
            ).window(),
    {
        let ghost all = old(self).contents().push(chunk@);
        self.chunks.push_back(chunk);
        let _total = self.chunks.len();
        let mut evicted: usize = 0;
        proof {
            assert(self.contents() =~= all);
            assert(all.skip(0) =~= all);
        }
        while self.over_window()
            invariant
                self.window() == old(self).window(),
                all.len() == old(self).contents().len() + 1,
                all.len() <= usize::MAX,
                evicted <= all.len(),
                self.contents() == all.skip(evicted as int),
                evicted > 0 ==> span(all.skip(evicted - 1)) > self.window(),
            decreases all.len() - evicted,
        {
            let ghost before = self.chunks@;
            proof {
                assert(self.contents().len() > 0);
                assert(self.contents().len() == all.len() - evicted);
            }
            let _ = self.chunks.pop_front();
            evicted = evicted + 1;
            proof {
                assert forall|j: int| 0 <= j < self.chunks@.len() implies #[trigger] self.chunks@[j]@
                    == all.skip(evicted as int)[j] by {
                    assert(self.chunks@[j] == before[j + 1]);
                    assert(chunk_views(before)[j + 1] == before[j + 1]@);
                }
                assert(self.contents() =~= all.skip(evicted as int));
            }
        }
        evicted
    }

    /// A copy of the buffered chunks, oldest first.
    pub fn snapshot(&self) -> (r: Vec<EncodedChunk>)
        ensures
            chunk_views(r@) == self.contents(),
    {
        let mut r: Vec<EncodedChunk> = Vec::new();
        let n = self.chunks.len();
        let mut i: usize = 0;
        while i < n
            invariant
                n == self.chunks@.len(),
                i <= n,
                r@.len() == i,
                chunk_views(r@) == chunk_views(self.chunks@.take(i as int)),
            decreases n - i,
        {
            let ghost old_r = r@;
            let c = self.chunks[i].duplicate();
            r.push(c);
            i = i + 1;
            proof {
                assert forall|j: int| 0 <= j < i implies #[trigger] chunk_views(r@)[j]
                    == chunk_views(self.chunks@.take(i as int))[j] by {
                    if j < i - 1 {
                        assert(r@[j] == old_r[j]);
                        assert(chunk_views(old_r)[j] == chunk_views(self.chunks@.take(i - 1))[j]);
                    }
                }
                assert(chunk_views(r@) =~= chunk_views(self.chunks@.take(i as int)));
            }
        }
        proof {
            assert(self.chunks@.take(n as int) =~= self.chunks@);
        }
        r
    }
}

} // verus!
