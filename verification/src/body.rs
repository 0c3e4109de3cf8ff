//! Bodies read as streams of chunks: buffering between the chunks and the byte
//! slices a reader asks for, what each polled frame gives the stream, and size
//! hints.

use vstd::prelude::*;

verus! {

/// The bytes received from a body but not yet handed to the reader.
#[derive(Debug)]
pub struct BodyStore {
    store: Vec<u8>,
}

impl View for BodyStore {
    type V = Seq<u8>;

    closed spec fn view(&self) -> Seq<u8> {
        self.store@
    }
}

impl BodyStore {
    /// An empty store.
    pub fn new() -> (s: Self)
        ensures
            s@ == Seq::<u8>::empty(),
    {
        BodyStore { store: Vec::new() }
    }

    /// Whether no bytes are waiting.
    pub fn is_empty(&self) -> (b: bool)
        ensures
            b == (self@.len() == 0),
    {
        self.store.len() == 0
    }

    /// Appends a chunk received from the body.
    pub fn push_chunk(&mut self, chunk: &[u8])
        ensures
            final(self)@ == old(self)@ + chunk@,
    {
        let mut i: usize = 0;
        let n = chunk.len();
        let ghost start = self.store@;
        while i < n
            invariant
                n == chunk@.len(),
                i <= n,
                self.store@ == start + chunk@.take(i as int),
            decreases n - i,
        {
            self.store.push(chunk[i]);
            i = i + 1;
            proof {
                assert(chunk@.take(i as int) =~= chunk@.take(i - 1).push(chunk@[i - 1]));
            }
        }
        assert(chunk@.take(n as int) =~= chunk@);
    }

    /// Moves as many waiting bytes as fit into `buf`, oldest first, and returns
    /// how many were moved; the rest keep waiting.
    pub fn read_into(&mut self, buf: &mut [u8]) -> (size: usize)
        ensures
            size == if old(self)@.len() < old(buf)@.len() {
                old(self)@.len()
            } else {
                old(buf)@.len()
            },
            final(buf)@.len() == old(buf)@.len(),
            final(buf)@.take(size as int) == old(self)@.take(size as int),
            final(buf)@.skip(size as int) == old(buf)@.skip(size as int),
            final(self)@ == old(self)@.skip(size as int),
    {
        let size = if self.store.len() < buf.len() {
            self.store.len()
        } else {
            buf.len()
        };
        let ghost before = buf@;
        let mut i: usize = 0;
        while i < size
            invariant
                size <= self.store@.len(),
                size <= buf@.len(),
                buf@.len() == before.len(),
                i <= size,
                forall|j: int| 0 <= j < i ==> buf@[j] == self.store@[j],
                forall|j: int| i <= j < buf@.len() ==> buf@[j] == before[j],
            decreases size - i,
        {
            buf[i] = self.store[i];
            i = i + 1;
        }
        let ghost all = self.store@;
        let rest = self.store.split_off(size);
        self.store = rest;
        assert(buf@.take(size as int) =~= all.take(size as int));
        assert(buf@.skip(size as int) =~= before.skip(size as int));
        assert(self.store@ =~= all.skip(size as int));
        size
    }
}

/// Successive reads move the stored bytes out in the order they were pushed,
/// none lost or repeated: a read of `k1` bytes followed by a read of `k2` bytes
/// moves out the same bytes, and leaves the same rest, as one read of `k1 + k2`.
pub proof fn lemma_reads_in_order(stored: Seq<u8>, k1: int, k2: int)
    requires
        0 <= k1,
        0 <= k2,
        k1 + k2 <= stored.len(),
    ensures
        stored.take(k1) + stored.skip(k1).take(k2) == stored.take(k1 + k2),
        stored.skip(k1).skip(k2) == stored.skip(k1 + k2),
        stored.take(k1 + k2) + stored.skip(k1 + k2) == stored,
{
    assert(stored.take(k1) + stored.skip(k1).take(k2) =~= stored.take(k1 + k2));
    assert(stored.skip(k1).skip(k2) =~= stored.skip(k1 + k2));
    assert(stored.take(k1 + k2) + stored.skip(k1 + k2) =~= stored);
}

/// What polling a body for its next frame gave.
#[derive(Debug)]
pub enum FrameEvent<D> {
    /// No frame is ready yet.
    Pending,
    /// The body has no more frames.
    Finished,
    /// A frame of data.
    Data(D),
    /// A frame of trailers.
    Trailers,
    /// The body failed to produce a frame.
    Failed,
}

/// What a stream of body chunks yields for one poll.
#[derive(Debug, PartialEq, Eq)]
pub enum ChunkStep<D> {
    /// No chunk is ready yet.
    Pending,
    /// The stream has ended.
    Done,
    /// The next chunk.
    Chunk(D),
    /// The body failed; the stream yields an error.
    Failed,
}

/// The step a chunk stream takes for a polled frame: data frames are passed on,
/// trailers end the stream as the end of the body does, and a failed poll
/// yields an error.
pub fn chunk_step<D>(event: FrameEvent<D>) -> (s: ChunkStep<D>)
    ensures
        event is Pending ==> s is Pending,
        event is Finished ==> s is Done,
        event is Trailers ==> s is Done,
        event is Failed ==> s is Failed,
        event matches FrameEvent::Data(d) ==> s == ChunkStep::Chunk(d),
{
    match event {
        FrameEvent::Pending => ChunkStep::Pending,
        FrameEvent::Finished => ChunkStep::Done,
        FrameEvent::Data(d) => ChunkStep::Chunk(d),
        FrameEvent::Trailers => ChunkStep::Done,
        FrameEvent::Failed => ChunkStep::Failed,
    }
}

/// The message of the error a chunk stream yields when its body fails.
pub open spec fn polling_error_text() -> Seq<char> {
    "Error polling body"@
}

/// The error a chunk stream yields when its body fails.
pub fn polling_error() -> (e: crate::error::Error)
    ensures
        e matches crate::error::Error::RustError(m) && m@ == polling_error_text(),
{
    crate::error::Error::RustError("Error polling body".to_owned())
}

/// The size hint of a body read from a stream, as a lower bound and an optional
/// upper bound in bytes: the stream's own hint, or exactly zero when there is no
/// stream.
pub fn stream_size_hint(stream: Option<(usize, Option<usize>)>) -> (h: (u64, Option<u64>))
    ensures
        stream is None ==> h == (0u64, Some(0u64)),
        stream matches Some((lower, upper)) ==> h.0 == lower as u64 && match upper {
            Some(u) => h.1 == Some(u as u64),
            None => h.1 is None,
        },
{
    match stream {
        None => (0, Some(0)),
        Some((lower, upper)) => (
            lower as u64,
            match upper {
                Some(u) => Some(u as u64),
                None => None,
            },
        ),
    }
}

/// A body's size hint as a stream reports its length: both bounds cut to the
/// platform's word size.
pub fn frame_size_hint(lower: u64, upper: Option<u64>) -> (h: (usize, Option<usize>))
    ensures
        h.0 == lower as usize,
        match upper {
            Some(u) => h.1 == Some(u as usize),
            None => h.1 is None,
        },
{
    (
        lower as usize,
        match upper {
            Some(u) => Some(u as usize),
            None => None,
        },
    )
}

/// What one read of a body reader comes to.
#[derive(Debug, PartialEq, Eq)]
pub enum ReadOutcome {
    /// No bytes yet; the reader is woken when a chunk arrives.
    Pending,
    /// This many bytes were moved into the buffer; 0 at the end of the body.
    Read(usize),
    /// The body failed.
    Failed,
}

impl BodyStore {
    /// One read into `buf` when no bytes were waiting and the chunk stream was
    /// polled: a new chunk is stored and read from at once, the end of the body
    /// reads no bytes, and a pending or failed poll reads nothing and leaves the
    /// store as it was.
    pub fn read_step(&mut self, polled: ChunkStep<&[u8]>, buf: &mut [u8]) -> (o: ReadOutcome)
        ensures
            polled is Pending ==> o == ReadOutcome::Pending && final(self)@ == old(self)@
                && final(buf)@ == old(buf)@,
            polled is Done ==> o == ReadOutcome::Read(0) && final(self)@ == old(self)@
                && final(buf)@ == old(buf)@,
            polled is Failed ==> o == ReadOutcome::Failed && final(self)@ == old(self)@
                && final(buf)@ == old(buf)@,
            polled matches ChunkStep::Chunk(c) ==> ({
                let all = old(self)@ + c@;
                let size = if all.len() < old(buf)@.len() {
                    all.len()
                } else {
                    old(buf)@.len()
                };
                &&& (o matches ReadOutcome::Read(n) && n == size)
                &&& final(buf)@.len() == old(buf)@.len()
                &&& final(buf)@.take(size as int) == all.take(size as int)
                &&& final(buf)@.skip(size as int) == old(buf)@.skip(size as int)
                &&& final(self)@ == all.skip(size as int)
            }),
    {
        match polled {
            ChunkStep::Pending => ReadOutcome::Pending,
            ChunkStep::Done => ReadOutcome::Read(0),
            ChunkStep::Failed => ReadOutcome::Failed,
            ChunkStep::Chunk(c) => {
                self.push_chunk(c);
                ReadOutcome::Read(self.read_into(buf))
            },
        }
    }
}

/// Whether a body with this size hint is known to be empty: its size is known
/// exactly (the bounds meet) and is zero. Such a body is taken as the empty body.
pub fn is_empty_hint(lower: u64, upper: Option<u64>) -> (b: bool)
    ensures
        b == (upper == Some(lower) && lower == 0),
{
    match upper {
        Some(u) => u == lower && lower == 0,
        None => false,
    }
}

} // verus!
