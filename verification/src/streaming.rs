//! The streaming capture's chunking: canonical samples come in as the
//! device delivers them and leave in chunks of a fifth of a second.

use crate::audio::CHUNK_SAMPLES;
use vstd::prelude::*;
use vstd::slice::*;

verus! {

/// The samples that have come in and do not yet fill a chunk.
#[derive(Debug)]
pub struct ChunkBuffer {
    pending: Vec<i16>,
}

impl View for ChunkBuffer {
    type V = Seq<i16>;

    closed spec fn view(&self) -> Seq<i16> {
        self.pending@
    }
}

/// Chunk `index` of a stream of samples: a whole chunk.
pub open spec fn full_chunk(stream: Seq<i16>, index: int) -> Seq<i16> {
    stream.subrange(index * CHUNK_SAMPLES, index * CHUNK_SAMPLES + CHUNK_SAMPLES)
}

impl ChunkBuffer {
    #[verifier::type_invariant]
    spec fn well_formed(self) -> bool {
        self.pending@.len() < CHUNK_SAMPLES
    }

    /// A buffer that holds nothing.
    pub fn new() -> (buffer: ChunkBuffer)
        ensures
            buffer@ == Seq::<i16>::empty(),
    {
        ChunkBuffer { pending: Vec::new() }
    }

    /// The number of samples that wait for their chunk to fill.
    pub fn pending_len(&self) -> (len: usize)
        ensures
            len == self@.len(),
            len < CHUNK_SAMPLES,
    {
        proof {
            use_type_invariant(self);
        }
        self.pending.len()
    }

    /// Takes samples in and hands out the chunks that they fill, in order.
    /// What waited comes first; what fills no chunk waits on.
    pub fn push(&mut self, samples: &[i16]) -> (chunks: Vec<Vec<i16>>)
        ensures
            chunks@.len() == (old(self)@ + samples@).len() / (CHUNK_SAMPLES as nat),
            forall|i: int|
                0 <= i < chunks@.len() ==> (#[trigger] chunks@[i])@ == full_chunk(
                    old(self)@ + samples@,
                    i,
                ),
            final(self)@ == (old(self)@ + samples@).skip(chunks@.len() * CHUNK_SAMPLES),
            final(self)@.len() < CHUNK_SAMPLES,
    {
        proof {
            use_type_invariant(&*self);
        }
        let mut stream: Vec<i16> = Vec::new();
        std::mem::swap(&mut stream, &mut self.pending);
        let mut tail = slice_to_vec(samples);
        stream.append(&mut tail);
        let ghost all = old(self)@ + samples@;
        assert(stream@ == all);
        let n = stream.len();
        let count = n / CHUNK_SAMPLES;
        let mut chunks: Vec<Vec<i16>> = Vec::new();
        let mut i: usize = 0;
        while i < count
            invariant
                i <= count,
                count == n / CHUNK_SAMPLES,
                n == stream@.len(),
                stream@ == all,
                chunks@.len() == i,
                forall|k: int| 0 <= k < i ==> (#[trigger] chunks@[k])@ == full_chunk(all, k),
            decreases count - i,
        {
            let start = i * CHUNK_SAMPLES;
            let chunk = slice_to_vec(slice_subrange(stream.as_slice(), start, start + CHUNK_SAMPLES));
            chunks.push(chunk);
            i += 1;
        }
        let rest = slice_to_vec(slice_subrange(stream.as_slice(), count * CHUNK_SAMPLES, n));
        proof {
            assert(rest@ =~= all.skip(count * CHUNK_SAMPLES));
        }
        *self = ChunkBuffer { pending: rest };
        chunks
    }

    /// Ends the stream: hands out what still waits as the last, shorter
    /// chunk, or nothing where nothing waits.
    pub fn finish(&mut self) -> (last: Option<Vec<i16>>)
        ensures
            final(self)@ == Seq::<i16>::empty(),
            last is Some <==> old(self)@.len() > 0,
            last matches Some(chunk) ==> chunk@ == old(self)@,
    {
        let mut rest: Vec<i16> = Vec::new();
        std::mem::swap(&mut rest, &mut self.pending);
        if rest.len() > 0 {
            Some(rest)
        } else {
            None
        }
    }
}

/// Chunking loses nothing and keeps the order: the chunks handed out,
/// followed by what waits, are the stream that came in.
pub proof fn lemma_chunks_rebuild_stream(stream: Seq<i16>, k: int)
    requires
        0 <= k < stream.len(),
    ensures
        k / (CHUNK_SAMPLES as int) < stream.len() / (CHUNK_SAMPLES as nat) ==> full_chunk(
            stream,
            k / (CHUNK_SAMPLES as int),
        )[k % (CHUNK_SAMPLES as int)] == stream[k],
        k / (CHUNK_SAMPLES as int) >= stream.len() / (CHUNK_SAMPLES as nat) ==> stream.skip(
            (stream.len() / (CHUNK_SAMPLES as nat)) * CHUNK_SAMPLES,
        )[k - (stream.len() / (CHUNK_SAMPLES as nat)) * CHUNK_SAMPLES] == stream[k],
{
}

} // verus!
