use vstd::prelude::*;

verus! {

/// How many more bytes a buffer that holds `held` bytes keeps under `limit`.
pub open spec fn room(held: nat, limit: nat) -> nat {
    if held <= limit {
        (limit - held) as nat
    } else {
        0
    }
}

/// `acc` followed by as much of `chunk` as the room left under `limit` allows.
pub open spec fn bounded_append(acc: Seq<u8>, chunk: Seq<u8>, limit: nat) -> Seq<u8> {
    let n = room(acc.len(), limit);
    acc + chunk.take(if chunk.len() <= n { chunk.len() as int } else { n as int })
}

/// The chunks of a stream, in order, as one byte sequence.
pub open spec fn concat_all(chunks: Seq<Seq<u8>>) -> Seq<u8>
    decreases chunks.len(),
{
    if chunks.len() == 0 {
        Seq::empty()
    } else {
        concat_all(chunks.drop_last()) + chunks.last()
    }
}

/// What a buffer capped at `limit` holds after taking `chunks` one by one.
pub open spec fn fill(chunks: Seq<Seq<u8>>, limit: nat) -> Seq<u8>
    decreases chunks.len(),
{
    if chunks.len() == 0 {
        Seq::empty()
    } else {
        bounded_append(fill(chunks.drop_last(), limit), chunks.last(), limit)
    }
}

/// Bytes read from a stream, kept up to a fixed cap; bytes past the cap are dropped.
pub struct BoundedBuffer {
    bytes: Vec<u8>,
    limit: u64,
}

impl View for BoundedBuffer {
    type V = Seq<u8>;

    closed spec fn view(&self) -> Seq<u8> {
        self.bytes@
    }
}

impl BoundedBuffer {
    pub closed spec fn spec_limit(&self) -> nat {
        self.limit as nat
    }

    /// An empty buffer that keeps at most `limit` bytes.
    pub fn new(limit: u64) -> (r: Self)
        ensures
            r@ == Seq::<u8>::empty(),
            r.spec_limit() == limit,
    {
        BoundedBuffer { bytes: Vec::new(), limit }
    }

    /// How many more bytes the buffer keeps.
    pub fn remaining(&self) -> (r: u64)
        ensures
            r == room(self@.len(), self.spec_limit()),
    {
        let held = self.bytes.len() as u64;
        if held <= self.limit {
            self.limit - held
        } else {
            0
        }
    }

    /// How many bytes to ask the stream for next: the room left, but no more than
    /// `max_chunk`. Zero means the buffer is full.
    pub fn next_read_len(&self, max_chunk: usize) -> (r: usize)
        ensures
            r == if room(self@.len(), self.spec_limit()) <= max_chunk {
                room(self@.len(), self.spec_limit())
            } else {
                max_chunk as nat
            },
    {
        let room = self.remaining();
        if room <= max_chunk as u64 {
            room as usize
        } else {
            max_chunk
        }
    }

    /// Appends as much of `chunk` as the cap allows.
    pub fn push_chunk(&mut self, chunk: &[u8])
        ensures
            final(self)@ == bounded_append(old(self)@, chunk@, old(self).spec_limit()),
            final(self).spec_limit() == old(self).spec_limit(),
    {
        let ghost start = self.bytes@;
        let mut i: usize = 0;
        while i < chunk.len() && (self.bytes.len() as u64) < self.limit
            invariant
                0 <= i <= chunk@.len(),
                self.limit == old(self).limit,
                start == old(self)@,
                i <= room(start.len(), self.limit as nat),
                self.bytes@ == start + chunk@.take(i as int),
            decreases chunk@.len() - i,
        {
            self.bytes.push(chunk[i]);
            i += 1;
            assert(self.bytes@ =~= start + chunk@.take(i as int));
        }
        assert(self.bytes@ =~= bounded_append(start, chunk@, self.limit as nat));
    }

    /// The bytes kept.
    pub fn into_bytes(self) -> (r: Vec<u8>)
        ensures
            r@ == self@,
    {
        self.bytes
    }
}

/// A capped buffer fed a stream in any chunks ends with the stream's first bytes, as
/// many as the stream had or the cap allows, whichever is fewer.
pub proof fn fill_keeps_prefix(chunks: Seq<Seq<u8>>, limit: nat)
    ensures
        fill(chunks, limit) == concat_all(chunks).take(
            if concat_all(chunks).len() <= limit {
                concat_all(chunks).len() as int
            } else {
                limit as int
            },
        ),
        fill(chunks, limit).len() == if concat_all(chunks).len() <= limit {
            concat_all(chunks).len()
        } else {
            limit
        },
    decreases chunks.len(),
{
    let all = concat_all(chunks);
    if chunks.len() == 0 {
        assert(all.take(0) =~= Seq::<u8>::empty());
    } else {
        let prev = concat_all(chunks.drop_last());
        let x = chunks.last();
        fill_keeps_prefix(chunks.drop_last(), limit);
        let kept = fill(chunks.drop_last(), limit);
        if prev.len() <= limit {
            assert(kept =~= prev);
            assert(fill(chunks, limit) =~= all.take(
                if all.len() <= limit { all.len() as int } else { limit as int },
            ));
        } else {
            assert(kept =~= prev.take(limit as int));
            assert(fill(chunks, limit) =~= all.take(limit as int));
        }
    }
}

} // verus!
