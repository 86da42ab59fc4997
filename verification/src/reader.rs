use vstd::prelude::*;
use crate::chunks::chunks_of;
use crate::chunks::padded_chunks;
use crate::chunks::zeros;
use crate::pipe::Pipe;

verus! {

/// How much input the reader still owes: a bounded reader performs a fixed
/// number of block-sized reads, while a full-stream reader first measures the
/// input and then reads exactly up to its end.
pub enum Mode {
    Bounded { blocks_left: usize },
    Full { len: u64, pos: u64 },
}

/// The reader's decision state. It plans the size of every read and accounts
/// for what each read returned; the input I/O itself happens at the caller,
/// which hands the filled block back through `publish`.
pub struct Reader {
    pub block_size: usize,
    pub mode: Mode,
    pub bytes_read: usize,
}

impl Reader {
    pub open spec fn wf(&self) -> bool {
        &&& self.block_size >= 1
        &&& (self.mode matches Mode::Full { len, pos } ==> pos <= len)
    }

    /// The size of the next block to read and broadcast, or `None` once the
    /// stream is complete. A full-stream reader sizes the final block to the
    /// exact remainder of the input instead of padding it.
    pub open spec fn spec_next_size(&self) -> Option<usize> {
        match self.mode {
            Mode::Bounded { blocks_left } => if blocks_left > 0 {
                Some(self.block_size)
            } else {
                None
            },
            Mode::Full { len, pos } => if pos < len {
                if len - pos < self.block_size {
                    Some((len - pos) as usize)
                } else {
                    Some(self.block_size)
                }
            } else {
                None
            },
        }
    }

    /// A reader that will perform exactly `count` reads of `block_size` bytes.
    pub fn new_bounded(block_size: usize, count: usize) -> (r: Reader)
        requires
            block_size >= 1,
        ensures
            r.wf(),
            r.bytes_read == 0,
            r.block_size == block_size,
            r.mode == (Mode::Bounded { blocks_left: count }),
    {
        Reader { block_size, mode: Mode::Bounded { blocks_left: count }, bytes_read: 0 }
    }

    /// A reader that will drain an input of `len` bytes from its start.
    pub fn new_full(block_size: usize, len: u64) -> (r: Reader)
        requires
            block_size >= 1,
        ensures
            r.wf(),
            r.bytes_read == 0,
            r.block_size == block_size,
            r.mode == (Mode::Full { len, pos: 0 }),
    {
        Reader { block_size, mode: Mode::Full { len, pos: 0 }, bytes_read: 0 }
    }

    /// How many bytes the caller must read next, or `None` when the stream is
    /// done and the pipe should be dropped to signal the end downstream.
    pub fn next_request(&self) -> (r: Option<usize>)
        requires
            self.wf(),
        ensures
            r == self.spec_next_size(),
    {
        match &self.mode {
            Mode::Bounded { blocks_left } => {
                if *blocks_left > 0 {
                    Some(self.block_size)
                } else {
                    None
                }
            },
            Mode::Full { len, pos } => {
                if *pos < *len {
                    let diff = *len - *pos;
                    if diff < self.block_size as u64 {
                        Some(diff as usize)
                    } else {
                        Some(self.block_size)
                    }
                } else {
                    None
                }
            },
        }
    }

    /// Account one completed read — `n_read` bytes arrived into `block`, which
    /// is sized exactly as requested — and broadcast the block to every tap.
    /// A short physical read (`n_read < block.len()`) leaves the block's tail
    /// zeroed in bounded mode; in full-stream mode it only advances the
    /// position by what was actually read, so nothing is skipped.
    pub fn publish(&mut self, pipe: &mut Pipe, block: Vec<u8>, n_read: usize)
        requires
            old(self).wf(),
            old(pipe).wf(),
            old(self).spec_next_size() is Some,
            old(self).spec_next_size()->0 == block@.len(),
            n_read <= block@.len(),
            old(self).bytes_read + n_read <= usize::MAX,
        ensures
            final(self).wf(),
            final(pipe).wf(),
            final(pipe).history() == old(pipe).history().push(block@),
            final(pipe).capacity() == old(pipe).capacity(),
            final(pipe).started(),
            final(self).block_size == old(self).block_size,
            final(self).bytes_read == old(self).bytes_read + n_read,
            match old(self).mode {
                Mode::Bounded { blocks_left } => final(self).mode == (Mode::Bounded {
                    blocks_left: (blocks_left - 1) as usize,
                }),
                Mode::Full { len, pos } => final(self).mode == (Mode::Full {
                    len,
                    pos: (pos + n_read) as u64,
                }),
            },
    {
        self.mode = match &self.mode {
            Mode::Bounded { blocks_left } => Mode::Bounded { blocks_left: *blocks_left - 1 },
            Mode::Full { len, pos } => Mode::Full { len: *len, pos: *pos + n_read as u64 },
        };
        self.bytes_read = self.bytes_read + n_read;
        pipe.broadcast_block(block);
    }
}

/// Drain an in-memory input from start to end exactly as the full-stream
/// reader does — block-sized reads with a final short block — broadcasting
/// every block to the pipe's taps; the returned byte count always equals the
/// input's length.
pub fn broadcast_all(pipe: &mut Pipe, input: &Vec<u8>, block_size: usize) -> (total: usize)
    requires
        old(pipe).wf(),
        block_size >= 1,
    ensures
        final(pipe).wf(),
        final(pipe).capacity() == old(pipe).capacity(),
        final(pipe).history() == old(pipe).history() + chunks_of(input@, block_size as nat),
        total == input@.len(),
{
    let ghost h0 = pipe.history();
    let ghost b = block_size as nat;
    let mut reader = Reader::new_full(block_size, input.len() as u64);
    let mut pos: usize = 0;
    proof {
        assert(input@.skip(0) =~= input@);
    }
    while pos < input.len()
        invariant
            reader.wf(),
            pipe.wf(),
            block_size >= 1,
            reader.block_size == block_size,
            b == block_size as nat,
            reader.mode == (Mode::Full { len: input@.len() as u64, pos: pos as u64 }),
            reader.bytes_read == pos,
            pos <= input@.len(),
            input@.len() <= usize::MAX,
            pipe.capacity() == old(pipe).capacity(),
            h0 + chunks_of(input@, b) == pipe.history() + chunks_of(input@.skip(pos as int), b),
        decreases input@.len() - pos,
    {
        let remaining = input.len() - pos;
        let sz = if remaining < block_size {
            remaining
        } else {
            block_size
        };
        let mut block: Vec<u8> = Vec::new();
        let mut i: usize = 0;
        while i < sz
            invariant
                i <= sz,
                pos + sz <= input@.len(),
                input@.len() <= usize::MAX,
                block@ == input@.subrange(pos as int, pos as int + i as int),
            decreases sz - i,
        {
            proof {
                assert(input@.subrange(pos as int, pos as int + (i + 1) as int) =~= input@.subrange(
                    pos as int,
                    pos as int + i as int,
                ).push(input@[pos as int + i as int]));
            }
            block.push(input[pos + i]);
            i = i + 1;
        }
        proof {
            let s = input@.skip(pos as int);
            assert(block@ =~= s.take(sz as int));
            if s.len() <= b {
                assert(chunks_of(s, b) == seq![s]);
                assert(block@ =~= s);
                assert(input@.skip(pos as int + sz as int) =~= s.skip(sz as int));
                assert(s.skip(sz as int).len() == 0);
                assert(chunks_of(s.skip(sz as int), b) == Seq::<Seq<u8>>::empty());
                assert(pipe.history() + chunks_of(s, b) =~= pipe.history().push(block@)
                    + chunks_of(input@.skip(pos as int + sz as int), b));
            } else {
                assert(chunks_of(s, b) == seq![s.take(b as int)] + chunks_of(s.skip(b as int), b));
                assert(s.skip(b as int) =~= input@.skip(pos as int + sz as int));
                assert(pipe.history() + chunks_of(s, b) =~= pipe.history().push(block@)
                    + chunks_of(input@.skip(pos as int + sz as int), b));
            }
        }
        reader.publish(pipe, block, sz);
        pos = pos + sz;
    }
    proof {
        assert(input@.skip(pos as int).len() == 0);
        assert(chunks_of(input@.skip(pos as int), b) == Seq::<Seq<u8>>::empty());
        assert(pipe.history() =~= pipe.history() + Seq::<Seq<u8>>::empty());
    }
    reader.bytes_read
}

/// Perform exactly `count` block-sized reads against an in-memory input, as
/// the bounded reader does — every broadcast block is `block_size` long, a
/// short read leaves its block's tail zeroed, and reads past the end of the
/// input broadcast all-zero blocks — while the returned byte count reports
/// only the bytes actually read.
pub fn broadcast_bounded(pipe: &mut Pipe, input: &Vec<u8>, block_size: usize, count: usize) -> (total: usize)
    requires
        old(pipe).wf(),
        block_size >= 1,
    ensures
        final(pipe).wf(),
        final(pipe).capacity() == old(pipe).capacity(),
        final(pipe).history() == old(pipe).history() + padded_chunks(
            input@,
            block_size as nat,
            count as nat,
        ),
        total == vstd::math::min(count as int * block_size as int, input@.len() as int),
{
    let ghost h0 = pipe.history();
    let ghost b = block_size as nat;
    let mut reader = Reader::new_bounded(block_size, count);
    let input_len = input.len();
    let mut pos: usize = 0;
    let mut j: usize = 0;
    proof {
        assert(input@.skip(0) =~= input@);
    }
    while j < count
        invariant
            reader.wf(),
            pipe.wf(),
            block_size >= 1,
            reader.block_size == block_size,
            b == block_size as nat,
            reader.mode == (Mode::Bounded { blocks_left: (count - j) as usize }),
            reader.bytes_read == pos,
            j <= count,
            pos <= input@.len(),
            input@.len() <= usize::MAX,
            input_len == input@.len(),
            pos == vstd::math::min(j as int * block_size as int, input@.len() as int),
            pipe.capacity() == old(pipe).capacity(),
            h0 + padded_chunks(input@, b, count as nat) == pipe.history() + padded_chunks(
                input@.skip(pos as int),
                b,
                (count - j) as nat,
            ),
        decreases count - j,
    {
        let remaining = input_len - pos;
        let n = if remaining < block_size {
            remaining
        } else {
            block_size
        };
        let mut block: Vec<u8> = Vec::new();
        let mut i: usize = 0;
        while i < n
            invariant
                i <= n,
                pos + n <= input@.len(),
                input@.len() <= usize::MAX,
                block@ == input@.subrange(pos as int, pos as int + i as int),
            decreases n - i,
        {
            proof {
                assert(input@.subrange(pos as int, pos as int + (i + 1) as int) =~= input@.subrange(
                    pos as int,
                    pos as int + i as int,
                ).push(input@[pos as int + i as int]));
            }
            block.push(input[pos + i]);
            i = i + 1;
        }
        while block.len() < block_size
            invariant
                n <= block@.len() <= block_size,
                block@.subrange(0, n as int) == input@.subrange(pos as int, pos as int + n as int),
                forall|idx: int| n <= idx < block@.len() ==> block@[idx] == 0u8,
            decreases block_size - block@.len(),
        {
            proof {
                assert(block@.push(0u8).subrange(0, n as int) =~= block@.subrange(0, n as int));
            }
            block.push(0u8);
        }
        proof {
            let s = input@.skip(pos as int);
            assert(block@ =~= s.take(n as int) + zeros((b - n) as nat));
            assert(s.skip(n as int) =~= input@.skip(pos as int + n as int));
            assert(padded_chunks(s, b, (count - j) as nat) == seq![block@] + padded_chunks(
                input@.skip(pos as int + n as int),
                b,
                (count - j - 1) as nat,
            ));
            assert(pipe.history() + padded_chunks(s, b, (count - j) as nat) =~= pipe.history().push(
                block@,
            ) + padded_chunks(input@.skip(pos as int + n as int), b, (count - j - 1) as nat));
            assert((j + 1) as int * block_size as int == j as int * block_size as int
                + block_size as int) by (nonlinear_arith);
        }
        reader.publish(pipe, block, n);
        pos = pos + n;
        j = j + 1;
    }
    proof {
        assert(padded_chunks(input@.skip(pos as int), b, 0) == Seq::<Seq<u8>>::empty());
        assert(pipe.history() =~= pipe.history() + Seq::<Seq<u8>>::empty());
    }
    reader.bytes_read
}

} // verus!
