use vstd::prelude::*;
use crate::chunks::chunks_of;
use crate::chunks::lemma_chunks_flatten;

verus! {

/// What a writer durably stores: the concatenation, in arrival order, of
/// every block its tap handed it.
pub open spec fn assembled(blocks: Seq<Seq<u8>>) -> Seq<u8> {
    blocks.flatten()
}

/// Append one received block to the bytes stored so far: the writer's whole
/// data path between receiving a block and handing it to the target.
pub fn append_block(out: &mut Vec<u8>, block: &Vec<u8>)
    requires
        old(out)@.len() + block@.len() <= usize::MAX,
    ensures
        final(out)@ == old(out)@ + block@,
{
    let mut i: usize = 0;
    while i < block.len()
        invariant
            i <= block@.len(),
            old(out)@.len() + block@.len() <= usize::MAX,
            out@ == old(out)@ + block@.subrange(0, i as int),
        decreases block@.len() - i,
    {
        proof {
            assert(old(out)@ + block@.subrange(0, i as int + 1) =~= (old(out)@ + block@.subrange(
                0,
                i as int,
            )).push(block@[i as int]));
        }
        out.push(block[i]);
        i = i + 1;
    }
    proof {
        assert(block@.subrange(0, block@.len() as int) =~= block@);
    }
}

/// Fidelity: a writer whose tap took exactly the blocks of the full-stream
/// cut of an input ends up storing the input byte-for-byte.
pub proof fn lemma_writer_restores_input(input: Seq<u8>, b: nat)
    requires
        b >= 1,
    ensures
        assembled(chunks_of(input, b)) == input,
{
    lemma_chunks_flatten(input, b);
}

} // verus!
