use vstd::prelude::*;
use vstd::arithmetic::div_mod::{lemma_add_mod_noop, lemma_mod_sub_multiples_vanish, lemma_small_mod};

verus! {

/// The sum of all bytes of `s`, as an unbounded integer.
pub open spec fn byte_sum(s: Seq<u8>) -> int
    decreases s.len(),
{
    if s.len() == 0 {
        0
    } else {
        byte_sum(s.drop_last()) + s.last() as int
    }
}

/// The software checksum: the sum of the bytes, wrapping at 2^32.
pub fn checksum(data: &[u8]) -> (r: anyhow::Result<u32>)
    ensures
        r matches Ok(v) && v as int == byte_sum(data@) % 0x1_0000_0000,
{
    let mut acc: u32 = 0;
    let mut i: usize = 0;
    while i < data.len()
        invariant
            i <= data@.len(),
            acc as int == byte_sum(data@.take(i as int)) % 0x1_0000_0000,
        decreases data@.len() - i,
    {
        let byte = data[i];
        proof {
            let m: int = 0x1_0000_0000;
            let prev = byte_sum(data@.take(i as int));
            let t = acc as int + byte as int;
            assert(data@.take(i + 1).drop_last() =~= data@.take(i as int));
            assert(byte_sum(data@.take(i + 1)) == prev + byte as int);
            lemma_add_mod_noop(prev, byte as int, m);
            lemma_small_mod(byte as nat, m as nat);
            if t < m {
                lemma_small_mod(t as nat, m as nat);
            } else {
                lemma_mod_sub_multiples_vanish(t, m);
                lemma_small_mod((t - m) as nat, m as nat);
            }
        }
        acc = acc.wrapping_add(byte as u32);
        i = i + 1;
    }
    assert(data@.take(data@.len() as int) =~= data@);
    Ok(acc)
}

/// Entry point of the hardware offload path; the stub accepts every named
/// operation.
pub fn offload_operation(name: &str) -> (r: anyhow::Result<()>)
    ensures
        r is Ok,
{
    Ok(())
}

} // verus!
