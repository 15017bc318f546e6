use vstd::prelude::*;

use vstd::arithmetic::power::{lemma_pow_increases, pow};

verus! {

/// The number that `s` spells in big-endian base 256.
pub open spec fn be_value(s: Seq<u8>) -> nat
    decreases s.len(),
{
    if s.len() == 0 {
        0
    } else {
        be_value(s.drop_last()) * 256 + s.last() as nat
    }
}

/// Reads a one-byte record; `None` when the record is not exactly one byte.
pub fn slice_to_u8(data: &[u8]) -> (r: Option<u8>)
    ensures
        data@.len() == 1 ==> r == Some(data@[0]),
        data@.len() != 1 ==> r is None,
{
    if data.len() == 1 {
        Some(data[0])
    } else {
        None
    }
}

/// Reads a 16-byte big-endian record; `None` when the record is not exactly
/// 16 bytes.
pub fn slice_to_u128(data: &[u8]) -> (r: Option<u128>)
    ensures
        data@.len() == 16 ==> (r matches Some(v) && v as nat == be_value(data@)),
        data@.len() != 16 ==> r is None,
{
    if data.len() != 16 {
        return None;
    }
    let mut acc: u128 = 0;
    let mut i: usize = 0;
    proof {
        reveal(pow);
        assert(data@.subrange(0, 0) =~= Seq::<u8>::empty());
    }
    while i < 16
        invariant
            data@.len() == 16,
            i <= 16,
            acc as nat == be_value(data@.subrange(0, i as int)),
            (acc as int) < pow(256, i as nat),
        decreases 16 - i,
    {
        let b = data[i];
        proof {
            let next = data@.subrange(0, i + 1);
            assert(next.drop_last() =~= data@.subrange(0, i as int));
            reveal(pow);
            assert(pow(256, (i + 1) as nat) == 256 * pow(256, i as nat));
            lemma_pow_increases(256, (i + 1) as nat, 16);
            reveal_with_fuel(pow, 17);
            assert(pow(256, 16) == 0x1_0000_0000_0000_0000_0000_0000_0000_0000int);
            assert((acc as int) * 256 + (b as int) < 256 * pow(256, i as nat)) by (nonlinear_arith)
                requires
                    (acc as int) < pow(256, i as nat),
                    (b as int) < 256,
            ;
        }
        acc = acc * 256 + b as u128;
        i = i + 1;
    }
    assert(data@.subrange(0, 16) =~= data@);
    Some(acc)
}

} // verus!
