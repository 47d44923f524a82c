//! Byte-buffer arithmetic shared by the curve modules: the big-endian
//! integer value of a buffer and the all-zero test.

use vstd::prelude::*;

verus! {

/// The integer a byte sequence encodes when read big-endian.
pub open spec fn be_int(s: Seq<u8>) -> int
    decreases s.len(),
{
    if s.len() == 0 {
        0
    } else {
        be_int(s.drop_last()) * 256 + s.last()
    }
}

/// Every byte of the sequence is zero.
pub open spec fn all_zero(s: Seq<u8>) -> bool {
    forall|i: int| 0 <= i < s.len() ==> s[i] == 0
}

pub proof fn lemma_be_int_nonneg(s: Seq<u8>)
    ensures
        be_int(s) >= 0,
    decreases s.len(),
{
    if s.len() > 0 {
        lemma_be_int_nonneg(s.drop_last());
    }
}

/// A buffer encodes zero exactly when all of its bytes are zero.
pub proof fn lemma_be_int_zero(s: Seq<u8>)
    ensures
        be_int(s) == 0 <==> all_zero(s),
    decreases s.len(),
{
    if s.len() > 0 {
        lemma_be_int_zero(s.drop_last());
        lemma_be_int_nonneg(s.drop_last());
        if all_zero(s.drop_last()) && s.last() == 0 {
            assert(all_zero(s)) by {
                assert forall|i: int| 0 <= i < s.len() implies s[i] == 0 by {
                    if i < s.len() - 1 {
                        assert(s.drop_last()[i] == 0);
                    }
                }
            }
        }
        if all_zero(s) {
            assert forall|i: int| 0 <= i < s.drop_last().len() implies s.drop_last()[i] == 0 by {
                assert(s[i] == 0);
            }
        }
    }
}

/// Reports whether every byte of the buffer is zero.
pub fn is_all_zero(b: &[u8]) -> (r: bool)
    ensures
        r == all_zero(b@),
{
    let n = b.len();
    for i in 0..n
        invariant
            n == b@.len(),
            forall|j: int| 0 <= j < i ==> b@[j] == 0,
    {
        if b[i] != 0 {
            return false;
        }
    }
    true
}

} // verus!
