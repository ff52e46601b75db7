//! The cyclic XOR obfuscation cipher used by the service's keyed
//! pipelines.

use vstd::prelude::*;

use crate::error::CipherPrecondition;

verus! {

/// The result of XOR-ing `d` against the key `k` repeated cyclically:
/// element `i` is `d[i] ^ k[i % k.len()]`.
pub open spec fn xor_seq(d: Seq<u8>, k: Seq<u8>) -> Seq<u8>
    recommends
        k.len() > 0,
{
    Seq::new(d.len(), |i: int| d[i] ^ k[i % (k.len() as int)])
}

/// XOR-ing twice with the same non-empty key restores the original
/// bytes: the cipher is an involution.
pub proof fn lemma_xor_involutive(d: Seq<u8>, k: Seq<u8>)
    requires
        k.len() > 0,
    ensures
        xor_seq(xor_seq(d, k), k) == d,
{
    assert forall|i: int| 0 <= i < d.len() implies xor_seq(xor_seq(d, k), k)[i] == d[i] by {
        let b = d[i];
        let key = k[i % (k.len() as int)];
        assert((b ^ key) ^ key == b) by (bit_vector);
    }
    assert(xor_seq(xor_seq(d, k), k) =~= d);
}

/// Applies the cyclic XOR routine to `data` in place using `key`.
pub fn cyclic_xor(data: &mut Vec<u8>, key: &[u8])
    requires
        key@.len() > 0,
    ensures
        final(data)@ == xor_seq(old(data)@, key@),
{
    let n = data.len();
    let mut i: usize = 0;
    while i < n
        invariant
            key@.len() > 0,
            n == old(data)@.len(),
            data@.len() == n,
            i <= n,
            forall|j: int| 0 <= j < i ==> data@[j] == xor_seq(old(data)@, key@)[j],
            forall|j: int| i <= j < n ==> data@[j] == old(data)@[j],
        decreases n - i,
    {
        let b = data[i] ^ key[i % key.len()];
        data.set(i, b);
        i += 1;
    }
    assert(data@ =~= xor_seq(old(data)@, key@));
}

/// XORs `s` with the key repeated cyclically and returns the result.
///
/// An empty key is a precondition violation and is reported as an
/// error, never as a silent no-op.
pub fn xor(s: Vec<u8>, key: &[u8]) -> (r: Result<Vec<u8>, CipherPrecondition>)
    ensures
        key@.len() == 0 ==> r is Err,
        key@.len() > 0 ==> (r matches Ok(v) && v@ == xor_seq(s@, key@)),
{
    if key.len() == 0 {
        return Err(CipherPrecondition);
    }
    let mut out = s;
    cyclic_xor(&mut out, key);
    Ok(out)
}

} // verus!
