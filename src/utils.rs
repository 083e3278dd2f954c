use vstd::prelude::*;

verus! {

/// The C-style integer for a boolean: 1 for true, 0 for false.
pub fn bool_to_int(b: bool) -> (r: u8)
    ensures
        r == (if b { 1u8 } else { 0u8 }),
{
    match b {
        true => 1,
        false => 0,
    }
}

/// True when no byte of `s` is the terminating zero.
pub open spec fn nul_free(s: Seq<u8>) -> bool {
    forall|i: int| 0 <= i < s.len() ==> s[i] != 0u8
}

/// `p` is what a reader of a zero-terminated buffer `s` sees: every byte
/// up to the first zero, or all of `s` when it holds none.
pub open spec fn is_terminated_prefix(s: Seq<u8>, p: Seq<u8>) -> bool {
    &&& p.len() <= s.len()
    &&& p == s.take(p.len() as int)
    &&& nul_free(p)
    &&& (p.len() == s.len() || s[p.len() as int] == 0u8)
}

/// Reads a zero-terminated buffer: the bytes before the first zero.
pub fn c_char_to_vec(buf: &[u8]) -> (r: Vec<u8>)
    ensures
        is_terminated_prefix(buf@, r@),
{
    let mut r: Vec<u8> = Vec::new();
    let mut i: usize = 0;
    while i < buf.len() && buf[i] != 0
        invariant
            i <= buf@.len(),
            r@ == buf@.take(i as int),
            nul_free(r@),
        decreases buf@.len() - i,
    {
        r.push(buf[i]);
        i = i + 1;
        assert(r@ =~= buf@.take(i as int));
    }
    r
}

/// Packs bytes as a zero-terminated buffer. A buffer with a zero inside it
/// would read back shorter, so it has no such form: `None` then.
pub fn vec_to_c_char(bytes: Vec<u8>) -> (r: Option<Vec<u8>>)
    ensures
        r is None <==> !nul_free(bytes@),
        r matches Some(b) ==> b@ == bytes@.push(0u8),
{
    let mut i: usize = 0;
    while i < bytes.len()
        invariant
            i <= bytes@.len(),
            nul_free(bytes@.take(i as int)),
        decreases bytes@.len() - i,
    {
        if bytes[i] == 0 {
            return None;
        }
        i = i + 1;
        assert(nul_free(bytes@.take(i as int))) by {
            assert forall|j: int| 0 <= j < i implies bytes@.take(i as int)[j] != 0u8 by {
                if j < i - 1 {
                    assert(bytes@.take(i as int)[j] == bytes@.take(i - 1)[j]);
                }
            }
        }
    }
    assert(bytes@.take(i as int) =~= bytes@);
    let mut b = bytes;
    b.push(0);
    Some(b)
}

/// Reading back a packed buffer gives the bytes that were packed.
pub proof fn lemma_terminated_round_trip(bytes: Seq<u8>, p: Seq<u8>)
    requires
        nul_free(bytes),
        is_terminated_prefix(bytes.push(0u8), p),
    ensures
        p == bytes,
{
    let s = bytes.push(0u8);
    if p.len() < bytes.len() {
        assert(s[p.len() as int] == bytes[p.len() as int]);
    }
    if p.len() == s.len() {
        assert(p[bytes.len() as int] == s[bytes.len() as int]);
    }
    assert(p.len() == bytes.len());
    assert(p =~= bytes);
}

} // verus!
