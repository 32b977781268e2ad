use vstd::prelude::*;

use crate::identity::Pubkey;

verus! {

/// The `n` low bytes of `v`, least significant first.
pub open spec fn le_bytes(v: nat, n: nat) -> Seq<u8>
    decreases n,
{
    if n == 0 {
        Seq::empty()
    } else {
        seq![(v % 256) as u8] + le_bytes(v / 256, (n - 1) as nat)
    }
}

/// The number whose bytes, least significant first, are `s`.
pub open spec fn le_value(s: Seq<u8>) -> nat
    decreases s.len(),
{
    if s.len() == 0 {
        0
    } else {
        s[0] as nat + 256 * le_value(s.drop_first())
    }
}

/// 256 to the power `n`.
pub open spec fn pow256(n: nat) -> nat
    decreases n,
{
    if n == 0 {
        1
    } else {
        256 * pow256((n - 1) as nat)
    }
}

/// The 32 bytes of an identity: its words in order, each least
/// significant byte first.
pub open spec fn key_bytes(k: Pubkey) -> Seq<u8> {
    le_bytes(k.w0 as nat, 8) + le_bytes(k.w1 as nat, 8) + le_bytes(k.w2 as nat, 8) + le_bytes(
        k.w3 as nat,
        8,
    )
}

proof fn lemma_le_value_bound(s: Seq<u8>)
    ensures
        le_value(s) < pow256(s.len()),
    decreases s.len(),
{
    if s.len() > 0 {
        lemma_le_value_bound(s.drop_first());
        let rest = le_value(s.drop_first());
        let p = pow256((s.len() - 1) as nat);
        assert(s[0] as nat + 256 * rest < 256 * p) by (nonlinear_arith)
            requires
                rest < p,
                s[0] < 256,
        ;
    }
}

proof fn lemma_pow256_8()
    ensures
        pow256(8) == 0x1_0000_0000_0000_0000,
{
    reveal_with_fuel(pow256, 9);
}

/// Appends the `n` low bytes of `v`, least significant first.
pub fn push_le_bytes(buf: &mut Vec<u8>, v: u64, n: usize)
    ensures
        final(buf)@ == old(buf)@ + le_bytes(v as nat, n as nat),
{
    let mut x: u64 = v;
    let mut i: usize = 0;
    while i < n
        invariant
            0 <= i <= n,
            buf@ + le_bytes(x as nat, (n - i) as nat) == old(buf)@ + le_bytes(v as nat, n as nat),
        decreases n - i,
    {
        let ghost before = buf@;
        let ghost rest = le_bytes((x / 256) as nat, (n - i - 1) as nat);
        assert(le_bytes(x as nat, (n - i) as nat) == seq![(x % 256) as u8] + rest);
        buf.push((x % 256) as u8);
        assert(buf@ + rest =~= before + (seq![(x % 256) as u8] + rest));
        x = x / 256;
        i += 1;
    }
    assert(buf@ + le_bytes(x as nat, 0) =~= buf@);
}

/// Reads the eight bytes of `s` from `start` on as a little-endian number.
pub fn read_le_u64(s: &[u8], start: usize) -> (r: u64)
    requires
        start + 8 <= s@.len(),
    ensures
        r == le_value(s@.subrange(start as int, start + 8)),
{
    let len = s.len();
    let mut acc: u64 = 0;
    let mut i: usize = 8;
    proof {
        assert(s@.subrange(start + 8, start + 8) =~= Seq::<u8>::empty());
    }
    while i > 0
        invariant
            0 <= i <= 8,
            start + 8 <= s@.len(),
            len == s@.len(),
            acc == le_value(s@.subrange(start + i, start + 8)),
        decreases i,
    {
        let ghost tail = s@.subrange(start + i, start + 8);
        let ghost longer = s@.subrange(start + i - 1, start + 8);
        proof {
            assert(longer.drop_first() =~= tail);
            assert(le_value(longer) == longer[0] as nat + 256 * le_value(tail));
            lemma_le_value_bound(longer);
            lemma_pow256_8();
            assert(pow256(longer.len()) <= pow256(8)) by {
                reveal_with_fuel(pow256, 9);
            }
        }
        acc = acc * 256 + s[start + i - 1] as u64;
        i -= 1;
    }
    acc
}

impl Pubkey {
    /// The identity whose 32 bytes are `b`.
    pub fn from_bytes(b: &[u8; 32]) -> (r: Pubkey)
        ensures
            r.w0 == le_value(b@.subrange(0, 8)),
            r.w1 == le_value(b@.subrange(8, 16)),
            r.w2 == le_value(b@.subrange(16, 24)),
            r.w3 == le_value(b@.subrange(24, 32)),
    {
        let s: &[u8] = b.as_slice();
        let w0 = read_le_u64(s, 0);
        let w1 = read_le_u64(s, 8);
        let w2 = read_le_u64(s, 16);
        let w3 = read_le_u64(s, 24);
        Pubkey { w0, w1, w2, w3 }
    }

    /// The identity's 32 bytes.
    pub fn to_bytes(&self) -> (r: Vec<u8>)
        ensures
            r@ == key_bytes(*self),
    {
        let mut out: Vec<u8> = Vec::new();
        push_le_bytes(&mut out, self.w0, 8);
        push_le_bytes(&mut out, self.w1, 8);
        push_le_bytes(&mut out, self.w2, 8);
        push_le_bytes(&mut out, self.w3, 8);
        assert(out@ =~= key_bytes(*self));
        out
    }
}

} // verus!
