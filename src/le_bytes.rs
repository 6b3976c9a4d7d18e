use vstd::prelude::*;

verus! {

/// `256` raised to `n`.
pub open spec fn pow256(n: nat) -> nat
    decreases n,
{
    if n == 0 {
        1
    } else {
        256 * pow256((n - 1) as nat)
    }
}

/// The number that `s` writes in little-endian order, least significant byte first.
pub open spec fn le_value(s: Seq<u8>) -> nat
    decreases s.len(),
{
    if s.len() == 0 {
        0
    } else {
        s[0] as nat + 256 * le_value(s.drop_first())
    }
}

pub proof fn lemma_le_value_bound(s: Seq<u8>)
    ensures
        le_value(s) < pow256(s.len()),
    decreases s.len(),
{
    if s.len() > 0 {
        lemma_le_value_bound(s.drop_first());
        let a = s[0] as nat;
        let r = le_value(s.drop_first());
        let p = pow256((s.len() - 1) as nat);
        assert(a + 256 * r < 256 * p) by (nonlinear_arith)
            requires
                a < 256,
                r < p,
        ;
    }
}

pub proof fn lemma_le_value_push(s: Seq<u8>, b: u8)
    ensures
        le_value(s.push(b)) == le_value(s) + pow256(s.len()) * b,
    decreases s.len(),
{
    if s.len() == 0 {
        assert(s.push(b).drop_first() =~= Seq::<u8>::empty());
        assert(le_value(Seq::<u8>::empty()) == 0);
        assert(pow256(0) == 1);
        assert(le_value(s) == 0);
    } else {
        assert(s.push(b).drop_first() =~= s.drop_first().push(b));
        lemma_le_value_push(s.drop_first(), b);
        let p = pow256((s.len() - 1) as nat);
        let r = le_value(s.drop_first());
        assert(256 * (r + p * b) == 256 * r + (256 * p) * b) by (nonlinear_arith);
        assert(s.push(b)[0] == s[0]);
        assert(pow256(s.len()) == 256 * p);
    }
}

pub proof fn lemma_pow256_eight()
    ensures
        pow256(4) == 0x1_0000_0000,
        pow256(8) == 0x1_0000_0000_0000_0000,
{
    reveal_with_fuel(pow256, 9);
}

pub proof fn lemma_pow256_mono(m: nat, n: nat)
    requires
        m <= n,
    ensures
        pow256(m) <= pow256(n),
    decreases n,
{
    if m < n {
        lemma_pow256_mono(m, (n - 1) as nat);
    }
}

/// Reads the little-endian number held in `data[start..start + len]`.
pub fn read_le(data: &[u8], start: usize, len: usize) -> (r: u64)
    requires
        len <= 8,
        start + len <= data@.len(),
    ensures
        r as nat == le_value(data@.subrange(start as int, start + len)),
{
    let mut acc: u64 = 0;
    let mut i: usize = len;
    proof {
        lemma_pow256_eight();
    }
    while i > 0
        invariant
            len <= 8,
            start + len <= data@.len(),
            data@.len() == data.len(),
            0 <= i <= len,
            acc as nat == le_value(data@.subrange(start + i, start + len)),
            pow256(8) == 0x1_0000_0000_0000_0000,
        decreases i,
    {
        let ghost tail = data@.subrange(start + i, start + len);
        let ghost next = data@.subrange(start + i - 1, start + len);
        proof {
            assert(next.drop_first() =~= tail);
            lemma_le_value_bound(next);
            lemma_pow256_mono(next.len(), 8);
        }
        i = i - 1;
        acc = acc * 256 + data[start + i] as u64;
    }
    acc
}

/// Appends the `len` little-endian bytes of `v` to `out`.
pub fn push_le(out: &mut Vec<u8>, v: u64, len: usize)
    requires
        len <= 8,
        (v as nat) < pow256(len as nat),
    ensures
        final(out)@.len() == old(out)@.len() + len,
        final(out)@.subrange(0, old(out)@.len() as int) == old(out)@,
        le_value(final(out)@.subrange(old(out)@.len() as int, final(out)@.len() as int)) == v,
{
    let ghost start = out@.len();
    let mut rest: u64 = v;
    let mut i: usize = 0;
    proof {
        assert(out@.subrange(start as int, start as int) =~= Seq::<u8>::empty());
        assert(le_value(Seq::<u8>::empty()) == 0);
        assert(pow256(0) == 1);
        assert(out@.subrange(0, start as int) =~= old(out)@);
    }
    while i < len
        invariant
            len <= 8,
            0 <= i <= len,
            out@.len() == start + i,
            out@.subrange(0, start as int) == old(out)@,
            start == old(out)@.len(),
            v as nat == le_value(out@.subrange(start as int, start + i)) + pow256(i as nat)
                * rest,
            (rest as nat) < pow256((len - i) as nat),
        decreases len - i,
    {
        let b = (rest % 256) as u8;
        let ghost before = out@.subrange(start as int, start + i);
        out.push(b);
        proof {
            assert(out@.subrange(start as int, start + i + 1) =~= before.push(b));
            lemma_le_value_push(before, b);
            let p = pow256(i as nat);
            let r = rest as nat;
            assert(p * r == p * (r % 256) + (256 * p) * (r / 256)) by (nonlinear_arith);
            assert(pow256((len - i) as nat) == 256 * pow256((len - i - 1) as nat));
            assert(r / 256 < pow256((len - i - 1) as nat)) by (nonlinear_arith)
                requires
                    r < 256 * pow256((len - i - 1) as nat),
            ;
            assert(out@.subrange(0, start as int) =~= old(out)@);
        }
        rest = rest / 256;
        i = i + 1;
    }
    proof {
        assert(rest == 0);
    }
}

} // verus!
