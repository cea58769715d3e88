use vstd::prelude::*;

verus! {

/// The `w` low bytes of `n`, least significant first.
pub open spec fn le_bytes(n: nat, w: nat) -> Seq<u8>
    decreases w,
{
    if w == 0 {
        Seq::empty()
    } else {
        seq![(n % 256) as u8] + le_bytes(n / 256, (w - 1) as nat)
    }
}

/// The number whose little-endian bytes are `s`.
pub open spec fn le_value(s: Seq<u8>) -> nat
    decreases s.len(),
{
    if s.len() == 0 {
        0
    } else {
        s[0] as nat + 256 * le_value(s.drop_first())
    }
}

pub open spec fn pow256(w: nat) -> nat
    decreases w,
{
    if w == 0 {
        1
    } else {
        256 * pow256((w - 1) as nat)
    }
}

pub proof fn lemma_le_bytes_len(n: nat, w: nat)
    ensures
        le_bytes(n, w).len() == w,
    decreases w,
{
    if w > 0 {
        lemma_le_bytes_len(n / 256, (w - 1) as nat);
    }
}

/// Bytes written from a number that fits read back as that number.
pub proof fn lemma_le_round_trip(n: nat, w: nat)
    requires
        n < pow256(w),
    ensures
        le_value(le_bytes(n, w)) == n,
    decreases w,
{
    if w > 0 {
        let p = pow256((w - 1) as nat);
        assert(n / 256 < p) by (nonlinear_arith)
            requires
                n < 256 * p,
        ;
        lemma_le_round_trip(n / 256, (w - 1) as nat);
        let s = le_bytes(n, w);
        assert(s.drop_first() =~= le_bytes(n / 256, (w - 1) as nat));
    }
}

pub proof fn lemma_le_value_bound(s: Seq<u8>)
    ensures
        le_value(s) < pow256(s.len()),
    decreases s.len(),
{
    if s.len() > 0 {
        lemma_le_value_bound(s.drop_first());
        let a = s[0] as nat;
        let b = le_value(s.drop_first());
        let p = pow256((s.len() - 1) as nat);
        assert(a + 256 * b < 256 * p) by (nonlinear_arith)
            requires
                a < 256,
                b < p,
        ;
    }
}

/// Appends the `w` low bytes of `x`, least significant first.
pub fn push_le(out: &mut Vec<u8>, x: u64, w: usize)
    ensures
        final(out)@ == old(out)@ + le_bytes(x as nat, w as nat),
{
    let mut i: usize = 0;
    let mut y: u64 = x;
    while i < w
        invariant
            i <= w,
            out@ + le_bytes(y as nat, (w - i) as nat) == old(out)@ + le_bytes(x as nat, w as nat),
        decreases w - i,
    {
        let ghost before = out@;
        let ghost tail = le_bytes((y / 256) as nat, (w - i - 1) as nat);
        assert(le_bytes(y as nat, (w - i) as nat) == seq![(y % 256) as u8] + tail);
        out.push((y % 256) as u8);
        assert(out@ + tail =~= before + (seq![(y % 256) as u8] + tail));
        y = y / 256;
        i = i + 1;
    }
    assert(le_bytes(y as nat, 0) =~= Seq::<u8>::empty());
    assert(out@ =~= out@ + le_bytes(y as nat, 0));
}

/// Reads the number held in `w` bytes of `b` from `at`, least significant first.
pub fn read_le(b: &[u8], at: usize, w: usize) -> (r: u64)
    requires
        w <= 8,
        at + w <= b@.len(),
    ensures
        r as nat == le_value(b@.subrange(at as int, at + w)),
{
    let n: usize = b.len();
    let mut i: usize = w;
    let mut acc: u64 = 0;
    while i > 0
        invariant
            i <= w <= 8,
            at + w <= b@.len(),
            n == b@.len(),
            acc as nat == le_value(b@.subrange(at + i, at + w)),
        decreases i,
    {
        let ghost rest = b@.subrange(at + i, at + w);
        i = i - 1;
        let ghost s = b@.subrange(at + i, at + w);
        assert(s.drop_first() =~= rest);
        proof {
            lemma_le_value_bound(rest);
            reveal_with_fuel(pow256, 8);
            lemma_pow256_mono(rest.len(), 7);
        }
        let byte = b[at + i];
        assert(acc * 256 + byte <= u64::MAX) by (nonlinear_arith)
            requires
                acc < 0x100000000000000,
                byte < 256,
        ;
        acc = acc * 256 + byte as u64;
    }
    acc
}

pub proof fn lemma_pow256_mono(a: nat, b: nat)
    requires
        a <= b,
    ensures
        pow256(a) <= pow256(b),
    decreases b,
{
    if a < b {
        lemma_pow256_mono(a, (b - 1) as nat);
    }
}

} // verus!
