//! Big-endian integers read from byte buffers.
use vstd::prelude::*;

verus! {

/// `256` raised to `n`.
pub open spec fn pow256(n: nat) -> nat
    decreases n,
{
    if n == 0 {
        1
    } else {
        256 * pow256((n - 1) as nat)
    }
}

/// The unsigned integer that the bytes `b` encode, most significant first.
pub open spec fn be_value(b: Seq<u8>) -> nat
    decreases b.len(),
{
    if b.len() == 0 {
        0
    } else {
        be_value(b.drop_last()) * 256 + b.last() as nat
    }
}

/// The `n` bytes that encode `v` most significant first (modulo `256^n`).
pub open spec fn be_bytes(v: nat, n: nat) -> Seq<u8>
    decreases n,
{
    if n == 0 {
        Seq::empty()
    } else {
        be_bytes(v / 256, (n - 1) as nat).push((v % 256) as u8)
    }
}

/// The bytes of `s` from `off` on, `len` of them.
pub open spec fn window(s: Seq<u8>, off: int, len: int) -> Seq<u8> {
    s.subrange(off, off + len)
}

/// The two-byte big-endian integer at `off` of `s`.
pub open spec fn u16_at(s: Seq<u8>, off: int) -> u16 {
    be_value(window(s, off, 2)) as u16
}

/// The four-byte big-endian integer at `off` of `s`.
pub open spec fn u32_at(s: Seq<u8>, off: int) -> u32 {
    be_value(window(s, off, 4)) as u32
}

pub proof fn lemma_u16_at(s: Seq<u8>, off: int)
    requires
        0 <= off,
        off + 2 <= s.len(),
    ensures
        u16_at(s, off) as nat == be_value(window(s, off, 2)),
{
    lemma_be_value_bound(window(s, off, 2));
    reveal_with_fuel(pow256, 3);
}

pub proof fn lemma_u32_at(s: Seq<u8>, off: int)
    requires
        0 <= off,
        off + 4 <= s.len(),
    ensures
        u32_at(s, off) as nat == be_value(window(s, off, 4)),
{
    lemma_be_value_bound(window(s, off, 4));
    reveal_with_fuel(pow256, 5);
}

pub proof fn lemma_pow256_positive(n: nat)
    ensures
        pow256(n) >= 1,
    decreases n,
{
    if n > 0 {
        lemma_pow256_positive((n - 1) as nat);
    }
}

/// A value read from `n` bytes is below `256^n`.
pub proof fn lemma_be_value_bound(b: Seq<u8>)
    ensures
        be_value(b) < pow256(b.len()),
    decreases b.len(),
{
    if b.len() > 0 {
        let p = b.drop_last();
        lemma_be_value_bound(p);
        let x = be_value(p);
        let q = pow256(p.len());
        let l = b.last() as nat;
        assert(x * 256 + l < 256 * q) by (nonlinear_arith)
            requires
                x < q,
                l < 256,
        ;
    }
}

/// Writing back the value that bytes encode gives the same bytes.
pub proof fn lemma_be_round_trip(b: Seq<u8>)
    ensures
        be_bytes(be_value(b), b.len()) == b,
    decreases b.len(),
{
    if b.len() > 0 {
        let p = b.drop_last();
        lemma_be_round_trip(p);
        let x = be_value(p);
        let l = b.last() as nat;
        assert((x * 256 + l) / 256 == x && (x * 256 + l) % 256 == l) by (nonlinear_arith)
            requires
                l < 256,
        ;
        assert(be_bytes(be_value(b), b.len()) =~= p.push(b.last()));
    }
}

proof fn lemma_pow256_16()
    ensures
        pow256(16) == 0x1_0000_0000_0000_0000_0000_0000_0000_0000,
{
    reveal_with_fuel(pow256, 17);
}

/// Reads the big-endian integer held in `buf[off .. off + width]`.
pub fn read_be(buf: &[u8], off: usize, width: usize) -> (r: u128)
    requires
        width <= 16,
        off + width <= buf@.len(),
    ensures
        r as nat == be_value(window(buf@, off as int, width as int)),
{
    let n = buf.len();
    let mut acc: u128 = 0;
    let mut i: usize = 0;
    while i < width
        invariant
            n == buf@.len(),
            i <= width,
            width <= 16,
            off + width <= buf@.len(),
            acc as nat == be_value(window(buf@, off as int, i as int)),
        decreases width - i,
    {
        proof {
            let w = window(buf@, off as int, i as int);
            let w2 = window(buf@, off as int, i + 1);
            assert(w2.drop_last() =~= w);
            lemma_be_value_bound(w);
            lemma_pow_mono(i as nat, 15);
            lemma_pow256_16();
            assert(pow256(16) == 256 * pow256(15));
        }
        let b = buf[off + i];
        acc = acc * 256 + b as u128;
        i = i + 1;
    }
    acc
}

proof fn lemma_pow_mono(a: nat, b: nat)
    requires
        a <= b,
    ensures
        pow256(a) <= pow256(b),
    decreases b,
{
    if a < b {
        lemma_pow_mono(a, (b - 1) as nat);
        lemma_pow256_positive((b - 1) as nat);
    }
}

/// Reads the two-byte big-endian integer at `off`.
pub fn read_u16(buf: &[u8], off: usize) -> (r: u16)
    requires
        off + 2 <= buf@.len(),
    ensures
        r as nat == be_value(window(buf@, off as int, 2)),
{
    proof {
        lemma_be_value_bound(window(buf@, off as int, 2));
        reveal_with_fuel(pow256, 3);
    }
    read_be(buf, off, 2) as u16
}

/// Reads the four-byte big-endian integer at `off`.
pub fn read_u32(buf: &[u8], off: usize) -> (r: u32)
    requires
        off + 4 <= buf@.len(),
    ensures
        r as nat == be_value(window(buf@, off as int, 4)),
{
    proof {
        lemma_be_value_bound(window(buf@, off as int, 4));
        reveal_with_fuel(pow256, 5);
    }
    read_be(buf, off, 4) as u32
}

/// Reads the eight-byte big-endian integer at `off`.
pub fn read_u64(buf: &[u8], off: usize) -> (r: u64)
    requires
        off + 8 <= buf@.len(),
    ensures
        r as nat == be_value(window(buf@, off as int, 8)),
{
    proof {
        lemma_be_value_bound(window(buf@, off as int, 8));
        reveal_with_fuel(pow256, 9);
    }
    read_be(buf, off, 8) as u64
}

} // verus!
