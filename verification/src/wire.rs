//! Little-endian byte layout of the protocol's records.
//!
//! A record is a run of little-endian words; a word packs its fields from the
//! least significant bit up, so a field of `bits` bits at bit offset `off`
//! holds `(word / 2^off) % 2^bits`.

use vstd::prelude::*;
use vstd::arithmetic::div_mod::{lemma_div_denominator, lemma_fundamental_div_mod_converse, lemma_mod_breakdown};
use vstd::arithmetic::power2::{lemma2_to64, lemma_pow2_adds, lemma_pow2_pos, pow2};

verus! {

/// 256 to the power `w`.
pub open spec fn pow256(w: nat) -> nat
    decreases w,
{
    if w == 0 {
        1
    } else {
        256 * pow256((w - 1) as nat)
    }
}

/// The number that a little-endian byte sequence spells.
pub open spec fn le_value(s: Seq<u8>) -> nat
    decreases s.len(),
{
    if s.len() == 0 {
        0
    } else {
        s[0] as nat + 256 * le_value(s.drop_first())
    }
}

/// The `w` low bytes of `v`, least significant first.
pub open spec fn le_bytes(v: nat, w: nat) -> Seq<u8>
    decreases w,
{
    if w == 0 {
        Seq::empty()
    } else {
        seq![(v % 256) as u8] + le_bytes(v / 256, (w - 1) as nat)
    }
}

pub proof fn lemma_pow256_pos(w: nat)
    ensures
        pow256(w) >= 1,
    decreases w,
{
    if w > 0 {
        lemma_pow256_pos((w - 1) as nat);
    }
}

/// Writing `v` in `w` bytes and reading it back gives `v`, when it fits.
pub proof fn lemma_le_roundtrip(v: nat, w: nat)
    requires
        v < pow256(w),
    ensures
        le_bytes(v, w).len() == w,
        le_value(le_bytes(v, w)) == v,
    decreases w,
{
    if w > 0 {
        let q = v / 256;
        let r = v % 256;
        assert(v == 256 * q + r);
        assert(q < pow256((w - 1) as nat)) by (nonlinear_arith)
            requires
                v == 256 * q + r,
                0 <= r < 256,
                v < 256 * pow256((w - 1) as nat),
        ;
        lemma_le_roundtrip(q, (w - 1) as nat);
        let s = le_bytes(v, w);
        assert(s.drop_first() =~= le_bytes(q, (w - 1) as nat));
    } else {
        assert(v == 0);
    }
}

/// The value of `s` is below 256 to the power of its length.
pub proof fn lemma_le_value_bound(s: Seq<u8>)
    ensures
        le_value(s) < pow256(s.len()),
    decreases s.len(),
{
    if s.len() > 0 {
        lemma_le_value_bound(s.drop_first());
        let rest = le_value(s.drop_first());
        assert(s[0] as nat + 256 * rest < 256 * pow256((s.len() - 1) as nat)) by (nonlinear_arith)
            requires
                rest < pow256((s.len() - 1) as nat),
                s[0] < 256,
        ;
    }
}

/// Reading a word and writing it back gives the same bytes.
pub proof fn lemma_le_bytes_of_value(s: Seq<u8>)
    ensures
        le_bytes(le_value(s), s.len()) == s,
    decreases s.len(),
{
    if s.len() > 0 {
        let v = le_value(s);
        let rest = le_value(s.drop_first());
        lemma_fundamental_div_mod_converse(v as int, 256, rest as int, s[0] as int);
        lemma_le_bytes_of_value(s.drop_first());
        assert(le_bytes(v, s.len()) =~= s);
    }
}

/// A field of a packed word comes back out of the word.
pub proof fn lemma_field(x: nat, low: nat, p: nat, f: nat, q: nat, high: nat)
    requires
        p > 0,
        q > 0,
        low < p,
        f < q,
        x == low + p * (f + q * high),
    ensures
        (x / p) % q == f,
{
    assert(x == (f + q * high) * p + low) by (nonlinear_arith)
        requires
            x == low + p * (f + q * high),
    ;
    assert(f + q * high == high * q + f) by (nonlinear_arith);
    lemma_fundamental_div_mod_converse(x as int, p as int, (f + q * high) as int, low as int);
    lemma_fundamental_div_mod_converse((f + q * high) as int, q as int, high as int, f as int);
}

/// Reads the little-endian word of `width` bytes at `pos`.
pub fn read_le(data: &[u8], pos: usize, width: usize) -> (v: u64)
    requires
        width <= 8,
        pos + width <= data@.len(),
    ensures
        v as nat == le_value(data@.subrange(pos as int, pos + width)),
        (v as nat) < pow256(width as nat),
{
    let n = data.len();
    let mut v: u64 = 0;
    let mut k: usize = width;
    assert(data@.subrange(pos + width, pos + width) =~= Seq::<u8>::empty());
    assert(pow256(0) == 1);
    while k > 0
        invariant
            k <= width <= 8,
            n == data@.len(),
            pos + width <= n,
            v as nat == le_value(data@.subrange(pos + k, pos + width)),
            (v as nat) < pow256((width - k) as nat),
        decreases k,
    {
        k = k - 1;
        let ghost old_v = v as nat;
        let ghost s = data@.subrange(pos + k, pos + width);
        assert(s.drop_first() =~= data@.subrange(pos + k + 1, pos + width));
        assert(pow256((width - k - 1) as nat) <= pow256(7)) by {
            lemma_pow256_mono((width - k - 1) as nat, 7);
        }
        proof { lemma_pow256_7(); }
        let b = data[pos + k];
        assert(old_v * 256 + b < 0x1_0000_0000_0000_0000) by (nonlinear_arith)
            requires
                old_v < 0x100_0000_0000_0000,
                b < 256,
        ;
        v = v * 256 + b as u64;
        assert((v as nat) < pow256((width - k) as nat)) by (nonlinear_arith)
            requires
                v == old_v * 256 + b,
                old_v < pow256((width - k - 1) as nat),
                b < 256,
                pow256((width - k) as nat) == 256 * pow256((width - k - 1) as nat),
        ;
    }
    assert(data@.subrange(pos as int, pos + width) =~= data@.subrange(pos + 0, pos + width));
    v
}

pub proof fn lemma_pow256_7()
    ensures
        pow256(7) == 0x100_0000_0000_0000,
{
    reveal_with_fuel(pow256, 8);
}

pub proof fn lemma_pow256_mono(a: nat, b: nat)
    requires
        a <= b,
    ensures
        pow256(a) <= pow256(b),
    decreases b,
{
    if a < b {
        lemma_pow256_mono(a, (b - 1) as nat);
        lemma_pow256_pos((b - 1) as nat);
    }
}

/// Appends the `width` low bytes of `v`, least significant first.
pub fn write_le(out: &mut Vec<u8>, v: u64, width: usize)
    requires
        width <= 8,
    ensures
        final(out)@ == old(out)@ + le_bytes(v as nat, width as nat),
{
    let mut cur = v;
    let mut i: usize = 0;
    assert(le_bytes(v as nat, 0) =~= Seq::<u8>::empty());
    while i < width
        invariant
            i <= width <= 8,
            old(out)@ + le_bytes(v as nat, width as nat) == out@ + le_bytes(cur as nat, (width - i) as nat),
        decreases width - i,
    {
        let ghost before = out@;
        let ghost rest = le_bytes(cur as nat, (width - i) as nat);
        assert(rest == seq![(cur % 256) as u8] + le_bytes((cur / 256) as nat, (width - i - 1) as nat));
        out.push((cur % 256) as u8);
        cur = cur / 256;
        i = i + 1;
        assert(before + rest =~= out@ + le_bytes(cur as nat, (width - i) as nat));
    }
    assert(out@ + le_bytes(cur as nat, 0) =~= out@);
}

/// Appends all of `bytes`.
pub fn write_bytes(out: &mut Vec<u8>, bytes: &[u8])
    ensures
        final(out)@ == old(out)@ + bytes@,
{
    let mut i: usize = 0;
    while i < bytes.len()
        invariant
            i <= bytes@.len(),
            out@ == old(out)@ + bytes@.subrange(0, i as int),
        decreases bytes@.len() - i,
    {
        out.push(bytes[i]);
        i = i + 1;
        assert(out@ =~= old(out)@ + bytes@.subrange(0, i as int));
    }
    assert(bytes@.subrange(0, bytes@.len() as int) =~= bytes@);
}

/// A signed 16-bit value survives its round trip through its unsigned bits.
pub proof fn lemma_i16_bits(x: i16)
    ensures
        ((((x as u16) as nat) as u16) as i16) == x,
{
    assert(((x as u16) as i16) == x) by (bit_vector);
}

/// The two little-endian bytes of a 16-bit value.
pub proof fn lemma_le2(v: u16)
    ensures
        le_bytes(v as nat, 2) == seq![(v % 256) as u8, (v / 256) as u8],
{
    reveal_with_fuel(le_bytes, 3);
    assert(le_bytes(v as nat, 2) =~= seq![(v % 256) as u8, (v / 256) as u8]);
}

/// Bit `i` of a byte run, bits counted from the least significant bit of
/// the first byte up.
pub open spec fn bit_of(b: Seq<u8>, i: nat) -> nat {
    ((b[(i / 8) as int] as nat) / pow2(i % 8)) % 2
}

/// The number that `width` consecutive bits of a byte run spell, starting
/// at bit `off` (the least significant one first).
pub open spec fn bits_at(b: Seq<u8>, off: nat, width: nat) -> nat
    decreases width,
{
    if width == 0 {
        0
    } else {
        bit_of(b, off) + 2 * bits_at(b, off + 1, (width - 1) as nat)
    }
}

/// Below bit 8, the bits of `b0 + 256 r` are those of `b0`.
proof fn lemma_low_bit(b0: nat, r: nat, o: nat)
    requires
        b0 < 256,
        o < 8,
    ensures
        ((b0 + 256 * r) / pow2(o)) % 2 == (b0 / pow2(o)) % 2,
{
    lemma2_to64();
    let c = pow2(o);
    let h = pow2((7 - o) as nat);
    lemma_pow2_adds(o, 1);
    lemma_pow2_adds(o + 1, (7 - o) as nat);
    assert(o + 1 + (7 - o) as nat == 8);
    lemma_pow2_pos(o);
    lemma_pow2_pos((7 - o) as nat);
    let x = b0 + 256 * r;
    let a = b0 / c;
    let q = a + 2 * h * r;
    assert(256 == c * 2 * h);
    assert(c * a + b0 % c == b0) by {
        vstd::arithmetic::div_mod::lemma_fundamental_div_mod(b0 as int, c as int);
    }
    assert(x == c * q + b0 % c) by (nonlinear_arith)
        requires
            x == b0 + 256 * r,
            q == a + 2 * h * r,
            256 == c * 2 * h,
            c * a + b0 % c == b0,
    ;
    assert(0 <= b0 % c < c) by {
        vstd::arithmetic::div_mod::lemma_mod_bound(b0 as int, c as int);
    }
    lemma_fundamental_div_mod_converse(x as int, c as int, q as int, (b0 % c) as int);
    assert(q == 2 * (a / 2 + h * r) + a % 2) by (nonlinear_arith)
        requires
            q == a + 2 * h * r,
            a == 2 * (a / 2) + a % 2,
    ;
    lemma_fundamental_div_mod_converse(q as int, 2, (a / 2 + h * r) as int, (a % 2) as int);
}

/// From bit 8 on, the bits of `b0 + 256 r` are those of `r`, eight places down.
proof fn lemma_high_bits(b0: nat, r: nat, o: nat)
    requires
        b0 < 256,
        o >= 8,
    ensures
        (b0 + 256 * r) / pow2(o) == r / pow2((o - 8) as nat),
{
    lemma2_to64();
    lemma_pow2_adds(8, (o - 8) as nat);
    lemma_pow2_pos((o - 8) as nat);
    lemma_div_denominator((b0 + 256 * r) as int, 256, pow2((o - 8) as nat) as int);
    assert((b0 + 256 * r) / 256 == r);
}

/// Halving a little-endian number `o` times and taking the last bit reads
/// bit `o` of its bytes.
proof fn lemma_le_bit(s: Seq<u8>, o: nat)
    requires
        o < 8 * s.len(),
    ensures
        (le_value(s) / pow2(o)) % 2 == bit_of(s, o),
    decreases o,
{
    let r = le_value(s.drop_first());
    assert(le_value(s) == s[0] as nat + 256 * r);
    if o >= 8 {
        lemma_high_bits(s[0] as nat, r, o);
        lemma_le_bit(s.drop_first(), (o - 8) as nat);
        assert((o - 8) as nat / 8 == o / 8 - 1);
        assert((o - 8) as nat % 8 == o % 8);
        assert(s.drop_first()[((o - 8) as nat / 8) as int] == s[(o / 8) as int]);
    } else {
        lemma_low_bit(s[0] as nat, r, o);
        assert(o / 8 == 0);
        assert(o % 8 == o);
    }
}

/// A field of a little-endian word reads the same bits of its bytes.
proof fn lemma_le_bits(s: Seq<u8>, o: nat, w: nat)
    requires
        o + w <= 8 * s.len(),
    ensures
        (le_value(s) / pow2(o)) % pow2(w) == bits_at(s, o, w),
    decreases w,
{
    lemma_pow2_pos(o);
    if w == 0 {
        lemma2_to64();
    } else {
        let v = le_value(s) / pow2(o);
        lemma_pow2_adds(1, (w - 1) as nat);
        lemma_pow2_pos((w - 1) as nat);
        lemma2_to64();
        lemma_mod_breakdown(v as int, 2, pow2((w - 1) as nat) as int);
        lemma_div_denominator(le_value(s) as int, pow2(o) as int, 2);
        lemma_pow2_adds(o, 1);
        lemma_le_bit(s, o);
        lemma_le_bits(s, o + 1, (w - 1) as nat);
    }
}

/// Bits of a sub-run are the bits of the whole run, shifted by its start.
proof fn lemma_bits_of_subrange(b: Seq<u8>, a: nat, k: nat, o: nat, w: nat)
    requires
        a + k <= b.len(),
        o + w <= 8 * k,
    ensures
        bits_at(b.subrange(a as int, (a + k) as int), o, w) == bits_at(b, 8 * a + o, w),
    decreases w,
{
    if w > 0 {
        assert((8 * a + o) / 8 == a + o / 8);
        assert((8 * a + o) % 8 == o % 8);
        lemma_bits_of_subrange(b, a, k, o + 1, (w - 1) as nat);
        assert(8 * a + (o + 1) == (8 * a + o) + 1);
    }
}

/// A field of the little-endian word of `k` bytes at byte `a`, `w` bits
/// wide at bit `o` of the word, is the run's `w` bits at bit `8 a + o`.
pub proof fn lemma_word_bits(b: Seq<u8>, a: nat, k: nat, o: nat, w: nat)
    requires
        a + k <= b.len(),
        o + w <= 8 * k,
    ensures
        (le_value(b.subrange(a as int, (a + k) as int)) / pow2(o)) % pow2(w) == bits_at(b, 8 * a + o, w),
        bits_at(b, 8 * a + o, w) < pow2(w),
{
    let s = b.subrange(a as int, (a + k) as int);
    lemma_le_bits(s, o, w);
    lemma_bits_of_subrange(b, a, k, o, w);
    lemma_pow2_pos(w);
}

/// 256 to the power `k` is 2 to the power `8 k`.
pub proof fn lemma_pow256_pow2(k: nat)
    ensures
        pow256(k) == pow2(8 * k),
    decreases k,
{
    lemma2_to64();
    if k > 0 {
        lemma_pow256_pow2((k - 1) as nat);
        lemma_pow2_adds(8, 8 * (k - 1) as nat);
        assert(8 + 8 * (k - 1) as nat == 8 * k);
    }
}

/// The little-endian word of `k` bytes at byte `a`: one byte is itself, two
/// bytes are the first plus 256 times the second, and any word is below
/// 2 to the power of its bits.
pub proof fn lemma_le_word(b: Seq<u8>, a: nat, k: nat)
    requires
        a + k <= b.len(),
    ensures
        k == 1 ==> le_value(b.subrange(a as int, (a + k) as int)) == b[a as int],
        k == 2 ==> le_value(b.subrange(a as int, (a + k) as int)) == b[a as int] + 256 * b[a + 1int],
        le_value(b.subrange(a as int, (a + k) as int)) < pow2(8 * k),
{
    let s = b.subrange(a as int, (a + k) as int);
    reveal_with_fuel(le_value, 3);
    if k == 1 {
        assert(s.drop_first().len() == 0);
    }
    if k == 2 {
        assert(s.drop_first().drop_first().len() == 0);
        assert(s.drop_first()[0] == b[a + 1int]);
    }
    lemma_le_value_bound(s);
    lemma_pow256_pow2(k);
}

}
