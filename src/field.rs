//! Big-endian two's complement fields of a byte string.
use vstd::prelude::*;
use vstd::arithmetic::div_mod::{lemma_fundamental_div_mod, lemma_mod_breakdown};

verus! {

/// 256 to the power `n`: the number of values an `n`-byte field can take.
pub open spec fn radix(n: nat) -> nat
    decreases n,
{
    if n == 0 {
        1
    } else {
        256 * radix((n - 1) as nat)
    }
}

/// Unsigned value of a byte string read most significant byte first.
pub open spec fn be_uint(s: Seq<u8>) -> nat
    decreases s.len(),
{
    if s.len() == 0 {
        0
    } else {
        (be_uint(s.drop_last()) * 256 + s.last()) as nat
    }
}

/// Signed value of a byte string read most significant byte first: two's complement over
/// its whole width, so that the top bit of the first byte is the sign.
pub open spec fn be_int(s: Seq<u8>) -> int {
    if s.len() > 0 && s[0] >= 128 {
        be_uint(s) - radix(s.len())
    } else {
        be_uint(s) as int
    }
}

/// The `n` bytes, most significant first, of `v` taken modulo `radix(n)`.
pub open spec fn be_bytes(v: nat, n: nat) -> Seq<u8>
    decreases n,
{
    if n == 0 {
        seq![]
    } else {
        be_bytes(v / 256, (n - 1) as nat).push((v % 256) as u8)
    }
}

/// Whether `v` can be held by an `n`-byte two's complement field.
pub open spec fn fits_signed(v: int, n: nat) -> bool {
    -(radix(n) / 2) <= v < radix(n) / 2
}

/// The `n`-byte two's complement image of `v`, most significant byte first.
pub open spec fn be_int_bytes(v: int, n: nat) -> Seq<u8> {
    if v < 0 {
        be_bytes((v + radix(n)) as nat, n)
    } else {
        be_bytes(v as nat, n)
    }
}

pub(crate) proof fn lemma_radix_small()
    ensures
        radix(0) == 1,
        radix(1) == 256,
        radix(2) == 0x1_0000,
        radix(3) == 0x100_0000,
        radix(4) == 0x1_0000_0000,
        radix(5) == 0x100_0000_0000,
        radix(6) == 0x1_0000_0000_0000,
{
    reveal_with_fuel(radix, 7);
}

proof fn lemma_be_uint_bound(s: Seq<u8>)
    ensures
        be_uint(s) < radix(s.len()),
    decreases s.len(),
{
    if s.len() > 0 {
        let d = s.drop_last();
        lemma_be_uint_bound(d);
        let x = be_uint(d);
        let r = radix(d.len());
        assert(x * 256 + s.last() < 256 * r) by (nonlinear_arith)
            requires
                x < r,
                s.last() < 256,
        ;
    }
}

proof fn lemma_be_bytes_len(v: nat, n: nat)
    ensures
        be_bytes(v, n).len() == n,
    decreases n,
{
    if n > 0 {
        lemma_be_bytes_len(v / 256, (n - 1) as nat);
    }
}

proof fn lemma_be_uint_of_bytes(v: nat, n: nat)
    ensures
        be_uint(be_bytes(v, n)) == v % radix(n),
    decreases n,
{
    if n > 0 {
        let m = (n - 1) as nat;
        lemma_be_uint_of_bytes(v / 256, m);
        let b = be_bytes(v, n);
        assert(b.drop_last() =~= be_bytes(v / 256, m));
        assert(radix(m) > 0) by {
            lemma_radix_positive(m);
        }
        lemma_mod_breakdown(v as int, 256, radix(m) as int);
    } else {
        assert(v % 1 == 0);
    }
}

proof fn lemma_radix_positive(n: nat)
    ensures
        radix(n) > 0,
    decreases n,
{
    if n > 0 {
        lemma_radix_positive((n - 1) as nat);
    }
}

proof fn lemma_be_bytes_sign(v: nat, n: nat)
    requires
        n >= 1,
        v < radix(n),
    ensures
        (be_bytes(v, n)[0] >= 128) == (v >= radix(n) / 2),
    decreases n,
{
    lemma_be_bytes_len(v, n);
    lemma_fundamental_div_mod(v as int, 256);
    if n == 1 {
        assert(be_bytes(v, n) =~= seq![(v % 256) as u8]);
    } else {
        let m = (n - 1) as nat;
        let q = v / 256;
        let r = radix(m);
        let h = radix((m - 1) as nat);
        assert(r == 256 * h);
        assert(q < r) by (nonlinear_arith)
            requires
                v == 256 * q + v % 256,
                0 <= v % 256 < 256,
                v < 256 * r,
        ;
        lemma_be_bytes_sign(q, m);
        lemma_be_bytes_len(q, m);
        assert(be_bytes(v, n)[0] == be_bytes(q, m)[0]);
        assert((q >= r / 2) == (v >= radix(n) / 2)) by (nonlinear_arith)
            requires
                v == 256 * q + v % 256,
                0 <= v % 256 < 256,
                r == 256 * h,
                radix(n) == 256 * r,
                q >= 0,
        ;
    }
}

proof fn lemma_be_uint_leading(s: Seq<u8>)
    requires
        s.len() >= 1,
    ensures
        s[0] * radix((s.len() - 1) as nat) <= be_uint(s) < (s[0] + 1) * radix((s.len() - 1) as nat),
    decreases s.len(),
{
    if s.len() > 1 {
        let d = s.drop_last();
        lemma_be_uint_leading(d);
        let h = radix((d.len() - 1) as nat);
        let x = be_uint(d);
        let f = s[0] as int;
        assert(d[0] == s[0]);
        assert(radix((s.len() - 1) as nat) == 256 * h);
        assert(be_uint(s) == x * 256 + s.last());
        assert(f * (256 * h) <= x * 256 + s.last() < (f + 1) * (256 * h)) by (nonlinear_arith)
            requires
                f * h <= x < (f + 1) * h,
                0 <= s.last() < 256,
        ;
        assert(s[0] * radix((s.len() - 1) as nat) == f * (256 * h));
        assert((s[0] + 1) * radix((s.len() - 1) as nat) == (f + 1) * (256 * h));
    } else {
        assert(be_uint(s.drop_last()) == 0);
        assert(be_uint(s) == s[0]);
        assert(radix(0) == 1);
        assert((s.len() - 1) as nat == 0);
        assert(s[0] * radix((s.len() - 1) as nat) == s[0]);
        assert((s[0] + 1) * radix((s.len() - 1) as nat) == s[0] + 1);
    }
}

/// The value of an `n`-byte two's complement field lies in the range such a field holds.
pub proof fn lemma_be_int_range(s: Seq<u8>)
    requires
        s.len() >= 1,
    ensures
        fits_signed(be_int(s), s.len()),
{
    lemma_be_uint_leading(s);
    let h = radix((s.len() - 1) as nat);
    let f = s[0] as int;
    assert(radix(s.len()) == 256 * h);
    assert(f >= 128 ==> f * h >= 128 * h) by (nonlinear_arith);
    assert(f < 128 ==> (f + 1) * h <= 128 * h) by (nonlinear_arith)
        requires
            h >= 0,
    ;
    assert(be_uint(s) < radix(s.len())) by {
        lemma_be_uint_bound(s);
    }
}

/// An `n`-byte two's complement field reads back as the value it was written from.
pub proof fn lemma_be_int_round_trip(v: int, n: nat)
    requires
        n >= 1,
        fits_signed(v, n),
    ensures
        be_int_bytes(v, n).len() == n,
        be_int(be_int_bytes(v, n)) == v,
{
    let big = radix(n);
    let u: nat = if v < 0 {
        (v + big) as nat
    } else {
        v as nat
    };
    assert(be_int_bytes(v, n) == be_bytes(u, n));
    assert(u < big);
    lemma_be_bytes_len(u, n);
    lemma_be_uint_of_bytes(u, n);
    vstd::arithmetic::div_mod::lemma_small_mod(u, big);
    lemma_be_bytes_sign(u, n);
}

/// Reads the `len`-byte big-endian two's complement field that starts at `start`.
pub fn read_be_int(data: &[u8], start: usize, len: usize) -> (r: i64)
    requires
        1 <= len <= 6,
        start + len <= data@.len(),
    ensures
        r == be_int(data@.subrange(start as int, start + len)),
        fits_signed(r as int, len as nat),
{
    proof {
        lemma_be_int_range(data@.subrange(start as int, start + len));
    }
    let total: usize = data.len();
    assert(start + len <= total);
    let end: usize = start + len;
    let mut acc: u64 = 0;
    let mut scale: u64 = 1;
    let mut i: usize = start;
    while i < end
        invariant
            start <= i <= end,
            end == start + len,
            end <= data@.len(),
            len <= 6,
            acc == be_uint(data@.subrange(start as int, i as int)),
            scale == radix((i - start) as nat),
            acc < scale,
        decreases end - i,
    {
        proof {
            lemma_radix_small();
        }
        let ghost prefix = data@.subrange(start as int, i + 1);
        assert(prefix.drop_last() =~= data@.subrange(start as int, i as int));
        assert(scale <= 0x100_0000_0000);
        let b = data[i];
        assert(acc * 256 + b < scale * 256) by (nonlinear_arith)
            requires
                acc < scale,
                b < 256,
        ;
        assert(scale * 256 <= 0x1_0000_0000_0000);
        assert(acc * 256 <= 0x1_0000_0000_0000);
        acc = acc * 256 + b as u64;
        scale = scale * 256;
        i += 1;
        assert(scale == radix((i - start) as nat));
    }
    proof {
        lemma_radix_small();
    }
    assert(data@.subrange(start as int, end as int)[0] == data@[start as int]);
    if data[start] >= 128 {
        acc as i64 - scale as i64
    } else {
        acc as i64
    }
}

} // verus!
