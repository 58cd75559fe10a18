//! Big-endian integers and byte strings.

use vstd::prelude::*;

verus! {

/// Two bytes, most significant first.
pub open spec fn be16(v: u16) -> Seq<u8> {
    seq![(v / 256) as u8, (v % 256) as u8]
}

/// Four bytes, most significant first.
pub open spec fn be32(v: u32) -> Seq<u8> {
    seq![
        (v / 0x100_0000) as u8,
        (v / 0x1_0000 % 256) as u8,
        (v / 0x100 % 256) as u8,
        (v % 256) as u8,
    ]
}

/// Eight bytes, most significant first.
pub open spec fn be64(v: u64) -> Seq<u8> {
    be32((v / 0x1_0000_0000) as u32) + be32((v % 0x1_0000_0000) as u32)
}

/// The number that two big-endian bytes at `at` stand for.
pub open spec fn of_be16(s: Seq<u8>, at: int) -> int {
    s[at] * 256 + s[at + 1]
}

/// The number that four big-endian bytes at `at` stand for.
pub open spec fn of_be32(s: Seq<u8>, at: int) -> int {
    s[at] * 0x100_0000 + s[at + 1] * 0x1_0000 + s[at + 2] * 0x100 + s[at + 3]
}

/// The number that eight big-endian bytes at `at` stand for.
pub open spec fn of_be64(s: Seq<u8>, at: int) -> int {
    of_be32(s, at) * 0x1_0000_0000 + of_be32(s, at + 4)
}

/// Reading back the two bytes that `be16` writes gives the number.
pub proof fn be16_reads_back(v: u16)
    ensures
        be16(v).len() == 2,
        of_be16(be16(v), 0) == v,
{
}

/// Reading back the four bytes that `be32` writes gives the number.
pub proof fn be32_reads_back(v: u32)
    ensures
        be32(v).len() == 4,
        of_be32(be32(v), 0) == v,
{
}

/// Reading back the eight bytes that `be64` writes gives the number.
pub proof fn be64_reads_back(v: u64)
    ensures
        be64(v).len() == 8,
        of_be64(be64(v), 0) == v,
{
    let hi = (v / 0x1_0000_0000) as u32;
    let lo = (v % 0x1_0000_0000) as u32;
    be32_reads_back(hi);
    be32_reads_back(lo);
    assert(be64(v)[4] == be32(lo)[0]);
    assert(be64(v)[5] == be32(lo)[1]);
    assert(be64(v)[6] == be32(lo)[2]);
    assert(be64(v)[7] == be32(lo)[3]);
}

/// Two bytes are the big-endian form of the number they stand for.
pub proof fn be16_writes_back(s: Seq<u8>, at: int)
    requires
        0 <= at <= s.len() - 2,
    ensures
        0 <= of_be16(s, at) <= u16::MAX,
        be16(of_be16(s, at) as u16) == s.subrange(at, at + 2),
{
    assert(be16(of_be16(s, at) as u16) =~= s.subrange(at, at + 2));
}

/// Four bytes are the big-endian form of the number they stand for.
pub proof fn be32_writes_back(s: Seq<u8>, at: int)
    requires
        0 <= at <= s.len() - 4,
    ensures
        0 <= of_be32(s, at) <= u32::MAX,
        be32(of_be32(s, at) as u32) == s.subrange(at, at + 4),
{
    be32_digits(s[at] as int, s[at + 1] as int, s[at + 2] as int, s[at + 3] as int);
    assert(be32(of_be32(s, at) as u32) =~= s.subrange(at, at + 4));
}

proof fn be32_digits(a: int, b: int, c: int, d: int)
    requires
        0 <= a < 256,
        0 <= b < 256,
        0 <= c < 256,
        0 <= d < 256,
    ensures
        ({
            let v = a * 0x100_0000 + b * 0x1_0000 + c * 0x100 + d;
            &&& v / 0x100_0000 == a
            &&& v / 0x1_0000 % 256 == b
            &&& v / 0x100 % 256 == c
            &&& v % 256 == d
        }),
{
    let v = a * 0x100_0000 + b * 0x1_0000 + c * 0x100 + d;
    assert(v / 0x1_0000 == a * 256 + b);
    assert(v / 0x100 == a * 0x1_0000 + b * 256 + c);
}

/// Eight bytes are the big-endian form of the number they stand for.
pub proof fn be64_writes_back(s: Seq<u8>, at: int)
    requires
        0 <= at <= s.len() - 8,
    ensures
        0 <= of_be64(s, at) <= u64::MAX,
        be64(of_be64(s, at) as u64) == s.subrange(at, at + 8),
{
    be32_writes_back(s, at);
    be32_writes_back(s, at + 4);
    let v = of_be64(s, at) as u64;
    assert(v / 0x1_0000_0000 == of_be32(s, at));
    assert(v % 0x1_0000_0000 == of_be32(s, at + 4));
    assert(be64(v) =~= s.subrange(at, at + 8));
}

/// Appends `v` as four big-endian bytes.
pub fn push_be32(out: &mut Vec<u8>, v: u32)
    ensures
        final(out)@ == old(out)@ + be32(v),
{
    out.push((v / 0x100_0000) as u8);
    out.push((v / 0x1_0000 % 256) as u8);
    out.push((v / 0x100 % 256) as u8);
    out.push((v % 256) as u8);
    assert(out@ =~= old(out)@ + be32(v));
}

/// Appends `v` as two big-endian bytes.
pub fn push_be16(out: &mut Vec<u8>, v: u16)
    ensures
        final(out)@ == old(out)@ + be16(v),
{
    out.push((v / 256) as u8);
    out.push((v % 256) as u8);
    assert(out@ =~= old(out)@ + be16(v));
}

/// Appends `v` as eight big-endian bytes.
pub fn push_be64(out: &mut Vec<u8>, v: u64)
    ensures
        final(out)@ == old(out)@ + be64(v),
{
    push_be32(out, (v / 0x1_0000_0000) as u32);
    push_be32(out, (v % 0x1_0000_0000) as u32);
    assert(out@ =~= old(out)@ + be64(v));
}

/// Appends all of `more`.
pub fn append_bytes(out: &mut Vec<u8>, more: &[u8])
    ensures
        final(out)@ == old(out)@ + more@,
{
    out.extend_from_slice(more);
    assert(out@ =~= old(out)@ + more@);
}

/// The big-endian number in the two bytes from `at` on.
pub fn read_be16(b: &[u8], at: usize) -> (v: u16)
    requires
        at + 2 <= b.len(),
    ensures
        v == of_be16(b@, at as int),
{
    b[at] as u16 * 256 + b[at + 1] as u16
}

/// The big-endian number in the four bytes from `at` on.
pub fn read_be32(b: &[u8], at: usize) -> (v: u32)
    requires
        at + 4 <= b.len(),
    ensures
        v == of_be32(b@, at as int),
{
    b[at] as u32 * 0x100_0000 + b[at + 1] as u32 * 0x1_0000 + b[at + 2] as u32 * 0x100
        + b[at + 3] as u32
}

/// The big-endian number in the eight bytes from `at` on.
pub fn read_be64(b: &[u8], at: usize) -> (v: u64)
    requires
        at + 8 <= b.len(),
    ensures
        v == of_be64(b@, at as int),
{
    let hi: u32 = read_be32(b, at);
    let lo: u32 = read_be32(b, at + 4);
    hi as u64 * 0x1_0000_0000 + lo as u64
}

/// Whether two byte strings hold the same bytes.
pub fn same_bytes(a: &[u8], b: &[u8]) -> (same: bool)
    ensures
        same == (a@ == b@),
{
    if a.len() != b.len() {
        return false;
    }
    let mut i: usize = 0;
    while i < a.len()
        invariant
            i <= a.len(),
            a.len() == b.len(),
            forall|k: int| 0 <= k < i ==> a@[k] == b@[k],
        decreases a.len() - i,
    {
        if a[i] != b[i] {
            return false;
        }
        i = i + 1;
    }
    assert(a@ =~= b@);
    true
}

/// The lexicographic order of byte strings: `a` comes first, or they are
/// equal.
pub open spec fn lex_le(a: Seq<u8>, b: Seq<u8>) -> bool
    decreases a.len(),
{
    if a.len() == 0 {
        true
    } else if b.len() == 0 {
        false
    } else if a[0] != b[0] {
        a[0] < b[0]
    } else {
        lex_le(a.drop_first(), b.drop_first())
    }
}

/// Of two byte strings one comes first; both do only if they are equal.
pub proof fn lex_le_total(a: Seq<u8>, b: Seq<u8>)
    ensures
        lex_le(a, b) || lex_le(b, a),
        lex_le(a, b) && lex_le(b, a) ==> a == b,
    decreases a.len(),
{
    if a.len() > 0 && b.len() > 0 && a[0] == b[0] {
        lex_le_total(a.drop_first(), b.drop_first());
        if a.drop_first() == b.drop_first() {
            assert(a =~= seq![a[0]] + a.drop_first());
            assert(b =~= seq![b[0]] + b.drop_first());
        }
    } else if a.len() == 0 && b.len() == 0 {
        assert(a =~= b);
    }
}

/// Whether `a` comes before `b` in lexicographic order, or equals it.
pub fn bytes_le(a: &[u8], b: &[u8]) -> (le: bool)
    ensures
        le == lex_le(a@, b@),
{
    let mut i: usize = 0;
    assert(a@.skip(0) =~= a@);
    assert(b@.skip(0) =~= b@);
    while i < a.len() && i < b.len() && a[i] == b[i]
        invariant
            i <= a.len(),
            i <= b.len(),
            lex_le(a@, b@) == lex_le(a@.skip(i as int), b@.skip(i as int)),
        decreases a.len() - i,
    {
        assert(a@.skip(i as int).drop_first() =~= a@.skip(i + 1));
        assert(b@.skip(i as int).drop_first() =~= b@.skip(i + 1));
        i = i + 1;
    }
    if i >= a.len() {
        true
    } else if i >= b.len() {
        false
    } else {
        a[i] < b[i]
    }
}

/// The bytes of `s` as an array, or `None` where the length differs.
pub fn to_array<const N: usize>(s: &[u8]) -> (out: Option<[u8; N]>)
    ensures
        out is Some <==> s@.len() == N,
        out matches Some(a) ==> a@ == s@,
{
    if s.len() != N {
        return None;
    }
    let mut a: [u8; N] = [0u8; N];
    let mut i: usize = 0;
    while i < N
        invariant
            i <= N,
            s@.len() == N,
            a@.len() == N,
            forall|k: int| 0 <= k < i ==> a@[k] == s@[k],
        decreases N - i,
    {
        a[i] = s[i];
        i = i + 1;
    }
    assert(a@ =~= s@);
    Some(a)
}

// ---------------------------------------------------------------------------
// Order

/// Whether two byte strings are alike up to a place where the first has the
/// lesser byte.
pub open spec fn less_at(a: Seq<u8>, b: Seq<u8>, at: int) -> bool {
    &&& 0 <= at < a.len()
    &&& at < b.len()
    &&& forall|i: int| 0 <= i < at ==> a[i] == b[i]
    &&& a[at] < b[at]
}

/// The first byte in which two byte strings differ decides which comes first;
/// where one ends before that, it comes first.
pub proof fn the_first_difference_decides(a: Seq<u8>, b: Seq<u8>, at: int)
    ensures
        less_at(a, b, at) ==> lex_le(a, b) && !lex_le(b, a),
        a.len() < b.len() && a == b.take(a.len() as int) ==> lex_le(a, b) && !lex_le(b, a),
        lex_le(a, a),
    decreases a.len(),
{
    if a.len() > 0 {
        let a1 = a.drop_first();
        let b1 = b.drop_first();
        the_first_difference_decides(a1, b1, at - 1);
        if less_at(a, b, at) && at > 0 {
            assert(a[0] == b[0]);
            assert forall|i: int| 0 <= i < at - 1 implies a1[i] == b1[i] by {
                assert(a[i + 1] == b[i + 1]);
            }
            assert(less_at(a1, b1, at - 1));
        }
        if a.len() < b.len() && a == b.take(a.len() as int) {
            assert(b[0] == b.take(a.len() as int)[0]);
            assert(a1 =~= b1.take(a1.len() as int));
        }
    }
}

/// Two bytes stand in the order of the numbers that they stand for.
pub proof fn be16_keeps_the_order(v: u16, w: u16)
    requires
        v < w,
    ensures
        exists|at: int| #[trigger] less_at(be16(v), be16(w), at),
{
    let at: int = if v / 256 != w / 256 {
        0
    } else {
        1
    };
    assert(less_at(be16(v), be16(w), at));
}

/// Four bytes stand in the order of the numbers that they stand for.
pub proof fn be32_keeps_the_order(v: u32, w: u32)
    requires
        v < w,
    ensures
        exists|at: int| #[trigger] less_at(be32(v), be32(w), at),
{
    let a = be32(v);
    let b = be32(w);
    be32_reads_back(v);
    be32_reads_back(w);
    let at: int = if a[0] != b[0] {
        0
    } else if a[1] != b[1] {
        1
    } else if a[2] != b[2] {
        2
    } else {
        3
    };
    digits_decide(
        a[0] as int,
        a[1] as int,
        a[2] as int,
        a[3] as int,
        b[0] as int,
        b[1] as int,
        b[2] as int,
        b[3] as int,
    );
    assert(less_at(a, b, at));
}

proof fn digits_decide(a: int, b: int, c: int, d: int, e: int, f: int, g: int, h: int)
    requires
        0 <= a < 256 && 0 <= b < 256 && 0 <= c < 256 && 0 <= d < 256,
        0 <= e < 256 && 0 <= f < 256 && 0 <= g < 256 && 0 <= h < 256,
        a * 0x100_0000 + b * 0x1_0000 + c * 0x100 + d < e * 0x100_0000 + f * 0x1_0000 + g * 0x100
            + h,
    ensures
        a < e || (a == e && (b < f || (b == f && (c < g || (c == g && d < h))))),
{
}

/// Eight bytes stand in the order of the numbers that they stand for.
pub proof fn be64_keeps_the_order(v: u64, w: u64)
    requires
        v < w,
    ensures
        exists|at: int| #[trigger] less_at(be64(v), be64(w), at),
{
    let v_hi = (v / 0x1_0000_0000) as u32;
    let w_hi = (w / 0x1_0000_0000) as u32;
    let v_lo = (v % 0x1_0000_0000) as u32;
    let w_lo = (w % 0x1_0000_0000) as u32;
    if v_hi < w_hi {
        be32_keeps_the_order(v_hi, w_hi);
        let at = choose|at: int| #[trigger] less_at(be32(v_hi), be32(w_hi), at);
        assert(less_at(be64(v), be64(w), at));
    } else {
        assert(v_hi == w_hi);
        be32_keeps_the_order(v_lo, w_lo);
        let at = choose|at: int| #[trigger] less_at(be32(v_lo), be32(w_lo), at);
        assert forall|i: int| 0 <= i < at + 4 implies be64(v)[i] == be64(w)[i] by {
            if i >= 4 {
                assert(be64(v)[i] == be32(v_lo)[i - 4]);
                assert(be64(w)[i] == be32(w_lo)[i - 4]);
            }
        }
        assert(be64(v)[at + 4] == be32(v_lo)[at]);
        assert(be64(w)[at + 4] == be32(w_lo)[at]);
        assert(less_at(be64(v), be64(w), at + 4));
    }
}

} // verus!
