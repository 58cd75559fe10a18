//! Decimal and hexadecimal text, written and read.

use vstd::prelude::*;

verus! {

/// Whether two strings hold the same text.
pub fn same_text(a: &str, b: &str) -> (same: bool)
    ensures
        same == (a@ == b@),
{
    a.to_owned() == b.to_owned()
}

/// The decimal digit for `n`, which is below ten.
pub open spec fn digit(n: int) -> char {
    (48 + n) as char
}

/// `n` in decimal, without leading zeros.
pub open spec fn decimal(n: nat) -> Seq<char>
    decreases n,
{
    if n < 10 {
        seq![digit(n as int)]
    } else {
        decimal(n / 10).push(digit((n % 10) as int))
    }
}

fn digit_text(d: u64) -> (t: &'static str)
    requires
        d < 10,
    ensures
        t@ == seq![digit(d as int)],
{
    let t: &'static str = if d == 0 {
        "0"
    } else if d == 1 {
        "1"
    } else if d == 2 {
        "2"
    } else if d == 3 {
        "3"
    } else if d == 4 {
        "4"
    } else if d == 5 {
        "5"
    } else if d == 6 {
        "6"
    } else if d == 7 {
        "7"
    } else if d == 8 {
        "8"
    } else {
        "9"
    };
    proof {
        reveal_strlit("0");
        reveal_strlit("1");
        reveal_strlit("2");
        reveal_strlit("3");
        reveal_strlit("4");
        reveal_strlit("5");
        reveal_strlit("6");
        reveal_strlit("7");
        reveal_strlit("8");
        reveal_strlit("9");
        assert(t@ =~= seq![digit(d as int)]);
    }
    t
}

/// Appends `n` in decimal.
pub fn push_decimal(out: &mut String, n: u64)
    ensures
        final(out)@ == old(out)@ + decimal(n as nat),
    decreases n,
{
    if n >= 10 {
        push_decimal(out, n / 10);
    }
    out.append(digit_text(n % 10));
    assert(out@ =~= old(out)@ + decimal(n as nat));
}

/// Appends a wide `n` in decimal.
pub fn push_wide(out: &mut String, n: u128)
    ensures
        final(out)@ == old(out)@ + decimal(n as nat),
    decreases n,
{
    if n >= 10 {
        push_wide(out, n / 10);
    }
    out.append(digit_text((n % 10) as u64));
    assert(out@ =~= old(out)@ + decimal(n as nat));
}

/// The hexadecimal digit for `n`, which is below sixteen, in lower case.
pub open spec fn hex_digit(n: int) -> char {
    if n < 10 {
        (48 + n) as char
    } else {
        (87 + n) as char
    }
}

/// Two lower-case hexadecimal digits per byte, in order.
pub open spec fn hex(bytes: Seq<u8>) -> Seq<char> {
    Seq::new(
        2 * bytes.len(),
        |i: int|
            hex_digit(
                if i % 2 == 0 {
                    bytes[i / 2] as int / 16
                } else {
                    bytes[i / 2] as int % 16
                },
            ),
    )
}

fn hex_digit_text(d: u8) -> (t: &'static str)
    requires
        d < 16,
    ensures
        t@ == seq![hex_digit(d as int)],
{
    if d < 10 {
        return digit_text(d as u64);
    }
    let t: &'static str = if d == 10 {
        "a"
    } else if d == 11 {
        "b"
    } else if d == 12 {
        "c"
    } else if d == 13 {
        "d"
    } else if d == 14 {
        "e"
    } else {
        "f"
    };
    proof {
        reveal_strlit("a");
        reveal_strlit("b");
        reveal_strlit("c");
        reveal_strlit("d");
        reveal_strlit("e");
        reveal_strlit("f");
        assert(t@ =~= seq![hex_digit(d as int)]);
    }
    t
}

/// Two lower-case hexadecimal digits per byte.
pub fn hex_text(bytes: &[u8]) -> (out: String)
    ensures
        out@ == hex(bytes@),
{
    let mut out: String = String::new();
    let mut i: usize = 0;
    while i < bytes.len()
        invariant
            i <= bytes.len(),
            out@ == hex(bytes@.take(i as int)),
        decreases bytes.len() - i,
    {
        let b: u8 = bytes[i];
        out.append(hex_digit_text(b / 16));
        out.append(hex_digit_text(b % 16));
        i = i + 1;
        assert(out@ =~= hex(bytes@.take(i as int)));
    }
    assert(bytes@.take(i as int) =~= bytes@);
    out
}

/// The last `width` decimal digits of `n`, zeros in front.
pub open spec fn padded(n: nat, width: nat) -> Seq<char>
    decreases width,
{
    if width == 0 {
        Seq::empty()
    } else {
        padded(n / 10, (width - 1) as nat).push(digit((n % 10) as int))
    }
}

/// Appends the last `width` decimal digits of `n`, zeros in front.
pub fn push_padded(out: &mut String, n: u64, width: u64)
    ensures
        final(out)@ == old(out)@ + padded(n as nat, width as nat),
    decreases width,
{
    if width > 0 {
        push_padded(out, n / 10, width - 1);
        out.append(digit_text(n % 10));
    }
    assert(out@ =~= old(out)@ + padded(n as nat, width as nat));
}

/// Padding gives exactly `width` digits.
pub proof fn padded_is_digits(n: nat, width: nat)
    ensures
        padded(n, width).len() == width,
        forall|i: int| 0 <= i < width ==> '0' <= #[trigger] padded(n, width)[i] <= '9',
    decreases width,
{
    if width > 0 {
        padded_is_digits(n / 10, (width - 1) as nat);
    }
}

/// The characters with the Unicode `White_Space` property.
pub open spec fn is_white(c: char) -> bool {
    ||| 0x9 <= c as u32 <= 0xd
    ||| c as u32 == 0x20
    ||| c as u32 == 0x85
    ||| c as u32 == 0xa0
    ||| c as u32 == 0x1680
    ||| 0x2000 <= c as u32 <= 0x200a
    ||| c as u32 == 0x2028
    ||| c as u32 == 0x2029
    ||| c as u32 == 0x202f
    ||| c as u32 == 0x205f
    ||| c as u32 == 0x3000
}

/// The text without the white space at its start.
pub open spec fn trim_start(s: Seq<char>) -> Seq<char>
    decreases s.len(),
{
    if s.len() > 0 && is_white(s[0]) {
        trim_start(s.drop_first())
    } else {
        s
    }
}

/// The text without the white space at its end.
pub open spec fn trim_end(s: Seq<char>) -> Seq<char>
    decreases s.len(),
{
    if s.len() > 0 && is_white(s.last()) {
        trim_end(s.drop_last())
    } else {
        s
    }
}

/// The text without the white space at either end.
pub open spec fn trimmed(s: Seq<char>) -> Seq<char> {
    trim_end(trim_start(s))
}

fn char_is_white(c: char) -> (white: bool)
    ensures
        white == is_white(c),
{
    let u: u32 = c as u32;
    (0x9 <= u && u <= 0xd) || u == 0x20 || u == 0x85 || u == 0xa0 || u == 0x1680 || (0x2000 <= u
        && u <= 0x200a) || u == 0x2028 || u == 0x2029 || u == 0x202f || u == 0x205f || u == 0x3000
}

/// The text without the white space at either end.
pub fn trim<'a>(s: &'a str) -> (t: &'a str)
    ensures
        t@ == trimmed(s@),
{
    let n: usize = s.unicode_len();
    let mut from: usize = 0;
    assert(s@.subrange(0, n as int) =~= s@);
    while from < n && char_is_white(s.get_char(from))
        invariant
            from <= n,
            n == s@.len(),
            trim_start(s@) == trim_start(s@.subrange(from as int, n as int)),
        decreases n - from,
    {
        assert(s@.subrange(from as int, n as int).drop_first() =~= s@.subrange(
            from + 1,
            n as int,
        ));
        from = from + 1;
    }
    let mut to: usize = n;
    while to > from && char_is_white(s.get_char(to - 1))
        invariant
            from <= to <= n,
            n == s@.len(),
            trimmed(s@) == trim_end(s@.subrange(from as int, to as int)),
        decreases to - from,
    {
        assert(s@.subrange(from as int, to as int).drop_last() =~= s@.subrange(
            from as int,
            to - 1,
        ));
        to = to - 1;
    }
    s.substring_char(from, to)
}

/// Text that neither starts nor ends in white space is left alone.
pub proof fn trimmed_is_idle(s: Seq<char>)
    requires
        s.len() > 0 ==> !is_white(s[0]) && !is_white(s.last()),
    ensures
        trimmed(s) == s,
{
}

// ---------------------------------------------------------------------------
// Reading hexadecimal text

/// The value of a hexadecimal digit, in either case.
pub open spec fn nibble(c: char) -> Option<int> {
    if '0' <= c <= '9' {
        Some(c as int - 48)
    } else if 'a' <= c <= 'f' {
        Some(c as int - 87)
    } else if 'A' <= c <= 'F' {
        Some(c as int - 55)
    } else {
        None
    }
}

/// Whether a text is made of pairs of hexadecimal digits.
pub open spec fn is_hex(s: Seq<char>) -> bool {
    s.len() % 2 == 0 && forall|i: int| 0 <= i < s.len() ==> nibble(#[trigger] s[i]) is Some
}

/// The bytes that pairs of hexadecimal digits stand for.
pub open spec fn unhex(s: Seq<char>) -> Seq<u8> {
    Seq::new(
        s.len() / 2,
        |i: int| (16 * nibble(s[2 * i])->0 + nibble(s[2 * i + 1])->0) as u8,
    )
}

/// The value of a byte as a hexadecimal digit.
pub fn nibble_of(b: u8) -> (n: Option<u8>)
    ensures
        n is Some <==> nibble(b as char) is Some,
        n matches Some(v) ==> v == nibble(b as char)->0 && v < 16,
{
    if 48 <= b && b <= 57 {
        Some(b - 48)
    } else if 97 <= b && b <= 102 {
        Some(b - 87)
    } else if 65 <= b && b <= 70 {
        Some(b - 55)
    } else {
        None
    }
}

/// The bytes of a text that is ASCII: one for each character.
pub fn ascii_bytes(s: &str) -> (b: Option<&[u8]>)
    ensures
        b is Some <==> vstd::utf8::is_ascii_chars(s@),
        b matches Some(b) ==> b@.len() == s@.len() && forall|i: int|
            0 <= i < b@.len() ==> (#[trigger] b@[i]) < 128 && b@[i] as char == s@[i],
{
    if !s.is_ascii() {
        return None;
    }
    let b: &[u8] = s.as_bytes();
    proof {
        vstd::utf8::is_ascii_chars_encode_utf8(s@);
        assert forall|i: int| 0 <= i < b@.len() implies (#[trigger] b@[i]) < 128 && b@[i] as char
            == s@[i] by {
            assert(s@[i] as u32 <= 127);
        }
    }
    Some(b)
}

/// Reads pairs of hexadecimal digits; `None` for any other text.
pub fn hex_bytes(s: &str) -> (bytes: Option<Vec<u8>>)
    ensures
        bytes is Some <==> is_hex(s@),
        bytes matches Some(b) ==> b@ == unhex(s@),
{
    let b: &[u8] = match ascii_bytes(s) {
        Some(b) => b,
        None => {
            proof {
                if is_hex(s@) {
                    assert forall|i: int| 0 <= i < s@.len() implies (#[trigger] s@[i]) as u32
                        <= 127 by {
                        assert(nibble(s@[i]) is Some);
                    }
                    assert(false);
                }
            }
            return None;
        },
    };
    if b.len() % 2 != 0 {
        return None;
    }
    let mut out: Vec<u8> = Vec::new();
    let mut i: usize = 0;
    while i < b.len()
        invariant
            b@.len() == s@.len(),
            b@.len() % 2 == 0,
            forall|k: int|
                0 <= k < b@.len() ==> (#[trigger] b@[k]) < 128 && b@[k] as char == s@[k],
            i <= b@.len(),
            i % 2 == 0,
            out@.len() == i / 2,
            forall|k: int| 0 <= k < i ==> nibble(#[trigger] s@[k]) is Some,
            forall|k: int| 0 <= k < out@.len() ==> #[trigger] out@[k] == unhex(s@)[k],
        decreases b.len() - i,
    {
        let high: u8 = match nibble_of(b[i]) {
            Some(n) => n,
            None => {
                assert(nibble(s@[i as int]) is None);
                return None;
            },
        };
        let low: u8 = match nibble_of(b[i + 1]) {
            Some(n) => n,
            None => {
                assert(nibble(s@[i + 1]) is None);
                return None;
            },
        };
        assert(b@[i as int] as char == s@[i as int]);
        assert(b@[i + 1] as char == s@[i + 1]);
        assert(unhex(s@)[i as int / 2] == (16 * high + low) as u8);
        out.push(high * 16 + low);
        i = i + 2;
    }
    assert(out@ =~= unhex(s@));
    Some(out)
}

/// What is written in hexadecimal is read back.
pub proof fn hex_reads_back(bytes: Seq<u8>)
    ensures
        is_hex(hex(bytes)),
        unhex(hex(bytes)) == bytes,
{
    let s = hex(bytes);
    assert forall|i: int| 0 <= i < s.len() implies nibble(#[trigger] s[i]) is Some by {
    }
    assert forall|i: int| 0 <= i < bytes.len() implies unhex(s)[i] == bytes[i] by {
        assert(s[2 * i] == hex_digit(bytes[i] as int / 16));
        assert(s[2 * i + 1] == hex_digit(bytes[i] as int % 16));
    }
    assert(unhex(s) =~= bytes);
}

// ---------------------------------------------------------------------------
// Reading decimal text

/// Whether a text is made of decimal digits, and not empty.
pub open spec fn is_digits(s: Seq<char>) -> bool {
    s.len() > 0 && forall|i: int| 0 <= i < s.len() ==> '0' <= #[trigger] s[i] <= '9'
}

/// The number that decimal digits stand for.
pub open spec fn undecimal(s: Seq<char>) -> nat
    decreases s.len(),
{
    if s.len() == 0 {
        0
    } else {
        10 * undecimal(s.drop_last()) + (s.last() as int - 48) as nat
    }
}

/// The digits of a number: a plus sign may come first.
pub open spec fn unsigned(s: Seq<char>) -> Seq<char> {
    if s.len() > 0 && s[0] == '+' {
        s.skip(1)
    } else {
        s
    }
}

/// The number that a text stands for, if it is one that is at most `max`.
pub open spec fn number(s: Seq<char>, max: nat) -> Option<nat> {
    if is_digits(unsigned(s)) && undecimal(unsigned(s)) <= max {
        Some(undecimal(unsigned(s)))
    } else {
        None
    }
}

proof fn undecimal_grows(s: Seq<char>, n: int)
    requires
        0 <= n <= s.len(),
        forall|i: int| 0 <= i < s.len() ==> '0' <= #[trigger] s[i] <= '9',
    ensures
        undecimal(s.take(n)) <= undecimal(s),
    decreases s.len() - n,
{
    if n < s.len() {
        undecimal_grows(s, n + 1);
        assert(s.take(n + 1).drop_last() =~= s.take(n));
    } else {
        assert(s.take(n) =~= s);
    }
}

/// Reads a number that is at most `max`.
pub fn read_number(s: &str, max: u32) -> (n: Option<u32>)
    ensures
        n is Some <==> number(s@, max as nat) is Some,
        n matches Some(v) ==> v == number(s@, max as nat)->0,
{
    let b: &[u8] = match ascii_bytes(s) {
        Some(b) => b,
        None => {
            proof {
                let u = unsigned(s@);
                if is_digits(u) {
                    assert forall|i: int| 0 <= i < s@.len() implies '\0' <= #[trigger] s@[i]
                        <= '\u{7f}' by {
                        if s@.len() > 0 && s@[0] == '+' {
                            if i > 0 {
                                assert(u[i - 1] == s@[i]);
                            }
                        } else {
                            assert(u[i] == s@[i]);
                        }
                    }
                    assert(false);
                }
            }
            return None;
        },
    };
    let start: usize = if b.len() > 0 && b[0] == 43 {
        1
    } else {
        0
    };
    let ghost u = unsigned(s@);
    assert(u =~= s@.skip(start as int)) by {
        if b@.len() > 0 {
            assert(b@[0] as char == s@[0]);
        }
    }
    if start == b.len() {
        return None;
    }
    let mut n: u64 = 0;
    let mut i: usize = start;
    assert(u.take(0) =~= Seq::empty());
    while i < b.len()
        invariant
            start <= i <= b@.len(),
            b@.len() == s@.len(),
            u == s@.skip(start as int),
            u == unsigned(s@),
            forall|k: int|
                0 <= k < b@.len() ==> (#[trigger] b@[k]) < 128 && b@[k] as char == s@[k],
            forall|k: int| 0 <= k < i - start ==> '0' <= #[trigger] u[k] <= '9',
            n == undecimal(u.take(i - start)),
            n <= max,
        decreases b.len() - i,
    {
        let d: u8 = b[i];
        assert(u[i - start] == s@[i as int]);
        assert(b@[i as int] as char == s@[i as int]);
        if d < 48 || d > 57 {
            assert(!('0' <= u[i - start] <= '9'));
            return None;
        }
        n = n * 10 + (d - 48) as u64;
        assert(u.take(i - start + 1).drop_last() =~= u.take(i - start));
        i = i + 1;
        if n > max as u64 {
            proof {
                if is_digits(u) {
                    undecimal_grows(u, i - start);
                }
            }
            return None;
        }
    }
    assert(u.take(u.len() as int) =~= u);
    Some(n as u32)
}

proof fn decimal_is_read(n: nat)
    ensures
        is_digits(decimal(n)),
        undecimal(decimal(n)) == n,
    decreases n,
{
    if n >= 10 {
        decimal_is_read(n / 10);
        assert(decimal(n).drop_last() =~= decimal(n / 10));
    } else {
        assert(decimal(n).drop_last() =~= Seq::empty());
        assert(undecimal(Seq::empty()) == 0);
    }
}

/// What is written in decimal is read back.
pub proof fn decimal_reads_back(n: nat, max: nat)
    requires
        n <= max,
    ensures
        number(decimal(n), max) == Some(n),
{
    decimal_is_read(n);
    assert('0' <= decimal(n)[0] <= '9');
}

// ---------------------------------------------------------------------------
// Splitting

/// The parts of a text between commas. There is always one.
pub open spec fn split_commas(s: Seq<char>) -> Seq<Seq<char>>
    decreases s.len(),
{
    if s.len() == 0 {
        seq![Seq::empty()]
    } else {
        let before = split_commas(s.drop_last());
        if s.last() == ',' {
            before.push(Seq::empty())
        } else {
            before.update(before.len() - 1, before.last().push(s.last()))
        }
    }
}

/// A text put together from parts, with commas between them.
pub open spec fn with_commas(parts: Seq<Seq<char>>) -> Seq<char>
    decreases parts.len(),
{
    if parts.len() == 0 {
        Seq::empty()
    } else if parts.len() == 1 {
        parts[0]
    } else {
        with_commas(parts.drop_last()).push(',') + parts.last()
    }
}

/// The parts of a text, put together again, are the text.
pub proof fn splitting_loses_nothing(s: Seq<char>)
    ensures
        split_commas(s).len() > 0,
        with_commas(split_commas(s)) == s,
    decreases s.len(),
{
    if s.len() > 0 {
        let before = split_commas(s.drop_last());
        let all = split_commas(s);
        splitting_loses_nothing(s.drop_last());
        if s.last() == ',' {
            assert(all.drop_last() =~= before);
            assert(with_commas(all) =~= s);
        } else {
            assert(all.drop_last() =~= before.drop_last());
            assert(all.last() == before.last().push(s.last()));
            assert(s =~= s.drop_last().push(s.last()));
            if all.len() > 1 {
                assert(with_commas(all) =~= with_commas(before).push(s.last()));
            }
        }
    }
}

/// The parts of a text between commas.
pub fn split_at_commas(s: &str) -> (parts: Vec<String>)
    ensures
        parts@.map_values(|p: String| p@) == split_commas(s@),
{
    let n: usize = s.unicode_len();
    let mut parts: Vec<String> = Vec::new();
    let mut start: usize = 0;
    let mut i: usize = 0;
    let ghost mut done = Seq::<Seq<char>>::empty();
    assert(s@.take(0) =~= Seq::empty());
    assert(s@.subrange(0, 0) =~= Seq::empty());
    assert(split_commas(s@.take(0)) =~= done.push(s@.subrange(0, 0)));
    while i < n
        invariant
            n == s@.len(),
            start <= i <= n,
            parts@.map_values(|p: String| p@) == done,
            split_commas(s@.take(i as int)) == done.push(s@.subrange(start as int, i as int)),
        decreases n - i,
    {
        let ghost before = s@.take(i as int);
        let ghost parts0 = parts@;
        assert(s@.take(i + 1).drop_last() =~= before);
        assert(s@.take(i + 1).last() == s@[i as int]);
        if s.get_char(i) == ',' {
            parts.push(s.substring_char(start, i).to_owned());
            proof {
                let part = s@.subrange(start as int, i as int);
                assert(parts@.map_values(|p: String| p@) =~= done.push(part));
                done = done.push(part);
            }
            start = i + 1;
            assert(s@.subrange(start as int, i + 1) =~= Seq::empty());
        } else {
            assert(s@.subrange(start as int, i + 1) =~= s@.subrange(start as int, i as int).push(
                s@[i as int],
            ));
            assert(split_commas(s@.take(i + 1)) =~= done.push(s@.subrange(start as int, i + 1)));
        }
        i = i + 1;
    }
    let ghost parts0 = parts@;
    parts.push(s.substring_char(start, n).to_owned());
    assert(s@.take(n as int) =~= s@);
    assert(parts@.map_values(|p: String| p@) =~= done.push(s@.subrange(start as int, n as int)));
    parts
}

// ---------------------------------------------------------------------------
// Laws

/// Ten to the power of `n`.
pub open spec fn ten_to(n: nat) -> nat
    decreases n,
{
    if n == 0 {
        1
    } else {
        10 * ten_to((n - 1) as nat)
    }
}

/// A number that has no more digits than it is padded to is read back.
pub proof fn padded_is_read(n: nat, width: nat)
    requires
        n < ten_to(width),
    ensures
        undecimal(padded(n, width)) == n,
    decreases width,
{
    if width > 0 {
        padded_is_read(n / 10, (width - 1) as nat);
        assert(padded(n, width).drop_last() =~= padded(n / 10, (width - 1) as nat));
    }
}

/// A byte is two of the digits `0` to `f`, its high half first.
pub proof fn hex_is_high_half_first(bytes: Seq<u8>, i: int)
    requires
        0 <= i < bytes.len(),
    ensures
        hex(bytes).len() == 2 * bytes.len(),
        hex(bytes)[2 * i] == "0123456789abcdef"@[bytes[i] as int / 16],
        hex(bytes)[2 * i + 1] == "0123456789abcdef"@[bytes[i] as int % 16],
{
    reveal_strlit("0123456789abcdef");
}

/// A digit of either case has the value of its place among the sixteen; no other
/// character has one.
pub proof fn digits_have_the_value_of_their_place(c: char)
    ensures
        forall|n: int|
            0 <= n < 16 && (#[trigger] "0123456789abcdef"@[n] == c || "0123456789ABCDEF"@[n] == c)
                ==> nibble(c) == Some(n),
        nibble(c) matches Some(n) ==> 0 <= n < 16 && ("0123456789abcdef"@[n] == c
            || "0123456789ABCDEF"@[n] == c),
{
    reveal_strlit("0123456789abcdef");
    reveal_strlit("0123456789ABCDEF");
}

/// Numbers are decimal: appending a digit is ten times the number and the digit.
/// Anything but digits, behind one plus sign or none, is no number, and neither is
/// one that is too large.
pub proof fn numbers_are_decimal(s: Seq<char>, max: nat, d: nat)
    requires
        d < 10,
    ensures
        number(s.push((48 + d) as char), max) matches Some(n) ==> {
            &&& n <= max
            &&& s.len() > 0 && s != seq!['+'] ==> number(s, max) is Some && n == 10 * number(
                s,
                max,
            )->0 + d
            &&& s.len() == 0 || s == seq!['+'] ==> n == d
        },
        number(s, max) is Some && 10 * number(s, max)->0 + d <= max ==> number(
            s.push((48 + d) as char),
            max,
        ) is Some,
        number(Seq::empty(), max) is None,
        forall|i: int|
            0 <= i < s.len() && !('0' <= #[trigger] s[i] <= '9') && !(i == 0 && s[i] == '+')
                ==> number(s, max) is None,
{
    let t = s.push((48 + d) as char);
    let u = unsigned(s);
    let v = unsigned(t);
    if s.len() > 0 {
        assert(v =~= u.push((48 + d) as char));
        assert(v.drop_last() =~= u);
        assert(is_digits(v) && u.len() > 0 ==> is_digits(u)) by {
            assert forall|i: int| 0 <= i < u.len() && is_digits(v) implies '0' <= #[trigger] u[i]
                <= '9' by {
                assert(u[i] == v[i]);
            }
        }
        if u.len() == 0 {
            assert(s =~= seq!['+']);
        }
    } else {
        assert(v =~= seq![(48 + d) as char]);
        assert(v.drop_last() =~= Seq::empty());
    }
    assert(undecimal(v) == 10 * undecimal(v.drop_last()) + d);
    assert forall|i: int|
        0 <= i < s.len() && !('0' <= #[trigger] s[i] <= '9') && !(i == 0 && s[i]
            == '+') implies number(s, max) is None by {
        if s[0] == '+' {
            assert(u[i - 1] == s[i]);
        } else {
            assert(u[i] == s[i]);
        }
    }
}

/// No part between commas holds a comma, and there is one part more than commas.
pub proof fn parts_hold_no_comma(s: Seq<char>)
    ensures
        forall|i: int, j: int|
            0 <= i < split_commas(s).len() && 0 <= j < split_commas(s)[i].len()
                ==> #[trigger] split_commas(s)[i][j] != ',',
        split_commas(s).len() == s.filter(|c: char| c == ',').len() + 1,
    decreases s.len(),
{
    reveal(Seq::filter);
    if s.len() > 0 {
        parts_hold_no_comma(s.drop_last());
    }
}

/// Trimming takes white space off the two ends and nothing else.
pub proof fn trimming_takes_white_ends_off(s: Seq<char>) -> (at: (int, int))
    ensures
        0 <= at.0 <= at.1 <= s.len(),
        trimmed(s) == s.subrange(at.0, at.1),
        forall|i: int| 0 <= i < at.0 || at.1 <= i < s.len() ==> is_white(#[trigger] s[i]),
        trimmed(s).len() > 0 ==> !is_white(trimmed(s)[0]) && !is_white(trimmed(s).last()),
{
    let from = start_is_trimmed(s);
    let rest = trim_start(s);
    let to = end_is_trimmed(rest);
    assert(trimmed(s) =~= s.subrange(from, from + to));
    assert forall|i: int| 0 <= i < from || from + to <= i < s.len() implies is_white(
        #[trigger] s[i],
    ) by {
        if i >= from {
            assert(rest[i - from] == s[i]);
        }
    }
    (from, from + to)
}

proof fn start_is_trimmed(s: Seq<char>) -> (from: int)
    ensures
        0 <= from <= s.len(),
        trim_start(s) == s.skip(from),
        forall|i: int| 0 <= i < from ==> is_white(#[trigger] s[i]),
        from < s.len() ==> !is_white(s[from]),
    decreases s.len(),
{
    if s.len() > 0 && is_white(s[0]) {
        let rest = s.drop_first();
        let k = start_is_trimmed(rest);
        assert(s.skip(k + 1) =~= rest.skip(k));
        assert forall|i: int| 0 <= i < k + 1 implies is_white(#[trigger] s[i]) by {
            if i > 0 {
                assert(rest[i - 1] == s[i]);
            }
        }
        k + 1
    } else {
        assert(s.skip(0) =~= s);
        0
    }
}

proof fn end_is_trimmed(s: Seq<char>) -> (to: int)
    ensures
        0 <= to <= s.len(),
        trim_end(s) == s.take(to),
        forall|i: int| to <= i < s.len() ==> is_white(#[trigger] s[i]),
        to > 0 ==> !is_white(s[to - 1]),
    decreases s.len(),
{
    if s.len() > 0 && is_white(s.last()) {
        let rest = s.drop_last();
        let k = end_is_trimmed(rest);
        assert(s.take(k) =~= rest.take(k));
        assert forall|i: int| k <= i < s.len() implies is_white(#[trigger] s[i]) by {
            if i < rest.len() {
                assert(rest[i] == s[i]);
            }
        }
        k
    } else {
        assert(s.take(s.len() as int) =~= s);
        s.len() as int
    }
}

} // verus!
