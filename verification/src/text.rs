//! Building display and log text: decimal and hexadecimal numbers, padding,
//! and clipping long names.

use vstd::prelude::*;

verus! {

/// Appends one character (`String::push`).
#[verifier::external_body]
pub(crate) fn push_char(s: &mut String, c: char)
    ensures
        final(s)@ == old(s)@.push(c),
{
    s.push(c)
}

/// Appends a string slice.
pub fn push_str(s: &mut String, t: &str)
    ensures
        final(s)@ == old(s)@ + t@,
{
    s.append(t);
}

/// The ASCII digit for a value below 16 (upper-case letters past 9).
pub open spec fn digit_char(d: int) -> char {
    if d < 10 {
        (48 + d) as char
    } else {
        (55 + d) as char
    }
}

/// Decimal digits of `n` without leading zeros.
pub open spec fn decimal(n: nat) -> Seq<char>
    decreases n,
{
    if n < 10 {
        seq![digit_char(n as int)]
    } else {
        decimal(n / 10).push(digit_char((n % 10) as int))
    }
}

/// Upper-case hexadecimal digits of `n` without leading zeros.
pub open spec fn hexadecimal(n: nat) -> Seq<char>
    decreases n,
{
    if n < 16 {
        seq![digit_char(n as int)]
    } else {
        hexadecimal(n / 16).push(digit_char((n % 16) as int))
    }
}

/// `s` right-aligned in `width` columns, filled on the left with `fill`.
pub open spec fn pad_left(s: Seq<char>, width: nat, fill: char) -> Seq<char> {
    if s.len() >= width {
        s
    } else {
        Seq::new((width - s.len()) as nat, |i: int| fill) + s
    }
}

/// `s` left-aligned in `width` columns, filled on the right with spaces.
pub open spec fn pad_right(s: Seq<char>, width: nat) -> Seq<char> {
    if s.len() >= width {
        s
    } else {
        s + Seq::new((width - s.len()) as nat, |i: int| ' ')
    }
}

/// Decimal text of a signed number.
pub open spec fn signed_decimal(n: int) -> Seq<char> {
    if n < 0 {
        seq!['-'] + decimal((-n) as nat)
    } else {
        decimal(n as nat)
    }
}

fn digit(d: u64) -> (c: char)
    requires
        d < 16,
    ensures
        c == digit_char(d as int),
{
    if d < 10 {
        ((48 + d) as u8) as char
    } else {
        ((55 + d) as u8) as char
    }
}

pub proof fn lemma_decimal_len(n: nat)
    ensures
        decimal(n).len() >= 1,
    decreases n,
{
    if n >= 10 {
        lemma_decimal_len(n / 10);
    }
}

/// The number a string of decimal digits spells, most significant first.
pub open spec fn digits_value(s: Seq<char>) -> int
    decreases s.len(),
{
    if s.len() == 0 {
        0
    } else {
        digits_value(s.drop_last()) * 10 + (s.last() as int - 48)
    }
}

/// `10^k`.
pub open spec fn pow10(k: nat) -> nat
    decreases k,
{
    if k == 0 {
        1
    } else {
        10 * pow10((k - 1) as nat)
    }
}

/// The decimal digits of `n` spell `n`.
pub proof fn lemma_decimal_value(n: nat)
    ensures
        digits_value(decimal(n)) == n,
    decreases n,
{
    let s = decimal(n);
    if n < 10 {
        assert(s.drop_last() =~= Seq::<char>::empty());
        assert(digits_value(Seq::<char>::empty()) == 0);
        assert(s.last() == (48 + n) as char);
        assert(((48 + n) as char) as int == 48 + n);
    } else {
        lemma_decimal_value(n / 10);
        assert(s.drop_last() =~= decimal(n / 10));
        assert(s.last() == (48 + n % 10) as char);
        assert(((48 + n % 10) as char) as int == 48 + n % 10);
        assert(digits_value(s) == digits_value(decimal(n / 10)) * 10 + n % 10);
    }
}

/// A number below `10^k` has at most `k` decimal digits.
pub proof fn lemma_decimal_fits(n: nat, k: nat)
    requires
        k >= 1,
        n < pow10(k),
    ensures
        decimal(n).len() <= k,
    decreases n,
{
    if n >= 10 {
        assert(k >= 2) by {
            if k == 1 {
                assert(pow10(1) == 10 * pow10(0));
            }
        }
        assert(pow10(k) == 10 * pow10((k - 1) as nat));
        lemma_decimal_fits(n / 10, (k - 1) as nat);
    }
}

/// Leading zeros do not change what digits spell.
pub proof fn lemma_zeros_value(k: nat, s: Seq<char>)
    ensures
        digits_value(Seq::new(k, |i: int| '0') + s) == digits_value(s),
    decreases s.len(), k,
{
    let z = Seq::new(k, |i: int| '0');
    if s.len() == 0 {
        assert(z + s =~= z);
        if k > 0 {
            assert(z.drop_last() =~= Seq::new((k - 1) as nat, |i: int| '0'));
            lemma_zeros_value((k - 1) as nat, s);
            assert(Seq::new((k - 1) as nat, |i: int| '0') + s =~= Seq::new((k - 1) as nat, |i: int| '0'));
        }
    } else {
        assert((z + s).drop_last() =~= z + s.drop_last());
        lemma_zeros_value(k, s.drop_last());
    }
}

/// Appends the decimal digits of `n`.
pub fn push_decimal(out: &mut String, n: u64)
    ensures
        final(out)@ == old(out)@ + decimal(n as nat),
    decreases n,
{
    if n >= 10 {
        push_decimal(out, n / 10);
    }
    push_char(out, digit(n % 10));
    proof {
        if n >= 10 {
            assert(decimal(n as nat) == decimal((n / 10) as nat).push(digit_char((n % 10) as int)));
        }
    }
    assert(final(out)@ =~= old(out)@ + decimal(n as nat));
}

/// Appends the upper-case hexadecimal digits of `n`.
pub fn push_hex(out: &mut String, n: u64)
    ensures
        final(out)@ == old(out)@ + hexadecimal(n as nat),
    decreases n,
{
    if n >= 16 {
        push_hex(out, n / 16);
    }
    push_char(out, digit(n % 16));
    assert(final(out)@ =~= old(out)@ + hexadecimal(n as nat));
}

/// Decimal text of `n` as a new string.
pub fn decimal_string(n: u64) -> (s: String)
    ensures
        s@ == decimal(n as nat),
{
    let mut s = String::new();
    push_decimal(&mut s, n);
    assert(s@ =~= decimal(n as nat));
    s
}

/// Appends `count` copies of `fill`.
pub fn push_repeat(out: &mut String, fill: char, count: usize)
    ensures
        final(out)@ == old(out)@ + Seq::new(count as nat, |i: int| fill),
{
    let mut k: usize = 0;
    while k < count
        invariant
            k <= count,
            out@ == old(out)@ + Seq::new(k as nat, |i: int| fill),
        decreases count - k,
    {
        push_char(out, fill);
        k = k + 1;
        assert(out@ =~= old(out)@ + Seq::new(k as nat, |i: int| fill));
    }
}

/// Appends `digits` right-aligned in `width` columns.
pub fn push_padded_left(out: &mut String, digits: &str, width: usize, fill: char)
    ensures
        final(out)@ == old(out)@ + pad_left(digits@, width as nat, fill),
{
    let n = digits.unicode_len();
    if n < width {
        push_repeat(out, fill, width - n);
    }
    push_str(out, digits);
    assert(final(out)@ =~= old(out)@ + pad_left(digits@, width as nat, fill));
}

/// Appends `s` left-aligned in `width` columns.
pub fn push_padded_right(out: &mut String, s: &str, width: usize)
    ensures
        final(out)@ == old(out)@ + pad_right(s@, width as nat),
{
    let n = s.unicode_len();
    push_str(out, s);
    if n < width {
        push_repeat(out, ' ', width - n);
    }
    assert(final(out)@ =~= old(out)@ + pad_right(s@, width as nat));
}

/// Appends the decimal digits of `n`, zero-filled to at least `width` digits
/// (the `{:0width$}` format).
pub fn push_decimal_zero_padded(out: &mut String, n: u64, width: usize)
    ensures
        final(out)@ == old(out)@ + pad_left(decimal(n as nat), width as nat, '0'),
{
    let digits = decimal_string(n);
    push_padded_left(out, digits.as_str(), width, '0');
}

/// Appends the hexadecimal digits of `n`, zero-filled to at least `width`
/// digits (the `{:0width$X}` format).
pub fn push_hex_zero_padded(out: &mut String, n: u64, width: usize)
    ensures
        final(out)@ == old(out)@ + pad_left(hexadecimal(n as nat), width as nat, '0'),
{
    let mut digits = String::new();
    push_hex(&mut digits, n);
    assert(digits@ =~= hexadecimal(n as nat));
    push_padded_left(out, digits.as_str(), width, '0');
}

/// Appends the decimal text of a signed number.
pub fn push_signed_decimal(out: &mut String, n: i64)
    ensures
        final(out)@ == old(out)@ + signed_decimal(n as int),
{
    if n < 0 {
        push_char(out, '-');
        let magnitude: u64 = if n == i64::MIN {
            9_223_372_036_854_775_808
        } else {
            (0 - n) as u64
        };
        push_decimal(out, magnitude);
        assert(final(out)@ =~= old(out)@ + signed_decimal(n as int));
    } else {
        push_decimal(out, n as u64);
    }
}

/// `name` if it fits in `columns` characters, else its first `columns - 3`
/// characters followed by `...`.
pub open spec fn clip(name: Seq<char>, columns: nat) -> Seq<char> {
    if name.len() <= columns {
        name
    } else {
        name.take(if columns >= 3 {
            columns - 3
        } else {
            0
        }) + "..."@
    }
}

/// Shortens `name` to at most `columns` characters (at least three), marking
/// a cut with `...`.
pub fn clipped_name(name: &str, columns: usize) -> (s: String)
    ensures
        s@ == clip(name@, columns as nat),
{
    let n = name.unicode_len();
    if n <= columns {
        return String::from_str(name);
    }
    let keep: usize = if columns >= 3 {
        columns - 3
    } else {
        0
    };
    let mut s = String::from_str(name.substring_char(0, keep));
    push_str(&mut s, "...");
    proof {
        assert(name@.subrange(0, keep as int) =~= name@.take(keep as int));
    }
    s
}

/// A line without the carriage return of a CRLF ending.
pub open spec fn strip_cr(line: Seq<char>) -> Seq<char> {
    if line.len() > 0 && line.last() == '\r' {
        line.drop_last()
    } else {
        line
    }
}

/// The lines ended so far in the first `k` characters, and the line being
/// read.
pub open spec fn lines_fold(s: Seq<char>, k: nat) -> (Seq<Seq<char>>, Seq<char>)
    decreases k,
{
    if k == 0 || k > s.len() {
        (Seq::empty(), Seq::empty())
    } else {
        let (done, cur) = lines_fold(s, (k - 1) as nat);
        if s[k - 1] == '\n' {
            (done.push(strip_cr(cur)), Seq::empty())
        } else {
            (done, cur.push(s[k - 1]))
        }
    }
}

/// The lines of `s` as `str::lines` yields them: split at each `\n`, a
/// `\r` before it dropped, and no empty line after a final newline.
pub open spec fn lines_of(s: Seq<char>) -> Seq<Seq<char>> {
    let (done, cur) = lines_fold(s, s.len());
    if cur.len() > 0 {
        done.push(cur)
    } else {
        done
    }
}

fn string_of(chars: &Vec<char>, drop_cr: bool) -> (s: String)
    ensures
        s@ == (if drop_cr {
            strip_cr(chars@)
        } else {
            chars@
        }),
{
    let n = chars.len();
    let end: usize = if drop_cr && n > 0 && chars[n - 1] == '\r' {
        n - 1
    } else {
        n
    };
    let mut s = String::new();
    let mut i: usize = 0;
    while i < end
        invariant
            end <= n == chars@.len(),
            i <= end,
            s@ == chars@.subrange(0, i as int),
        decreases end - i,
    {
        push_char(&mut s, chars[i]);
        i = i + 1;
        assert(s@ =~= chars@.subrange(0, i as int));
    }
    assert(chars@.subrange(0, n as int) =~= chars@);
    assert(n > 0 ==> chars@.subrange(0, n - 1) =~= chars@.drop_last());
    s
}

/// The first `max` lines of `s` (`s.lines().take(max)`).
pub fn text_lines(s: &str, max: usize) -> (r: Vec<String>)
    ensures
        r@.len() == (if lines_of(s@).len() < max {
            lines_of(s@).len()
        } else {
            max as nat
        }),
        forall|i: int| 0 <= i < r@.len() ==> #[trigger] r@[i]@ == lines_of(s@)[i],
{
    let n = s.unicode_len();
    let mut done: Vec<String> = Vec::new();
    let mut cur: Vec<char> = Vec::new();
    let mut k: usize = 0;
    while k < n
        invariant
            n == s@.len(),
            k <= n,
            done@.len() == lines_fold(s@, k as nat).0.len(),
            forall|i: int| 0 <= i < done@.len() ==> #[trigger] done@[i]@ == lines_fold(s@, k as nat).0[i],
            cur@ == lines_fold(s@, k as nat).1,
        decreases n - k,
    {
        let c = s.get_char(k);
        if c == '\n' {
            let line = string_of(&cur, true);
            done.push(line);
            cur = Vec::new();
        } else {
            cur.push(c);
        }
        k = k + 1;
    }
    if cur.len() > 0 {
        let line = string_of(&cur, false);
        done.push(line);
    }
    let total = done.len();
    let keep = if total < max {
        total
    } else {
        max
    };
    let mut r: Vec<String> = Vec::new();
    let mut i: usize = 0;
    while i < keep
        invariant
            keep <= total == done@.len(),
            i <= keep,
            r@.len() == i,
            forall|j: int| 0 <= j < i ==> #[trigger] r@[j]@ == done@[j]@,
        decreases keep - i,
    {
        r.push(done[i].clone());
        i = i + 1;
    }
    r
}

} // verus!
