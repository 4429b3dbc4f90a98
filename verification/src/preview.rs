//! Paged file previews for the viewer: wrapped printable text, or a
//! hexadecimal dump for other files.

use vstd::prelude::*;

use crate::text::{hexadecimal, pad_left, push_char, push_hex_zero_padded, push_str};

verus! {

/// Text rows that fit in the RLCD viewer box.
pub const TEXT_ROWS: usize = 29;

/// Characters per text row in the RLCD viewer box.
pub const TEXT_COLUMNS: usize = 44;

/// Progress of wrapping text: the preview so far, the column of its last
/// row, the number of completed rows and the bytes consumed.
pub struct TextPreview {
    pub out: Seq<char>,
    pub column: nat,
    pub rows: nat,
    pub consumed: nat,
}

/// How one byte shows: printable ASCII as itself, newline as a line break,
/// carriage return not at all, anything else as `.`.
pub open spec fn shown_char(byte: u8) -> Option<char> {
    if byte == 10 {
        Some('\n')
    } else if byte == 13 {
        None
    } else if 32 <= byte <= 126 {
        Some(byte as char)
    } else {
        Some('.')
    }
}

/// One byte of wrapping: once 29 rows are complete nothing more is taken;
/// a line break, or a full 44-column row, starts a new row.
pub open spec fn text_step(p: TextPreview, byte: u8) -> TextPreview {
    if p.rows >= 29 {
        p
    } else {
        match shown_char(byte) {
            None => TextPreview { consumed: p.consumed + 1, ..p },
            Some(ch) => if ch == '\n' {
                TextPreview {
                    out: p.out.push('\n'),
                    column: 0,
                    rows: p.rows + 1,
                    consumed: p.consumed + 1,
                }
            } else if p.column >= 44 {
                TextPreview {
                    out: p.out.push('\n').push(ch),
                    column: 1,
                    rows: p.rows + 1,
                    consumed: p.consumed + 1,
                }
            } else {
                TextPreview {
                    out: p.out.push(ch),
                    column: p.column + 1,
                    rows: p.rows,
                    consumed: p.consumed + 1,
                }
            },
        }
    }
}

/// Wrapping of the first `k` bytes.
pub open spec fn text_fold(bytes: Seq<u8>, k: nat) -> TextPreview
    decreases k,
{
    if k == 0 {
        TextPreview { out: Seq::empty(), column: 0, rows: 0, consumed: 0 }
    } else {
        text_step(text_fold(bytes, (k - 1) as nat), bytes[k - 1])
    }
}

/// `s[i..j]` holds no line break.
pub open spec fn newline_free(s: Seq<char>, i: int, j: int) -> bool {
    forall|k: int| i <= k < j ==> #[trigger] s[k] != '\n'
}

/// No row of `s` is longer than `width` characters.
pub open spec fn rows_fit(s: Seq<char>, width: nat) -> bool {
    forall|i: int, j: int| 0 <= i <= j <= s.len() && #[trigger] newline_free(s, i, j) ==> j - i <= width
}

pub open spec fn newline_count(s: Seq<char>) -> nat
    decreases s.len(),
{
    if s.len() == 0 {
        0
    } else {
        newline_count(s.drop_last()) + if s.last() == '\n' {
            1nat
        } else {
            0
        }
    }
}

/// The invariant of wrapping: the last row is exactly `column` characters
/// after the last line break, and rows never exceed 44 characters.
pub open spec fn wrap_inv(p: TextPreview) -> bool {
    &&& p.column <= 44
    &&& p.rows <= 29
    &&& p.column <= p.out.len()
    &&& forall|k: int| p.out.len() - p.column <= k < p.out.len() ==> #[trigger] p.out[k] != '\n'
    &&& (p.out.len() == p.column || p.out[p.out.len() - p.column - 1] == '\n')
    &&& rows_fit(p.out, 44)
    &&& newline_count(p.out) == p.rows
}

proof fn lemma_newline_count_push(s: Seq<char>, c: char)
    ensures
        newline_count(s.push(c)) == newline_count(s) + if c == '\n' {
            1nat
        } else {
            0
        },
{
    assert(s.push(c).drop_last() =~= s);
}

proof fn lemma_rows_fit_push(s: Seq<char>, c: char, column: nat)
    requires
        rows_fit(s, 44),
        column <= s.len(),
        forall|k: int| s.len() - column <= k < s.len() ==> #[trigger] s[k] != '\n',
        s.len() == column || s[s.len() - column - 1] == '\n',
        c == '\n' || column < 44,
    ensures
        rows_fit(s.push(c), 44),
{
    let t = s.push(c);
    assert forall|i: int, j: int|
        0 <= i <= j <= t.len() && #[trigger] newline_free(t, i, j) implies j - i <= 44 by {
        if j == t.len() && c != '\n' && i < j {
            if i < s.len() - column {
                let b = s.len() - column - 1;
                assert(t[b] == '\n');
                assert(i <= b < j);
            }
        } else if j == t.len() && c == '\n' && i < j {
            assert(t[j - 1] == '\n');
        } else if i < j {
            assert forall|k: int| i <= k < j implies #[trigger] s[k] != '\n' by {
                assert(t[k] == s[k]);
            }
            assert(newline_free(s, i, j));
        } else {
            assert(newline_free(s, i, j));
        }
    }
}

proof fn lemma_text_step_keeps_inv(p: TextPreview, byte: u8)
    requires
        wrap_inv(p),
    ensures
        wrap_inv(text_step(p, byte)),
        text_step(p, byte).consumed <= p.consumed + 1,
{
    if p.rows < 29 {
        match shown_char(byte) {
            None => {},
            Some(ch) => {
                if ch == '\n' {
                    lemma_rows_fit_push(p.out, '\n', p.column);
                    lemma_newline_count_push(p.out, '\n');
                } else if p.column >= 44 {
                    lemma_rows_fit_push(p.out, '\n', p.column);
                    lemma_newline_count_push(p.out, '\n');
                    let o1 = p.out.push('\n');
                    assert(forall|k: int| o1.len() - 0 <= k < o1.len() ==> #[trigger] o1[k] != '\n');
                    lemma_rows_fit_push(o1, ch, 0);
                    lemma_newline_count_push(o1, ch);
                } else {
                    lemma_rows_fit_push(p.out, ch, p.column);
                    lemma_newline_count_push(p.out, ch);
                }
            },
        }
    }
}

/// The wrapped preview of `bytes` and how many bytes it consumed: at most
/// 29 rows, each of at most 44 characters.
pub fn text_preview(bytes: &[u8]) -> (r: (String, usize))
    ensures
        r.0@ == text_fold(bytes@, bytes@.len()).out,
        r.1 as int == text_fold(bytes@, bytes@.len()).consumed,
        rows_fit(r.0@, 44),
        newline_count(r.0@) <= 29,
        r.1 <= bytes@.len(),
{
    let mut output = String::new();
    let mut column: usize = 0;
    let mut rows: usize = 0;
    let mut consumed: usize = 0;
    let mut i: usize = 0;
    proof {
        assert(rows_fit(Seq::<char>::empty(), 44));
        assert(newline_count(Seq::<char>::empty()) == 0);
    }
    while i < bytes.len()
        invariant
            i <= bytes@.len(),
            ({
                let p = text_fold(bytes@, i as nat);
                &&& p.out == output@
                &&& p.column == column
                &&& p.rows == rows
                &&& p.consumed == consumed
                &&& wrap_inv(p)
            }),
            consumed <= i,
        decreases bytes@.len() - i,
    {
        proof {
            lemma_text_step_keeps_inv(text_fold(bytes@, i as nat), bytes@[i as int]);
        }
        let byte = bytes[i];
        if rows < TEXT_ROWS {
            consumed = consumed + 1;
            if byte == 10 {
                push_char(&mut output, '\n');
                rows = rows + 1;
                column = 0;
            } else if byte == 13 {
            } else {
                let ch: char = if 32 <= byte && byte <= 126 {
                    byte as char
                } else {
                    '.'
                };
                if column >= TEXT_COLUMNS {
                    push_char(&mut output, '\n');
                    rows = rows + 1;
                    column = 0;
                }
                push_char(&mut output, ch);
                column = column + 1;
            }
        }
        i = i + 1;
    }
    (output, consumed)
}

/// Two upper-case hexadecimal digits of a byte.
pub open spec fn hex2(b: u8) -> Seq<char> {
    pad_left(hexadecimal(b as nat), 2, '0')
}

/// The first `k` bytes of `chunk`, each followed by a space.
pub open spec fn spaced_hex(chunk: Seq<u8>, k: nat) -> Seq<char>
    decreases k,
{
    if k == 0 {
        Seq::empty()
    } else {
        spaced_hex(chunk, (k - 1) as nat) + hex2(chunk[k - 1]) + " "@
    }
}

/// The first `k` bytes of `chunk` separated by single spaces.
pub open spec fn joined_hex(chunk: Seq<u8>, k: nat) -> Seq<char>
    decreases k,
{
    if k == 0 {
        Seq::empty()
    } else if k == 1 {
        hex2(chunk[0])
    } else {
        joined_hex(chunk, (k - 1) as nat) + " "@ + hex2(chunk[k - 1])
    }
}

/// Bytes of row `r` when rows hold `width` bytes.
pub open spec fn row_bytes(bytes: Seq<u8>, width: nat, r: nat) -> Seq<u8> {
    bytes.subrange(
        (r * width) as int,
        if (r + 1) * width > bytes.len() {
            bytes.len() as int
        } else {
            ((r + 1) * width) as int
        },
    )
}

/// RLCD dump rows: an 8-digit address, two spaces, then twelve bytes.
pub open spec fn rlcd_hex_rows(bytes: Seq<u8>, offset: nat, r: nat) -> Seq<char>
    decreases r,
{
    if r == 0 {
        Seq::empty()
    } else {
        let row = row_bytes(bytes, 12, (r - 1) as nat);
        rlcd_hex_rows(bytes, offset, (r - 1) as nat) + pad_left(
            hexadecimal((offset + (r - 1) * 12) as nat),
            8,
            '0',
        ) + "  "@ + spaced_hex(row, row.len()) + "\n"@
    }
}

pub open spec fn rows_for(len: nat, width: nat) -> nat {
    ((len + width - 1) / (width as int)) as nat
}

fn push_spaced_hex(out: &mut String, bytes: &[u8], from: usize, to: usize)
    requires
        from <= to <= bytes@.len(),
    ensures
        final(out)@ == old(out)@ + spaced_hex(
            bytes@.subrange(from as int, to as int),
            (to - from) as nat,
        ),
{
    let ghost chunk = bytes@.subrange(from as int, to as int);
    let mut k: usize = from;
    while k < to
        invariant
            from <= k <= to,
            to <= bytes@.len(),
            chunk == bytes@.subrange(from as int, to as int),
            out@ == old(out)@ + spaced_hex(chunk, (k - from) as nat),
        decreases to - k,
    {
        let ghost before = out@;
        push_hex_zero_padded(out, bytes[k] as u64, 2);
        push_str(out, " ");
        proof {
            assert(chunk[(k - from) as int] == bytes@[k as int]);
            assert(spaced_hex(chunk, (k + 1 - from) as nat) == spaced_hex(chunk, (k - from) as nat)
                + hex2(chunk[(k - from) as int]) + " "@);
        }
        k = k + 1;
        assert(out@ =~= old(out)@ + spaced_hex(chunk, (k - from) as nat));
    }
}

/// The RLCD hexadecimal preview of the bytes read at `offset`: up to 20 rows
/// of 12 bytes. Returns the text and the number of bytes shown.
pub fn hex_preview(bytes: &[u8], offset: u64) -> (r: (String, usize))
    requires
        offset + 240 <= u64::MAX,
    ensures
        r.1 as int == (if bytes@.len() < 240 {
            bytes@.len() as int
        } else {
            240
        }),
        r.0@ == rlcd_hex_rows(
            bytes@.take(r.1 as int),
            offset as nat,
            rows_for(r.1 as nat, 12),
        ),
{
    let visible: usize = if bytes.len() < 240 {
        bytes.len()
    } else {
        240
    };
    let ghost shown = bytes@.take(visible as int);
    let mut output = String::new();
    let mut row: usize = 0;
    while row * 12 < visible
        invariant
            visible <= 240,
            offset + 240 <= u64::MAX,
            visible <= bytes@.len(),
            shown == bytes@.take(visible as int),
            row <= 20,
            row * 12 <= visible + 11,
            output@ == rlcd_hex_rows(shown, offset as nat, row as nat),
        decreases visible + 12 - row * 12,
    {
        let from = row * 12;
        let to = if from + 12 > visible {
            visible
        } else {
            from + 12
        };
        let address = offset + (row * 12) as u64;
        push_hex_zero_padded(&mut output, address, 8);
        push_str(&mut output, "  ");
        push_spaced_hex(&mut output, bytes, from, to);
        push_str(&mut output, "\n");
        proof {
            let rb = row_bytes(shown, 12, row as nat);
            assert(rb =~= bytes@.subrange(from as int, to as int));
        }
        row = row + 1;
        assert(output@ =~= rlcd_hex_rows(shown, offset as nat, row as nat));
    }
    assert(row == rows_for(visible as nat, 12)) by (nonlinear_arith)
        requires
            row * 12 >= visible,
            row * 12 <= visible + 11,
    ;
    (output, visible)
}


/// The text `String::from_utf8_lossy` decodes from `bytes`.
pub uninterp spec fn utf8_lossy(bytes: Seq<u8>) -> Seq<char>;

/// Decodes UTF-8, replacing invalid sequences with U+FFFD
/// (`String::from_utf8_lossy`). Stated: the result is the named decoding of
/// the bytes, and ASCII bytes decode to the same characters.
#[verifier::external_body]
fn decode_utf8_lossy(bytes: &[u8]) -> (s: String)
    ensures
        s@ == utf8_lossy(bytes@),
        (forall|i: int| 0 <= i < bytes@.len() ==> #[trigger] bytes@[i] < 128) ==> s@ == Seq::new(
            bytes@.len(),
            |i: int| bytes@[i] as char,
        ),
{
    String::from_utf8_lossy(bytes).into_owned()
}

/// Unicode control characters (general category Cc).
pub open spec fn is_control(c: char) -> bool {
    (c as int) <= 0x1f || (0x7f <= (c as int) && (c as int) <= 0x9f)
}

/// Line breaks and tabs stay; other control characters become spaces.
pub open spec fn viewer_char(c: char) -> char {
    if c == '\n' || c == '\t' || !is_control(c) {
        c
    } else {
        ' '
    }
}

/// The Touch349 text preview: the decoded text with control characters
/// other than line breaks and tabs shown as spaces.
pub fn touch349_text_preview(bytes: &[u8]) -> (s: String)
    ensures
        s@ == utf8_lossy(bytes@).map_values(|c: char| viewer_char(c)),
{
    let decoded = decode_utf8_lossy(bytes);
    let text = decoded.as_str();
    let n = text.unicode_len();
    let mut out = String::new();
    let mut i: usize = 0;
    while i < n
        invariant
            n == text@.len(),
            text@ == utf8_lossy(bytes@),
            i <= n,
            out@ == text@.take(i as int).map_values(|c: char| viewer_char(c)),
        decreases n - i,
    {
        let c = text.get_char(i);
        let v = c as u32;
        let keep = c == '\n' || c == '\t' || !(v <= 0x1f || (0x7f <= v && v <= 0x9f));
        push_char(&mut out, if keep {
            c
        } else {
            ' '
        });
        i = i + 1;
        assert(out@ =~= text@.take(i as int).map_values(|c: char| viewer_char(c)));
    }
    assert(text@.take(n as int) =~= text@);
    out
}

/// Touch349 dump rows: a 6-digit address, two spaces, then up to eight
/// space-separated bytes; rows separated by line breaks.
pub open spec fn touch349_hex_rows(bytes: Seq<u8>, offset: nat, r: nat) -> Seq<char>
    decreases r,
{
    if r == 0 {
        Seq::empty()
    } else {
        let row = row_bytes(bytes, 8, (r - 1) as nat);
        let line = pad_left(hexadecimal((offset + (r - 1) * 8) as nat), 6, '0') + "  "@ + joined_hex(
            row,
            row.len(),
        );
        if r == 1 {
            line
        } else {
            touch349_hex_rows(bytes, offset, (r - 1) as nat) + "\n"@ + line
        }
    }
}

pub(crate) fn push_joined_hex(out: &mut String, bytes: &[u8], from: usize, to: usize)
    requires
        from <= to <= bytes@.len(),
    ensures
        final(out)@ == old(out)@ + joined_hex(
            bytes@.subrange(from as int, to as int),
            (to - from) as nat,
        ),
{
    let ghost chunk = bytes@.subrange(from as int, to as int);
    let mut k: usize = from;
    while k < to
        invariant
            from <= k <= to,
            to <= bytes@.len(),
            chunk == bytes@.subrange(from as int, to as int),
            out@ == old(out)@ + joined_hex(chunk, (k - from) as nat),
        decreases to - k,
    {
        if k > from {
            push_str(out, " ");
        }
        push_hex_zero_padded(out, bytes[k] as u64, 2);
        proof {
            assert(chunk[(k - from) as int] == bytes@[k as int]);
        }
        k = k + 1;
        assert(out@ =~= old(out)@ + joined_hex(chunk, (k - from) as nat));
    }
}

/// The Touch349 hexadecimal preview of the bytes read at `offset`: up to 18
/// rows of 8 bytes.
pub fn touch349_hex_preview(bytes: &[u8], offset: u64) -> (s: String)
    requires
        offset + 144 <= u64::MAX,
    ensures
        ({
            let shown = if bytes@.len() < 144 {
                bytes@.len() as int
            } else {
                144
            };
            s@ == touch349_hex_rows(bytes@.take(shown), offset as nat, rows_for(shown as nat, 8))
        }),
{
    let visible: usize = if bytes.len() < 144 {
        bytes.len()
    } else {
        144
    };
    let ghost shown = bytes@.take(visible as int);
    let mut output = String::new();
    let mut row: usize = 0;
    while row * 8 < visible
        invariant
            visible <= 144,
            offset + 144 <= u64::MAX,
            visible <= bytes@.len(),
            shown == bytes@.take(visible as int),
            row <= 18,
            row * 8 <= visible + 7,
            output@ == touch349_hex_rows(shown, offset as nat, row as nat),
        decreases visible + 8 - row * 8,
    {
        let from = row * 8;
        let to = if from + 8 > visible {
            visible
        } else {
            from + 8
        };
        if row > 0 {
            push_str(&mut output, "\n");
        }
        let ghost before = output@;
        push_hex_zero_padded(&mut output, offset + (row * 8) as u64, 6);
        push_str(&mut output, "  ");
        push_joined_hex(&mut output, bytes, from, to);
        proof {
            let rb = row_bytes(shown, 8, row as nat);
            assert(rb =~= bytes@.subrange(from as int, to as int));
        }
        row = row + 1;
        assert(output@ =~= touch349_hex_rows(shown, offset as nat, row as nat));
    }
    assert(row == rows_for(visible as nat, 8)) by (nonlinear_arith)
        requires
            row * 8 >= visible,
            row * 8 <= visible + 7,
    ;
    output
}

} // verus!
