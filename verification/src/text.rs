//! Character-level building blocks for everything the dashboard prints:
//! decimal numbers, padding, line splitting and the line endings a raw
//! terminal needs.

use vstd::prelude::*;

verus! {

/// `String::push` appends exactly one character.
pub assume_specification[ String::push ](s: &mut String, c: char)
    ensures
        final(s)@ == old(s)@.push(c),
;

/// The characters of a string slice, in order.
pub fn to_chars(s: &str) -> (v: Vec<char>)
    ensures
        v@ == s@,
{
    let mut v: Vec<char> = Vec::new();
    let it = s.chars();
    for c in iter: it
        invariant
            v@ == iter.seq().take(iter.index()),
            iter.seq() == s@,
    {
        v.push(c);
    }
    v
}

/// Whether two string slices hold the same characters.
pub fn str_eq(a: &str, b: &str) -> (r: bool)
    ensures
        r == (a@ == b@),
{
    let x = to_chars(a);
    let y = to_chars(b);
    if x.len() != y.len() {
        return false;
    }
    let mut i: usize = 0;
    while i < x.len()
        invariant
            i <= x.len(),
            x.len() == y.len(),
            x@ == a@,
            y@ == b@,
            forall|j: int| 0 <= j < i ==> x@[j] == y@[j],
        decreases x.len() - i,
    {
        if x[i] != y[i] {
            return false;
        }
        i += 1;
    }
    assert(x@ =~= y@);
    true
}

/// Appends `chars[from..to]` to `out`.
pub fn push_chars(out: &mut String, chars: &Vec<char>, from: usize, to: usize)
    requires
        from <= to <= chars.len(),
    ensures
        final(out)@ == old(out)@ + chars@.subrange(from as int, to as int),
{
    let mut i: usize = from;
    while i < to
        invariant
            from <= i <= to <= chars.len(),
            out@ == old(out)@ + chars@.subrange(from as int, i as int),
        decreases to - i,
    {
        out.push(chars[i]);
        i += 1;
    }
}

/// `n` copies of `c`.
pub open spec fn repeated(c: char, n: nat) -> Seq<char> {
    Seq::new(n, |i: int| c)
}

/// Appends `n` copies of `c` to `out`.
pub fn push_repeated(out: &mut String, c: char, n: usize)
    ensures
        final(out)@ == old(out)@ + repeated(c, n as nat),
{
    let mut i: usize = 0;
    while i < n
        invariant
            i <= n,
            out@ == old(out)@ + repeated(c, i as nat),
        decreases n - i,
    {
        out.push(c);
        i += 1;
    }
}

/// The character that stands for one decimal digit.
pub open spec fn digit(d: nat) -> char {
    if d == 0 {
        '0'
    } else if d == 1 {
        '1'
    } else if d == 2 {
        '2'
    } else if d == 3 {
        '3'
    } else if d == 4 {
        '4'
    } else if d == 5 {
        '5'
    } else if d == 6 {
        '6'
    } else if d == 7 {
        '7'
    } else if d == 8 {
        '8'
    } else {
        '9'
    }
}

/// A natural number written in base ten, without leading zeros.
pub open spec fn decimal(n: nat) -> Seq<char>
    decreases n,
{
    if n < 10 {
        seq![digit(n)]
    } else {
        decimal(n / 10).push(digit(n % 10))
    }
}

fn digit_of(d: usize) -> (c: char)
    requires
        d < 10,
    ensures
        c == digit(d as nat),
{
    if d == 0 {
        '0'
    } else if d == 1 {
        '1'
    } else if d == 2 {
        '2'
    } else if d == 3 {
        '3'
    } else if d == 4 {
        '4'
    } else if d == 5 {
        '5'
    } else if d == 6 {
        '6'
    } else if d == 7 {
        '7'
    } else if d == 8 {
        '8'
    } else {
        '9'
    }
}

/// The decimal digits of `n`.
pub fn decimal_chars(n: usize) -> (v: Vec<char>)
    ensures
        v@ == decimal(n as nat),
        v.len() >= 1,
    decreases n,
{
    if n < 10 {
        let mut v: Vec<char> = Vec::new();
        v.push(digit_of(n));
        v
    } else {
        let mut v = decimal_chars(n / 10);
        v.push(digit_of(n % 10));
        v
    }
}

/// Appends `n` in base ten to `out`.
pub fn push_decimal(out: &mut String, n: usize)
    ensures
        final(out)@ == old(out)@ + decimal(n as nat),
{
    let v = decimal_chars(n);
    push_chars(out, &v, 0, v.len());
}

/// `s` moved to the right edge of a field of `width` characters. Text that
/// is already wider is left as it is.
pub open spec fn right_aligned(s: Seq<char>, width: nat) -> Seq<char> {
    if s.len() >= width {
        s
    } else {
        repeated(' ', (width - s.len()) as nat) + s
    }
}

/// `s` at the left edge of a field of `width` characters. Text that is
/// already wider is left as it is.
pub open spec fn left_aligned(s: Seq<char>, width: nat) -> Seq<char> {
    if s.len() >= width {
        s
    } else {
        s + repeated(' ', (width - s.len()) as nat)
    }
}

/// Appends `n` in base ten, right-aligned in `width` columns.
pub fn push_decimal_right(out: &mut String, n: usize, width: usize)
    ensures
        final(out)@ == old(out)@ + right_aligned(decimal(n as nat), width as nat),
{
    let v = decimal_chars(n);
    if v.len() < width {
        push_repeated(out, ' ', width - v.len());
    }
    push_chars(out, &v, 0, v.len());
}

/// Appends `s`, left-aligned in `width` columns.
pub fn push_left_aligned(out: &mut String, s: &str, width: usize)
    ensures
        final(out)@ == old(out)@ + left_aligned(s@, width as nat),
{
    let n = s.unicode_len();
    out.append(s);
    if n < width {
        push_repeated(out, ' ', width - n);
    }
}

/// The two characters that end a line on a raw terminal.
pub open spec fn crlf() -> Seq<char> {
    seq!['\r', '\n']
}

/// `s` with every line ending, `"\n"` or `"\r\n"`, written as `"\r\n"`, the
/// only form a raw terminal shows as a new line.
pub open spec fn raw_text(s: Seq<char>) -> Seq<char>
    decreases s.len(),
{
    if s.len() == 0 {
        s
    } else if s[0] == '\r' && s.len() >= 2 && s[1] == '\n' {
        crlf() + raw_text(s.skip(2))
    } else if s[0] == '\n' {
        crlf() + raw_text(s.skip(1))
    } else {
        seq![s[0]] + raw_text(s.skip(1))
    }
}

/// No line feed stands alone: each one directly follows a carriage return.
pub open spec fn crlf_only(t: Seq<char>) -> bool {
    forall|i: int| 0 <= i < t.len() && #[trigger] t[i] == '\n' ==> i > 0 && t[i - 1] == '\r'
}

/// Text prepared for a raw terminal never holds a bare line feed.
pub proof fn lemma_raw_text_crlf_only(s: Seq<char>)
    ensures
        crlf_only(raw_text(s)),
    decreases s.len(),
{
    if s.len() == 0 {
    } else if s[0] == '\r' && s.len() >= 2 && s[1] == '\n' {
        lemma_raw_text_crlf_only(s.skip(2));
        lemma_crlf_only_concat(crlf(), raw_text(s.skip(2)));
    } else if s[0] == '\n' {
        lemma_raw_text_crlf_only(s.skip(1));
        lemma_crlf_only_concat(crlf(), raw_text(s.skip(1)));
    } else {
        lemma_raw_text_crlf_only(s.skip(1));
        lemma_crlf_only_concat(seq![s[0]], raw_text(s.skip(1)));
    }
}

/// Joining two texts without bare line feeds gives another such text.
pub proof fn lemma_crlf_only_concat(a: Seq<char>, b: Seq<char>)
    requires
        crlf_only(a),
        crlf_only(b),
    ensures
        crlf_only(a + b),
{
    let t = a + b;
    assert forall|i: int| 0 <= i < t.len() && #[trigger] t[i] == '\n' implies i > 0 && t[i - 1]
        == '\r' by {
        // the line feed lies in `a` or in `b`, and the carriage return with it
    }
}

/// Text that is already in raw form is left unchanged by `raw_text`.
pub proof fn lemma_raw_text_idempotent(s: Seq<char>)
    ensures
        raw_text(raw_text(s)) == raw_text(s),
    decreases s.len(),
{
    if s.len() == 0 {
    } else if s[0] == '\r' && s.len() >= 2 && s[1] == '\n' {
        let rest = raw_text(s.skip(2));
        lemma_raw_text_idempotent(s.skip(2));
        assert((crlf() + rest).skip(2) == rest);
    } else if s[0] == '\n' {
        let rest = raw_text(s.skip(1));
        lemma_raw_text_idempotent(s.skip(1));
        assert((crlf() + rest).skip(2) == rest);
    } else {
        let rest = raw_text(s.skip(1));
        lemma_raw_text_idempotent(s.skip(1));
        assert((seq![s[0]] + rest).skip(1) == rest);
    }
}

/// Appends `s` to `out` in raw form.
pub fn rprint(out: &mut String, s: &str)
    ensures
        final(out)@ == old(out)@ + raw_text(s@),
{
    let chars = to_chars(s);
    let n = chars.len();
    let mut i: usize = 0;
    assert(s@.skip(0) == s@);
    while i < n
        invariant
            i <= n,
            n == chars.len(),
            chars@ == s@,
            old(out)@ + raw_text(s@) == out@ + raw_text(s@.skip(i as int)),
        decreases n - i,
    {
        let ghost rest = s@.skip(i as int);
        let c = chars[i];
        if c == '\r' && i + 1 < n && chars[i + 1] == '\n' {
            out.push('\r');
            out.push('\n');
            assert(rest.skip(2) == s@.skip(i + 2));
            i += 2;
        } else if c == '\n' {
            out.push('\r');
            out.push('\n');
            assert(rest.skip(1) == s@.skip(i + 1));
            i += 1;
        } else {
            out.push(c);
            assert(rest.skip(1) == s@.skip(i + 1));
            i += 1;
        }
    }
}

/// One line of raw output: the text in raw form, then the line ending.
pub open spec fn raw_line(s: Seq<char>) -> Seq<char> {
    raw_text(s) + crlf()
}

/// Appends `s` to `out` as one line of raw output.
pub fn rprintln(out: &mut String, s: &str)
    ensures
        final(out)@ == old(out)@ + raw_line(s@),
{
    rprint(out, s);
    out.push('\r');
    out.push('\n');
}

/// A line of raw output never holds a bare line feed.
pub proof fn lemma_raw_line_crlf_only(s: Seq<char>)
    ensures
        crlf_only(raw_line(s)),
{
    lemma_raw_text_crlf_only(s);
    lemma_crlf_only_concat(raw_text(s), crlf());
}

/// A line without the carriage return that may end it.
pub open spec fn without_cr(line: Seq<char>) -> Seq<char> {
    if line.len() > 0 && line.last() == '\r' {
        line.drop_last()
    } else {
        line
    }
}

/// The lines of `s[start..]`, where `s[start..i]` is known to hold no line
/// feed. See [`lines`].
pub open spec fn lines_from(s: Seq<char>, start: int, i: int) -> Seq<Seq<char>>
    decreases s.len() - i,
{
    if i >= s.len() {
        if start < s.len() {
            seq![s.subrange(start, s.len() as int)]
        } else {
            Seq::empty()
        }
    } else if s[i] == '\n' {
        seq![without_cr(s.subrange(start, i))] + lines_from(s, i + 1, i + 1)
    } else {
        lines_from(s, start, i + 1)
    }
}

/// The lines of a text. A line ends at `"\n"` or `"\r\n"`, and the ending is
/// not part of the line. What follows the last line feed is a line of its
/// own unless it is empty, so a text gives the same lines with or without a
/// final line ending.
pub open spec fn lines(s: Seq<char>) -> Seq<Seq<char>> {
    lines_from(s, 0, 0)
}

/// A text without a line feed.
pub open spec fn one_line(line: Seq<char>) -> bool {
    forall|k: int| 0 <= k < line.len() ==> line[k] != '\n'
}

proof fn lemma_lines_from_one_line(s: Seq<char>, start: int, i: int)
    requires
        0 <= start <= i <= s.len(),
        one_line(s.subrange(start, i)),
    ensures
        forall|j: int|
            0 <= j < lines_from(s, start, i).len() ==> one_line(#[trigger] lines_from(s, start, i)[j]),
    decreases s.len() - i,
{
    let all = lines_from(s, start, i);
    if i >= s.len() {
        // what is left is one line at most
        assert forall|j: int| 0 <= j < all.len() implies one_line(#[trigger] all[j]) by {
            assert(all[j] == s.subrange(start, i));
        }
    } else if s[i] == '\n' {
        // the line that ends here holds no line feed, and what follows is
        // split in the same way
        let line = without_cr(s.subrange(start, i));
        let rest = lines_from(s, i + 1, i + 1);
        assert forall|k: int| 0 <= k < line.len() implies line[k] != '\n' by {
            assert(line[k] == s.subrange(start, i)[k]);
        }
        lemma_lines_from_one_line(s, i + 1, i + 1);
        assert forall|j: int| 0 <= j < all.len() implies one_line(#[trigger] all[j]) by {
            if j == 0 {
                assert(all[j] == line);
            } else {
                assert(all[j] == rest[j - 1]);
            }
        }
    } else {
        // the line goes on
        let longer = s.subrange(start, i + 1);
        assert forall|k: int| 0 <= k < longer.len() implies longer[k] != '\n' by {
            if k < i - start {
                assert(longer[k] == s.subrange(start, i)[k]);
            }
        }
        lemma_lines_from_one_line(s, start, i + 1);
        assert forall|j: int| 0 <= j < all.len() implies one_line(#[trigger] all[j]) by {
            assert(all[j] == lines_from(s, start, i + 1)[j]);
        }
    }
}

/// No line of a text holds a line feed.
pub proof fn lemma_lines_are_one_line(s: Seq<char>)
    ensures
        forall|j: int| 0 <= j < lines(s).len() ==> one_line(#[trigger] lines(s)[j]),
{
    lemma_lines_from_one_line(s, 0, 0);
}

/// What each string of a sequence holds.
pub open spec fn views(v: Seq<String>) -> Seq<Seq<char>> {
    v.map_values(|x: String| x@)
}

/// Splits `s` into its lines.
pub fn split_lines(s: &str) -> (out: Vec<String>)
    ensures
        views(out@) == lines(s@),
{
    let chars = to_chars(s);
    let n = chars.len();
    let mut out: Vec<String> = Vec::new();
    let mut start: usize = 0;
    let mut i: usize = 0;
    while i < n
        invariant
            start <= i <= n,
            n == chars.len(),
            chars@ == s@,
            lines(s@) == views(out@) + lines_from(s@, start as int, i as int),
        decreases n - i,
    {
        if chars[i] == '\n' {
            let end = if i > start && chars[i - 1] == '\r' {
                i - 1
            } else {
                i
            };
            let mut line = String::new();
            push_chars(&mut line, &chars, start, end);
            assert(line@ == without_cr(s@.subrange(start as int, i as int)));
            out.push(line);
            start = i + 1;
        }
        i += 1;
    }
    if start < n {
        let mut line = String::new();
        push_chars(&mut line, &chars, start, n);
        out.push(line);
    }
    out
}

} // verus!
