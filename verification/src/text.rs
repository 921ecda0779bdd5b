//! Character-level text helpers: decimal rendering, padding, line
//! splitting and joining. Everything here works on `Seq<char>` models of
//! strings, so the rest of the crate can state exact contracts about the
//! text it produces.

use vstd::prelude::*;
use vstd::string::*;

verus! {

/// The character for one decimal digit.
pub open spec fn digit_char(d: int) -> char {
    if d == 0 {
        '0'
    } else if d == 1 {
        '1'
    } else if d == 2 {
        '2'
    } else if d == 3 {
        '3'
    } else if d == 4 {
        '4'
    } else if d == 5 {
        '5'
    } else if d == 6 {
        '6'
    } else if d == 7 {
        '7'
    } else if d == 8 {
        '8'
    } else {
        '9'
    }
}

/// The decimal rendering of `n`, most significant digit first.
pub open spec fn dec_digits(n: nat) -> Seq<char>
    decreases n,
{
    if n < 10 {
        seq![digit_char(n as int)]
    } else {
        dec_digits(n / 10) + seq![digit_char((n % 10) as int)]
    }
}

/// `n` spaces; negative widths collapse to none.
pub open spec fn spaces_seq(n: int) -> Seq<char> {
    Seq::new(if n < 0 { 0 } else { n as nat }, |i: int| ' ')
}

fn digit_to_char(d: usize) -> (c: char)
    requires
        d < 10,
    ensures
        c == digit_char(d as int),
{
    if d == 0 {
        '0'
    } else if d == 1 {
        '1'
    } else if d == 2 {
        '2'
    } else if d == 3 {
        '3'
    } else if d == 4 {
        '4'
    } else if d == 5 {
        '5'
    } else if d == 6 {
        '6'
    } else if d == 7 {
        '7'
    } else if d == 8 {
        '8'
    } else {
        '9'
    }
}

/// Decimal rendering of a `usize`.
pub fn usize_to_chars(n: usize) -> (r: Vec<char>)
    ensures
        r@ == dec_digits(n as nat),
    decreases n,
{
    if n < 10 {
        let mut v: Vec<char> = Vec::new();
        v.push(digit_to_char(n));
        assert(v@ =~= dec_digits(n as nat));
        v
    } else {
        let mut v = usize_to_chars(n / 10);
        v.push(digit_to_char(n % 10));
        assert(v@ =~= dec_digits(n as nat));
        v
    }
}

/// Decimal rendering of a `u128`.
pub fn u128_to_chars(n: u128) -> (r: Vec<char>)
    ensures
        r@ == dec_digits(n as nat),
    decreases n,
{
    if n < 10 {
        let mut v: Vec<char> = Vec::new();
        v.push(digit_to_char((n % 10) as usize));
        assert(v@ =~= dec_digits(n as nat));
        v
    } else {
        let mut v = u128_to_chars(n / 10);
        v.push(digit_to_char((n % 10) as usize));
        assert(v@ =~= dec_digits(n as nat));
        v
    }
}

/// `n` spaces as characters.
pub fn spaces(n: usize) -> (r: Vec<char>)
    ensures
        r@ == spaces_seq(n as int),
{
    let mut v: Vec<char> = Vec::new();
    let mut i: usize = 0;
    while i < n
        invariant
            i <= n,
            v@ =~= spaces_seq(i as int),
        decreases n - i,
    {
        v.push(' ');
        i = i + 1;
    }
    assert(v@ =~= spaces_seq(n as int));
    v
}

/// The characters of a string slice, in order.
pub fn chars_of(s: &str) -> (r: Vec<char>)
    ensures
        r@ == s@,
{
    let n = s.unicode_len();
    let mut v: Vec<char> = Vec::new();
    let mut i: usize = 0;
    while i < n
        invariant
            i <= n,
            n == s@.len(),
            v@ =~= s@.subrange(0, i as int),
        decreases n - i,
    {
        v.push(s.get_char(i));
        i = i + 1;
        assert(v@ =~= s@.subrange(0, i as int));
    }
    assert(v@ =~= s@);
    v
}

/// Relies on `String`'s `FromIterator<char>` impl: collecting characters
/// yields a string of exactly those characters, in order.
#[verifier::external_body]
pub(crate) fn string_from_chars(v: &Vec<char>) -> (r: String)
    ensures
        r@ == v@,
{
    v.iter().collect()
}

/// Character-for-character string comparison.
pub(crate) fn str_eq(a: &str, b: &str) -> (r: bool)
    ensures
        r == (a@ == b@),
{
    let n = a.unicode_len();
    if n != b.unicode_len() {
        return false;
    }
    let mut i: usize = 0;
    while i < n
        invariant
            i <= n,
            n == a@.len(),
            n == b@.len(),
            forall|j: int| 0 <= j < i ==> a@[j] == b@[j],
        decreases n - i,
    {
        if a.get_char(i) != b.get_char(i) {
            return false;
        }
        i = i + 1;
    }
    proof {
        assert(a@ =~= b@);
    }
    true
}

/// Index of the first newline in `s`, or `s.len()` if there is none.
pub open spec fn first_newline(s: Seq<char>) -> nat
    decreases s.len(),
{
    if s.len() == 0 {
        0
    } else if s[0] == '\n' {
        0
    } else {
        (1 + first_newline(s.subrange(1, s.len() as int))) as nat
    }
}

/// The first newline is wherever a scan that saw no earlier newline stopped.
pub proof fn lemma_first_newline_at(s: Seq<char>, i: int)
    requires
        0 <= i <= s.len(),
        forall|j: int| 0 <= j < i ==> s[j] != '\n',
        i < s.len() ==> s[i] == '\n',
    ensures
        first_newline(s) == i,
    decreases s.len(),
{
    if s.len() == 0 {
    } else if s[0] == '\n' {
        assert(i == 0);
    } else {
        assert(s[0] != '\n');
        assert(i >= 1);
        let sub = s.subrange(1, s.len() as int);
        assert forall|j: int| 0 <= j < i - 1 implies sub[j] != '\n' by {
            assert(sub[j] == s[j + 1]);
        }
        assert(i - 1 < sub.len() ==> sub[i - 1] == s[i]);
        lemma_first_newline_at(sub, i - 1);
    }
}

/// A line piece with a trailing carriage return removed.
pub open spec fn strip_cr(p: Seq<char>) -> Seq<char> {
    if p.len() > 0 && p[p.len() - 1] == '\r' {
        p.subrange(0, p.len() - 1)
    } else {
        p
    }
}

/// The lines of `s`: pieces between newlines, with the carriage return
/// of each `\r\n` ending removed, and no final empty piece after a
/// trailing newline. A carriage return that no newline follows stays.
/// Mirrors how `str::lines` splits text.
pub open spec fn line_split(s: Seq<char>) -> Seq<Seq<char>>
    decreases s.len(),
{
    if s.len() == 0 {
        Seq::empty()
    } else {
        let i = first_newline(s) as int;
        if i >= s.len() {
            seq![s]
        } else {
            seq![strip_cr(s.subrange(0, i))] + line_split(s.subrange(i + 1, s.len() as int))
        }
    }
}

/// The views of a sequence of character vectors.
pub open spec fn views_of(ls: Seq<Vec<char>>) -> Seq<Seq<char>> {
    ls.map_values(|l: Vec<char>| l@)
}

/// Lines joined by single newlines, with no trailing newline.
pub open spec fn join_lines(ls: Seq<Seq<char>>) -> Seq<char>
    decreases ls.len(),
{
    if ls.len() == 0 {
        Seq::empty()
    } else if ls.len() == 1 {
        ls[0]
    } else {
        join_lines(ls.drop_last()) + seq!['\n'] + ls.last()
    }
}

/// Append a copy of `src` to `out`.
pub(crate) fn push_all(out: &mut Vec<char>, src: &Vec<char>)
    ensures
        final(out)@ == old(out)@ + src@,
{
    let mut i: usize = 0;
    while i < src.len()
        invariant
            i <= src@.len(),
            out@ =~= old(out)@ + src@.subrange(0, i as int),
        decreases src@.len() - i,
    {
        out.push(src[i]);
        i = i + 1;
        assert(out@ =~= old(out)@ + src@.subrange(0, i as int));
    }
    assert(out@ =~= old(out)@ + src@);
}

/// A copy of `src[from..to]`.
pub(crate) fn slice_range(src: &Vec<char>, from: usize, to: usize) -> (r: Vec<char>)
    requires
        from <= to <= src@.len(),
    ensures
        r@ == src@.subrange(from as int, to as int),
{
    let mut v: Vec<char> = Vec::new();
    let mut i: usize = from;
    while i < to
        invariant
            from <= i <= to <= src@.len(),
            v@ =~= src@.subrange(from as int, i as int),
        decreases to - i,
    {
        v.push(src[i]);
        i = i + 1;
        assert(v@ =~= src@.subrange(from as int, i as int));
    }
    assert(v@ =~= src@.subrange(from as int, to as int));
    v
}

/// Split characters into lines, as `line_split` describes.
pub fn split_lines(cs: &Vec<char>) -> (r: Vec<Vec<char>>)
    ensures
        views_of(r@) == line_split(cs@),
{
    let n = cs.len();
    let mut out: Vec<Vec<char>> = Vec::new();
    let mut start: usize = 0;
    proof {
        assert(cs@.subrange(0, n as int) =~= cs@);
        assert(views_of(out@) + line_split(cs@) =~= line_split(cs@));
    }
    while start < n
        invariant
            start <= n,
            n == cs@.len(),
            views_of(out@) + line_split(cs@.subrange(start as int, n as int)) =~= line_split(cs@),
        decreases n - start,
    {
        let ghost suffix = cs@.subrange(start as int, n as int);
        let mut j: usize = start;
        while j < n && cs[j] != '\n'
            invariant
                start <= j <= n,
                n == cs@.len(),
                forall|k: int| start <= k < j ==> cs@[k] != '\n',
            decreases n - j,
        {
            j = j + 1;
        }
        proof {
            assert forall|k: int| 0 <= k < j - start implies suffix[k] != '\n' by {
                assert(suffix[k] == cs@[start + k]);
            }
            if j < n {
                assert(suffix[j - start] == cs@[j as int]);
            }
            lemma_first_newline_at(suffix, j - start);
        }
        let mut piece = slice_range(cs, start, j);
        if j < n {
            if piece.len() > 0 && piece[piece.len() - 1] == '\r' {
                piece.pop();
            }
            proof {
                assert(piece@ =~= strip_cr(cs@.subrange(start as int, j as int)));
            }
        }
        out.push(piece);
        proof {
            assert(views_of(out@) =~= views_of(out@.drop_last()) + seq![piece@]);
        }
        if j < n {
            proof {
                assert(suffix.subrange(0, j - start) =~= cs@.subrange(start as int, j as int));
                assert(suffix.subrange(j - start + 1, suffix.len() as int) =~= cs@.subrange(
                    j + 1,
                    n as int,
                ));
                assert(line_split(suffix) == seq![piece@] + line_split(
                    cs@.subrange(j + 1, n as int),
                ));
                assert(views_of(out@) + line_split(cs@.subrange(j + 1, n as int)) =~= line_split(
                    cs@,
                ));
            }
            start = j + 1;
        } else {
            proof {
                assert(suffix =~= cs@.subrange(start as int, j as int));
                assert(line_split(suffix) == seq![piece@]);
                assert(cs@.subrange(n as int, n as int) =~= Seq::<char>::empty());
                assert(views_of(out@) + line_split(cs@.subrange(n as int, n as int)) =~= line_split(
                    cs@,
                ));
            }
            start = j;
        }
    }
    proof {
        assert(cs@.subrange(start as int, n as int) =~= cs@.subrange(n as int, n as int));
        assert(cs@.subrange(n as int, n as int) =~= Seq::<char>::empty());
        assert(views_of(out@) =~= line_split(cs@));
    }
    out
}

/// Join lines with newlines, as `join_lines` describes.
pub fn join_line_vecs(lines: &Vec<Vec<char>>) -> (r: Vec<char>)
    ensures
        r@ == join_lines(views_of(lines@)),
{
    let mut out: Vec<char> = Vec::new();
    let mut i: usize = 0;
    while i < lines.len()
        invariant
            i <= lines@.len(),
            out@ == join_lines(views_of(lines@).subrange(0, i as int)),
        decreases lines@.len() - i,
    {
        if i > 0 {
            out.push('\n');
        }
        push_all(&mut out, &lines[i]);
        i = i + 1;
        proof {
            let vs = views_of(lines@);
            if i == 1 {
                assert(vs.subrange(0, 1).len() == 1);
                assert(out@ =~= vs.subrange(0, 1)[0]);
            } else {
                assert(vs.subrange(0, i as int).drop_last() =~= vs.subrange(0, i - 1));
                assert(out@ =~= join_lines(vs.subrange(0, i - 1)) + seq!['\n'] + vs[i - 1]);
            }
        }
    }
    proof {
        assert(views_of(lines@).subrange(0, lines@.len() as int) =~= views_of(lines@));
    }
    out
}

/// How many lines `s` splits into.
pub fn count_lines(s: &str) -> (n: usize)
    ensures
        n == line_split(s@).len(),
{
    let cs = chars_of(s);
    let lines = split_lines(&cs);
    lines.len()
}

/// A line number, right-justified to the width of the largest line number,
/// followed by a separator bar: the gutter put before a content line when
/// line numbers are shown.
pub fn line_indicator_format(line_num: usize, line_count: usize) -> (r: String)
    requires
        dec_digits(line_num as nat).len() <= dec_digits(line_count as nat).len(),
    ensures
        r@ == spaces_seq(
            dec_digits(line_count as nat).len() - dec_digits(line_num as nat).len(),
        ) + dec_digits(line_num as nat) + seq!['|'],
{
    let digits = usize_to_chars(line_num);
    let width = usize_to_chars(line_count).len();
    let mut out = spaces(width - digits.len());
    let mut digits = digits;
    out.append(&mut digits);
    out.push('|');
    assert(out@ =~= spaces_seq(
        dec_digits(line_count as nat).len() - dec_digits(line_num as nat).len(),
    ) + dec_digits(line_num as nat) + seq!['|']);
    string_from_chars(&out)
}

} // verus!
