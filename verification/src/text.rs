//! Text helpers: trimming, cutting to a length and decimal numerals, over sequences of characters.
use vstd::prelude::*;
use vstd::string::*;

verus! {

/// What is left of `s` once the longest run of trailing characters satisfying `p` is dropped.
pub open spec fn trim_end_by(s: Seq<char>, p: spec_fn(char) -> bool) -> Seq<char>
    decreases s.len(),
{
    if s.len() > 0 && p(s.last()) {
        trim_end_by(s.drop_last(), p)
    } else {
        s
    }
}

/// What is left of `s` once the longest run of leading characters satisfying `p` is dropped.
pub open spec fn trim_start_by(s: Seq<char>, p: spec_fn(char) -> bool) -> Seq<char>
    decreases s.len(),
{
    if s.len() > 0 && p(s.first()) {
        trim_start_by(s.drop_first(), p)
    } else {
        s
    }
}

/// The characters with the Unicode `White_Space` property.
pub open spec fn white_space(c: char) -> bool {
    let u = c as u32;
    ||| 0x09 <= u <= 0x0d
    ||| u == 0x20
    ||| u == 0x85
    ||| u == 0xa0
    ||| u == 0x1680
    ||| 0x2000 <= u <= 0x200a
    ||| u == 0x2028
    ||| u == 0x2029
    ||| u == 0x202f
    ||| u == 0x205f
    ||| u == 0x3000
}

/// `s` without the white space at either end.
pub open spec fn trimmed(s: Seq<char>) -> Seq<char> {
    trim_end_by(trim_start_by(s, |c: char| white_space(c)), |c: char| white_space(c))
}

/// `s` without the slashes at its end.
pub open spec fn without_trailing_slashes(s: Seq<char>) -> Seq<char> {
    trim_end_by(s, |c: char| c == '/')
}

/// The first `n` characters of `s`, or all of it when it is shorter.
pub open spec fn first_chars(s: Seq<char>, n: nat) -> Seq<char> {
    if s.len() <= n {
        s
    } else {
        s.take(n as int)
    }
}

/// The numeral of one decimal digit.
pub open spec fn digit(d: nat) -> char {
    if d == 0 {
        '0'
    } else if d == 1 {
        '1'
    } else if d == 2 {
        '2'
    } else if d == 3 {
        '3'
    } else if d == 4 {
        '4'
    } else if d == 5 {
        '5'
    } else if d == 6 {
        '6'
    } else if d == 7 {
        '7'
    } else if d == 8 {
        '8'
    } else {
        '9'
    }
}

/// The decimal numeral of `n`, most significant digit first, without leading zeros.
pub open spec fn decimal(n: nat) -> Seq<char>
    decreases n,
{
    if n < 10 {
        seq![digit(n)]
    } else {
        decimal(n / 10).push(digit(n % 10))
    }
}

/// Trimming the end of `s` keeps exactly its first `end` characters when everything from `end` on
/// satisfies `p` and the character before `end`, if there is one, does not.
proof fn lemma_trim_end_is_take(s: Seq<char>, p: spec_fn(char) -> bool, end: int)
    requires
        0 <= end <= s.len(),
        forall|i: int| end <= i < s.len() ==> p(#[trigger] s[i]),
        end > 0 ==> !p(s[end - 1]),
    ensures
        trim_end_by(s, p) == s.take(end),
    decreases s.len(),
{
    if end < s.len() {
        assert(p(s[s.len() - 1]));
        lemma_trim_end_is_take(s.drop_last(), p, end);
        assert(s.drop_last().take(end) =~= s.take(end));
    } else {
        assert(s.take(end) =~= s);
    }
}

/// Trimming the start of `s` drops exactly its first `start` characters when all of them satisfy
/// `p` and the character at `start`, if there is one, does not.
proof fn lemma_trim_start_is_skip(s: Seq<char>, p: spec_fn(char) -> bool, start: int)
    requires
        0 <= start <= s.len(),
        forall|i: int| 0 <= i < start ==> p(#[trigger] s[i]),
        start < s.len() ==> !p(s[start]),
    ensures
        trim_start_by(s, p) == s.skip(start),
    decreases s.len(),
{
    if start > 0 {
        assert(p(s[0]));
        assert forall|i: int| 0 <= i < start - 1 implies p(#[trigger] s.drop_first()[i]) by {
            assert(s.drop_first()[i] == s[i + 1]);
        }
        lemma_trim_start_is_skip(s.drop_first(), p, start - 1);
        assert(s.drop_first().skip(start - 1) =~= s.skip(start));
    } else {
        assert(s.skip(0) =~= s);
    }
}

/// Tells whether `c` has the Unicode `White_Space` property.
pub fn is_white_space(c: char) -> (r: bool)
    ensures
        r == white_space(c),
{
    let u: u32 = c as u32;
    (0x09 <= u && u <= 0x0d) || u == 0x20 || u == 0x85 || u == 0xa0 || u == 0x1680 || (0x2000 <= u
        && u <= 0x200a) || u == 0x2028 || u == 0x2029 || u == 0x202f || u == 0x205f || u == 0x3000
}

/// `s` without the white space at either end.
pub fn trim_white_space(s: &str) -> (r: &str)
    ensures
        r@ == trimmed(s@),
{
    let ghost p = |c: char| white_space(c);
    let mut seen: usize = 0;
    let mut start: usize = 0;
    let mut end: usize = 0;
    let len: usize = s.unicode_len();
    for c in it: s.chars()
        invariant
            it.seq() == s@,
            len == s@.len(),
            seen == it.index(),
            start <= end <= seen,
            forall|i: int| 0 <= i < start ==> white_space(#[trigger] s@[i]),
            start < end ==> !white_space(s@[start as int]) && !white_space(s@[end - 1]),
            start == end ==> start == 0 && forall|i: int| 0 <= i < seen ==> white_space(#[trigger] s@[i]),
            forall|i: int| end <= i < seen ==> white_space(#[trigger] s@[i]),
    {
        if !is_white_space(c) {
            if start == end {
                start = seen;
            }
            end = seen + 1;
        }
        seen = seen + 1;
    }
    proof {
        if start == end {
            lemma_trim_start_is_skip(s@, p, s@.len() as int);
            assert(s@.skip(s@.len() as int) =~= s@.subrange(0, 0));
        } else {
            let rest = s@.skip(start as int);
            lemma_trim_start_is_skip(s@, p, start as int);
            lemma_trim_end_is_take(rest, p, end - start);
            assert(rest.take(end - start) =~= s@.subrange(start as int, end as int));
        }
    }
    s.substring_char(start, end)
}

/// `s` without the slashes at its end.
pub fn trim_trailing_slashes(s: &str) -> (r: &str)
    ensures
        r@ == without_trailing_slashes(s@),
{
    let ghost p = |c: char| c == '/';
    let mut seen: usize = 0;
    let mut end: usize = 0;
    let len: usize = s.unicode_len();
    for c in it: s.chars()
        invariant
            it.seq() == s@,
            len == s@.len(),
            seen == it.index(),
            end <= seen,
            end > 0 ==> s@[end - 1] != '/',
            forall|i: int| end <= i < seen ==> #[trigger] s@[i] == '/',
    {
        seen = seen + 1;
        if c != '/' {
            end = seen;
        }
    }
    proof {
        lemma_trim_end_is_take(s@, p, end as int);
        assert(s@.take(end as int) =~= s@.subrange(0, end as int));
    }
    s.substring_char(0, end)
}

/// The first `n` characters of `s`, or all of it when it is shorter.
pub fn take_chars(s: &str, n: usize) -> (r: &str)
    ensures
        r@ == first_chars(s@, n as nat),
{
    if s.unicode_len() <= n {
        s
    } else {
        assert(s@.take(n as int) =~= s@.subrange(0, n as int));
        s.substring_char(0, n)
    }
}

/// The numeral of one decimal digit.
fn digit_text(d: u16) -> (r: &'static str)
    requires
        d < 10,
    ensures
        r@ == seq![digit(d as nat)],
{
    proof {
        reveal_strlit("0");
        reveal_strlit("1");
        reveal_strlit("2");
        reveal_strlit("3");
        reveal_strlit("4");
        reveal_strlit("5");
        reveal_strlit("6");
        reveal_strlit("7");
        reveal_strlit("8");
        reveal_strlit("9");
    }
    match d {
        0 => "0",
        1 => "1",
        2 => "2",
        3 => "3",
        4 => "4",
        5 => "5",
        6 => "6",
        7 => "7",
        8 => "8",
        _ => "9",
    }
}

/// The decimal numeral of `n`.
pub fn decimal_text(n: u16) -> (r: String)
    ensures
        r@ == decimal(n as nat),
    decreases n,
{
    if n < 10 {
        digit_text(n).to_owned()
    } else {
        let mut text = decimal_text(n / 10);
        text.append(digit_text(n % 10));
        assert(text@ =~= decimal(n as nat));
        text
    }
}

} // verus!
