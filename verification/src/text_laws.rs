//! What the text functions come to, said of the characters themselves.
use vstd::prelude::*;

use crate::text::{decimal, first_chars, trim_end_by, trim_start_by, trimmed, white_space};
use crate::text::without_trailing_slashes;

verus! {

/// The white space characters, one by one.
pub proof fn law_white_space_is_these_characters(c: char)
    ensures
        white_space(c) <==> {
            let u = c as u32;
            ||| u == 0x09 || u == 0x0a || u == 0x0b || u == 0x0c || u == 0x0d
            ||| u == 0x20 || u == 0x85 || u == 0xa0 || u == 0x1680
            ||| u == 0x2000 || u == 0x2001 || u == 0x2002 || u == 0x2003 || u == 0x2004
            ||| u == 0x2005 || u == 0x2006 || u == 0x2007 || u == 0x2008 || u == 0x2009
            ||| u == 0x200a || u == 0x2028 || u == 0x2029 || u == 0x202f || u == 0x205f
            ||| u == 0x3000
        },
{
}

/// Trimming an end keeps a start of the text, drops only what is to be dropped, and leaves nothing
/// to drop.
proof fn lemma_trim_end(s: Seq<char>, p: spec_fn(char) -> bool)
    ensures
        trim_end_by(s, p).len() <= s.len(),
        trim_end_by(s, p) == s.take(trim_end_by(s, p).len() as int),
        forall|i: int| trim_end_by(s, p).len() <= i < s.len() ==> p(#[trigger] s[i]),
        trim_end_by(s, p).len() > 0 ==> !p(s[trim_end_by(s, p).len() - 1]),
    decreases s.len(),
{
    if s.len() > 0 && p(s.last()) {
        let shorter = s.drop_last();
        lemma_trim_end(shorter, p);
        let kept = trim_end_by(s, p).len() as int;
        assert(shorter.take(kept) =~= s.take(kept));
        assert forall|i: int| kept <= i < s.len() implies p(#[trigger] s[i]) by {
            if i < shorter.len() {
                assert(shorter[i] == s[i]);
            }
        }
    } else {
        assert(s.take(s.len() as int) =~= s);
    }
}

/// Trimming the start keeps an end of the text, drops only what is to be dropped, and leaves nothing
/// to drop.
proof fn lemma_trim_start(s: Seq<char>, p: spec_fn(char) -> bool)
    ensures
        trim_start_by(s, p).len() <= s.len(),
        trim_start_by(s, p) == s.skip(s.len() - trim_start_by(s, p).len()),
        forall|i: int| 0 <= i < s.len() - trim_start_by(s, p).len() ==> p(#[trigger] s[i]),
        trim_start_by(s, p).len() > 0 ==> !p(s[s.len() - trim_start_by(s, p).len()]),
    decreases s.len(),
{
    if s.len() > 0 && p(s.first()) {
        let shorter = s.drop_first();
        lemma_trim_start(shorter, p);
        let dropped = s.len() - trim_start_by(s, p).len();
        assert(shorter.skip(dropped - 1) =~= s.skip(dropped));
        assert forall|i: int| 0 <= i < dropped implies p(#[trigger] s[i]) by {
            if i > 0 {
                assert(shorter[i - 1] == s[i]);
            }
        }
    } else {
        assert(s.skip(0) =~= s);
    }
}

/// A trimmed text is the stretch from `r.0` to `r.1` of the text: there is nothing but white space
/// around it, and none at either of its ends.
pub proof fn law_trimming_drops_the_white_space_around(s: Seq<char>) -> (r: (int, int))
    ensures
        0 <= r.0 <= r.1 <= s.len(),
        trimmed(s) == s.subrange(r.0, r.1),
        forall|i: int| 0 <= i < r.0 ==> white_space(#[trigger] s[i]),
        forall|i: int| r.1 <= i < s.len() ==> white_space(#[trigger] s[i]),
        r.0 < r.1 ==> !white_space(s[r.0]) && !white_space(s[r.1 - 1]),
{
    let p = |c: char| white_space(c);
    let rest = trim_start_by(s, p);
    let start = s.len() - rest.len();
    lemma_trim_start(s, p);
    lemma_trim_end(rest, p);
    let kept = trim_end_by(rest, p).len() as int;
    assert(rest.take(kept) =~= s.subrange(start, start + kept));
    assert forall|i: int| 0 <= i < start implies white_space(#[trigger] s[i]) by {
        assert(p(s[i]));
    }
    assert forall|i: int| start + kept <= i < s.len() implies white_space(#[trigger] s[i]) by {
        assert(rest[i - start] == s[i]);
        assert(p(rest[i - start]));
    }
    if kept > 0 {
        assert(rest[kept - 1] == s[start + kept - 1]);
    }
    (start, start + kept)
}

/// Dropping the slashes at the end keeps a start of the text, drops nothing but slashes, and leaves
/// none at the end.
pub proof fn law_only_trailing_slashes_are_dropped(s: Seq<char>)
    ensures
        without_trailing_slashes(s).is_prefix_of(s),
        forall|i: int|
            without_trailing_slashes(s).len() <= i < s.len() ==> #[trigger] s[i] == '/',
        without_trailing_slashes(s).len() > 0 ==> without_trailing_slashes(s).last() != '/',
{
    let p = |c: char| c == '/';
    lemma_trim_end(s, p);
    assert forall|i: int| without_trailing_slashes(s).len() <= i < s.len() implies #[trigger] s[i]
        == '/' by {
        assert(p(s[i]));
    }
}

/// The first `n` characters are a start of the text, of `n` characters or of all there are.
pub proof fn law_the_first_characters_are_a_start(s: Seq<char>, n: nat)
    ensures
        first_chars(s, n).is_prefix_of(s),
        first_chars(s, n).len() == if s.len() < n {
            s.len()
        } else {
            n
        },
{
}

/// The number that a row of decimal digits stands for.
pub open spec fn number_of(text: Seq<char>) -> int
    decreases text.len(),
{
    if text.len() == 0 {
        0
    } else {
        10 * number_of(text.drop_last()) + (text.last() as int - '0' as int)
    }
}

/// A numeral is made of decimal digits, stands for its number, and has no leading zero but in `0`.
pub proof fn law_a_numeral_stands_for_its_number(n: nat)
    ensures
        number_of(decimal(n)) == n,
        decimal(n).len() > 0,
        forall|i: int| 0 <= i < decimal(n).len() ==> '0' <= #[trigger] decimal(n)[i] <= '9',
        n > 0 ==> decimal(n)[0] != '0',
        n < 10 ==> decimal(n).len() == 1,
    decreases n,
{
    if n < 10 {
        assert(decimal(n).drop_last() =~= Seq::<char>::empty());
        assert(number_of(decimal(n).drop_last()) == 0);
    } else {
        law_a_numeral_stands_for_its_number(n / 10);
        assert(decimal(n).drop_last() =~= decimal(n / 10));
    }
}

} // verus!
