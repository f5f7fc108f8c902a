//! Unicode white space, and what is left of a text once it is trimmed.

use vstd::prelude::*;

verus! {

/// Whether `c` has the Unicode property `White_Space`: the twenty-five code
/// points that the Unicode Character Database lists under that name, which
/// are the controls U+0009 to U+000D and U+0085, the space separators, and
/// the line and paragraph separators.
pub open spec fn is_white_space(c: char) -> bool {
    ||| '\u{0009}' <= c <= '\u{000D}'
    ||| c == '\u{0020}'
    ||| c == '\u{0085}'
    ||| c == '\u{00A0}'
    ||| c == '\u{1680}'
    ||| '\u{2000}' <= c <= '\u{200A}'
    ||| c == '\u{2028}'
    ||| c == '\u{2029}'
    ||| c == '\u{202F}'
    ||| c == '\u{205F}'
    ||| c == '\u{3000}'
}

/// `s` without its leading white space.
pub open spec fn trim_start(s: Seq<char>) -> Seq<char>
    decreases s.len(),
{
    if s.len() > 0 && is_white_space(s.first()) {
        trim_start(s.drop_first())
    } else {
        s
    }
}

/// `s` without its trailing white space.
pub open spec fn trim_end(s: Seq<char>) -> Seq<char>
    decreases s.len(),
{
    if s.len() > 0 && is_white_space(s.last()) {
        trim_end(s.drop_last())
    } else {
        s
    }
}

/// `s` without its leading and trailing white space.
pub open spec fn trimmed(s: Seq<char>) -> Seq<char> {
    trim_end(trim_start(s))
}

/// A text is blank when nothing is left of it after trimming.
pub open spec fn is_blank(s: Seq<char>) -> bool {
    trimmed(s).len() == 0
}

/// Whether every code point of `s` is white space. The empty text is such a
/// text.
pub open spec fn all_white_space(s: Seq<char>) -> bool {
    forall|i: int| 0 <= i < s.len() ==> is_white_space(#[trigger] s[i])
}

/// Where trimming at the start cuts: `trim_start(s)` is `s` from the index
/// `cut` on, before `cut` there is white space only, and the code point at
/// `cut`, if there is one, is no white space.
pub proof fn lemma_trim_start(s: Seq<char>) -> (cut: int)
    ensures
        0 <= cut <= s.len(),
        trim_start(s) == s.subrange(cut, s.len() as int),
        all_white_space(s.subrange(0, cut)),
        cut < s.len() ==> !is_white_space(s[cut]),
    decreases s.len(),
{
    if s.len() > 0 && is_white_space(s.first()) {
        let rest = s.drop_first();
        let cut_of_rest = lemma_trim_start(rest);
        let cut = cut_of_rest + 1;
        assert forall|i: int| 0 <= i < cut implies is_white_space(
            #[trigger] s.subrange(0, cut)[i],
        ) by {
            if i > 0 {
                assert(s.subrange(0, cut)[i] == rest.subrange(0, cut_of_rest)[i - 1]);
            }
        }
        cut
    } else {
        0
    }
}

/// Where trimming at the end cuts: `trim_end(s)` is `s` up to the index
/// `cut`, from `cut` on there is white space only, and the code point before
/// `cut`, if there is one, is no white space.
pub proof fn lemma_trim_end(s: Seq<char>) -> (cut: int)
    ensures
        0 <= cut <= s.len(),
        trim_end(s) == s.subrange(0, cut),
        all_white_space(s.subrange(cut, s.len() as int)),
        cut > 0 ==> !is_white_space(s[cut - 1]),
    decreases s.len(),
{
    if s.len() > 0 && is_white_space(s.last()) {
        let rest = s.drop_last();
        let cut = lemma_trim_end(rest);
        assert forall|i: int| 0 <= i < s.len() - cut implies is_white_space(
            #[trigger] s.subrange(cut, s.len() as int)[i],
        ) by {
            if cut + i < rest.len() {
                assert(s.subrange(cut, s.len() as int)[i] == rest.subrange(
                    cut,
                    rest.len() as int,
                )[i]);
            }
        }
        cut
    } else {
        s.len() as int
    }
}

/// What trimming leaves: `trimmed(s)` is the part of `s` between two
/// indices, with nothing but white space before the first and from the
/// second on, and, unless it is empty, with a first and a last code point
/// that are no white space.
pub proof fn lemma_trimmed(s: Seq<char>) -> (ends: (int, int))
    ensures
        0 <= ends.0 <= ends.1 <= s.len(),
        trimmed(s) == s.subrange(ends.0, ends.1),
        all_white_space(s.subrange(0, ends.0)),
        all_white_space(s.subrange(ends.1, s.len() as int)),
        ends.0 < ends.1 ==> !is_white_space(s[ends.0]) && !is_white_space(s[ends.1 - 1]),
{
    let start = lemma_trim_start(s);
    let tail = s.subrange(start, s.len() as int);
    let kept = lemma_trim_end(tail);
    let end = start + kept;
    assert(tail.subrange(kept, tail.len() as int) == s.subrange(end, s.len() as int));
    (start, end)
}

/// A text is blank exactly when it is empty or all its code points are
/// white space.
pub proof fn lemma_blank_iff_all_white_space(s: Seq<char>)
    ensures
        is_blank(s) <==> all_white_space(s),
{
    let (start, end) = lemma_trimmed(s);
    if start == end {
        assert forall|i: int| 0 <= i < s.len() implies is_white_space(#[trigger] s[i]) by {
            if i < start {
                assert(s[i] == s.subrange(0, start)[i]);
            } else {
                assert(s[i] == s.subrange(end, s.len() as int)[i - end]);
            }
        }
    }
}

/// `str::trim` of std. It returns the slice of `s` that is left when the
/// leading and the trailing characters with the property `White_Space` are
/// taken off. Not proved: Verus takes this contract as given.
pub assume_specification[ str::trim ](s: &str) -> (t: &str)
    ensures
        t@ == trimmed(s@),
;

/// Whether `s` is empty or holds white space only.
pub fn blank(s: &str) -> (b: bool)
    ensures
        b == is_blank(s@),
{
    s.trim().is_empty()
}

} // verus!
