//! Validation of Java package, class and method names.

use vstd::prelude::*;

verus! {

/// An ASCII letter, `A` to `Z` or `a` to `z`.
pub open spec fn is_ascii_letter(c: char) -> bool {
    ('a' <= c && c <= 'z') || ('A' <= c && c <= 'Z')
}

/// An ASCII decimal digit.
pub open spec fn is_ascii_digit(c: char) -> bool {
    '0' <= c && c <= '9'
}

/// A character that may begin a Java identifier: a letter, `$` or `_`.
pub open spec fn is_identifier_start(c: char) -> bool {
    is_ascii_letter(c) || c == '$' || c == '_'
}

/// A character that may continue a Java identifier: a letter, a digit, `$` or `_`.
pub open spec fn is_identifier_part(c: char) -> bool {
    is_identifier_start(c) || is_ascii_digit(c)
}

/// A Java identifier: one start character followed by any number of part
/// characters.
pub open spec fn is_identifier(s: Seq<char>) -> bool {
    &&& s.len() > 0
    &&& is_identifier_start(s[0])
    &&& forall|i: int| 1 <= i < s.len() ==> is_identifier_part(#[trigger] s[i])
}

/// `s[from..to]` is one of the segments into which the dots of `s` divide it:
/// it holds no dot, and on either side it ends at a dot or at an end of `s`.
pub open spec fn is_segment(s: Seq<char>, from: int, to: int) -> bool {
    &&& 0 <= from <= to <= s.len()
    &&& (from == 0 || s[from - 1] == '.')
    &&& (to == s.len() || s[to] == '.')
    &&& forall|k: int| from <= k < to ==> s[k] != '.'
}

/// A dotted name, such as `com.example`: every segment between its dots is an
/// identifier. The empty segment is none, so the name is not empty and has no
/// dot at either end nor two dots in a row.
pub open spec fn is_qualified_name(s: Seq<char>) -> bool {
    forall|from: int, to: int| #[trigger]
        is_segment(s, from, to) ==> is_identifier(s.subrange(from, to))
}

/// Whether the character at `i` may stand there in a dotted name: a start
/// character where a segment begins, and a part character or a dot elsewhere.
pub open spec fn fits_at(s: Seq<char>, i: int) -> bool {
    if i == 0 || s[i - 1] == '.' {
        is_identifier_start(s[i])
    } else {
        s[i] == '.' || is_identifier_part(s[i])
    }
}

/// Where the segment that begins at or before `i` ends: at the first dot from
/// `i` on, or at the end of `s`.
spec fn segment_end(s: Seq<char>, i: int) -> int
    decreases s.len() - i,
{
    if i >= s.len() || s[i] == '.' {
        i
    } else {
        segment_end(s, i + 1)
    }
}

/// Where the segment that reaches `i` begins: after the last dot before `i`,
/// or at the start of `s`.
spec fn segment_start(s: Seq<char>, i: int) -> int
    decreases i,
{
    if i <= 0 || s[i - 1] == '.' {
        i
    } else {
        segment_start(s, i - 1)
    }
}

proof fn lemma_segment_end(s: Seq<char>, i: int)
    requires
        0 <= i <= s.len(),
    ensures
        i <= segment_end(s, i) <= s.len(),
        segment_end(s, i) == s.len() || s[segment_end(s, i)] == '.',
        forall|k: int| i <= k < segment_end(s, i) ==> s[k] != '.',
    decreases s.len() - i,
{
    if i < s.len() && s[i] != '.' {
        lemma_segment_end(s, i + 1);
    }
}

proof fn lemma_segment_start(s: Seq<char>, i: int)
    requires
        0 <= i <= s.len(),
    ensures
        0 <= segment_start(s, i) <= i,
        segment_start(s, i) == 0 || s[segment_start(s, i) - 1] == '.',
        forall|k: int| segment_start(s, i) <= k < i ==> s[k] != '.',
    decreases i,
{
    if i > 0 && s[i - 1] != '.' {
        lemma_segment_start(s, i - 1);
    }
}

/// A dotted name can be told character by character: it is not empty, does
/// not end in a dot, and each of its characters fits where it stands.
pub proof fn lemma_qualified_name_by_characters(s: Seq<char>)
    ensures
        is_qualified_name(s) <==> {
            &&& s.len() > 0
            &&& s.last() != '.'
            &&& forall|i: int| 0 <= i < s.len() ==> fits_at(s, i)
        },
{
    let by_characters = {
        &&& s.len() > 0
        &&& s.last() != '.'
        &&& forall|i: int| 0 <= i < s.len() ==> fits_at(s, i)
    };
    if by_characters {
        assert forall|from: int, to: int| #[trigger] is_segment(s, from, to) implies is_identifier(
            s.subrange(from, to),
        ) by {
            let segment = s.subrange(from, to);
            assert(from < s.len());
            assert(fits_at(s, from));
            assert(from < to);
            assert(segment[0] == s[from]);
            assert forall|i: int| 1 <= i < segment.len() implies is_identifier_part(
                #[trigger] segment[i],
            ) by {
                assert(fits_at(s, from + i));
                assert(s[from + i - 1] != '.');
            }
        }
    }
    if is_qualified_name(s) {
        if s.len() == 0 || s.last() == '.' {
            assert(is_segment(s, s.len() as int, s.len() as int));
            assert(s.subrange(s.len() as int, s.len() as int).len() == 0);
        }
        assert forall|i: int| 0 <= i < s.len() implies fits_at(s, i) by {
            let from = segment_start(s, i);
            let to = segment_end(s, i);
            lemma_segment_start(s, i);
            lemma_segment_end(s, i);
            assert(is_segment(s, from, to));
            let segment = s.subrange(from, to);
            assert(is_identifier(segment));
            if i == 0 || s[i - 1] == '.' {
                assert(from == i);
                assert(segment[0] == s[i]);
            } else if s[i] != '.' {
                assert(from < i < to);
                assert(segment[i - from] == s[i]);
            }
        }
    }
}

/// An identifier is a dotted name without a dot, and the other way round.
pub proof fn lemma_identifier_is_undotted_name(s: Seq<char>)
    ensures
        is_identifier(s) <==> is_qualified_name(s) && !s.contains('.'),
{
    lemma_qualified_name_by_characters(s);
    if is_identifier(s) {
        assert forall|i: int| 0 <= i < s.len() implies fits_at(s, i) && s[i] != '.' by {
            if i > 0 {
                assert(is_identifier_part(s[i]));
                if i > 1 {
                    assert(is_identifier_part(s[i - 1]));
                }
            }
        }
    }
    if is_qualified_name(s) && !s.contains('.') {
        assert(is_segment(s, 0, s.len() as int));
        assert(s.subrange(0, s.len() as int) =~= s);
    }
}

/// Two texts joined by a dot are a dotted name exactly if each of them is
/// one. With the law before, this tells all dotted names: they are the
/// identifiers, and what a dot joins of dotted names.
pub proof fn lemma_qualified_name_join(a: Seq<char>, b: Seq<char>)
    ensures
        is_qualified_name(a + seq!['.'] + b) <==> is_qualified_name(a) && is_qualified_name(b),
{
    let s = a + seq!['.'] + b;
    let dot = a.len() as int;
    lemma_qualified_name_by_characters(s);
    lemma_qualified_name_by_characters(a);
    lemma_qualified_name_by_characters(b);
    assert(s[dot] == '.');
    assert forall|i: int| 0 <= i < a.len() implies fits_at(s, i) == fits_at(a, i) by {
        assert(s[i] == a[i]);
        if i > 0 {
            assert(s[i - 1] == a[i - 1]);
        }
    }
    assert forall|i: int| 0 <= i < b.len() implies fits_at(s, dot + 1 + i) == fits_at(b, i) by {
        assert(s[dot + 1 + i] == b[i]);
        if i > 0 {
            assert(s[dot + i] == b[i - 1]);
        }
    }
    if is_qualified_name(s) {
        assert(fits_at(s, dot));
        assert(a.len() > 0 && a.last() == s[dot - 1]);
        assert(b.len() > 0 && b.last() == s.last());
        assert forall|i: int| 0 <= i < a.len() implies fits_at(a, i) by {
            assert(fits_at(s, i));
        }
        assert forall|i: int| 0 <= i < b.len() implies fits_at(b, i) by {
            assert(fits_at(s, dot + 1 + i));
        }
    }
    if is_qualified_name(a) && is_qualified_name(b) {
        assert(s.last() == b.last());
        assert forall|i: int| 0 <= i < s.len() implies fits_at(s, i) by {
            if i < dot {
                assert(fits_at(a, i));
            } else if i == dot {
                assert(s[dot - 1] == a.last());
                assert(fits_at(a, dot - 1));
            } else {
                assert(fits_at(b, i - dot - 1));
                assert(fits_at(s, dot + 1 + (i - dot - 1)) == fits_at(b, i - dot - 1));
            }
        }
    }
}

fn identifier_start(c: char) -> (r: bool)
    ensures
        r == is_identifier_start(c),
{
    (c >= 'a' && c <= 'z') || (c >= 'A' && c <= 'Z') || c == '$' || c == '_'
}

fn identifier_part(c: char) -> (r: bool)
    ensures
        r == is_identifier_part(c),
{
    identifier_start(c) || (c >= '0' && c <= '9')
}

/// Returns true if a package name is valid.
pub fn is_valid_package(package: &str) -> (valid: bool)
    ensures
        valid == is_qualified_name(package@),
{
    let mut valid = true;
    let mut at_start = true;
    for c in it: package.chars()
        invariant
            it.seq() == package@,
            at_start == (it.index() == 0 || package@[it.index() - 1] == '.'),
            valid == (forall|j: int| 0 <= j < it.index() ==> fits_at(package@, j)),
    {
        let fits = if at_start {
            identifier_start(c)
        } else {
            c == '.' || identifier_part(c)
        };
        assert(fits == fits_at(package@, it.index() as int));
        valid = valid && fits;
        at_start = c == '.';
    }
    proof {
        lemma_qualified_name_by_characters(package@);
    }
    valid && !at_start
}

/// Returns true if a class name is valid. A class name may be dotted, as that
/// of a nested class is, so it follows the same rule as a package name.
pub fn is_valid_class(class_name: &str) -> (valid: bool)
    ensures
        valid == is_qualified_name(class_name@),
{
    is_valid_package(class_name)
}

/// Returns true if a single segment of a package name is valid: if it is a
/// Java identifier.
pub fn is_valid_package_segment(segment: &str) -> (valid: bool)
    ensures
        valid == is_identifier(segment@),
{
    let mut valid = true;
    let mut first = true;
    for c in it: segment.chars()
        invariant
            it.seq() == segment@,
            first == (it.index() == 0),
            valid == (forall|j: int|
                0 <= j < it.index() ==> if j == 0 {
                    is_identifier_start(#[trigger] segment@[j])
                } else {
                    is_identifier_part(segment@[j])
                }),
    {
        if first {
            valid = identifier_start(c);
            first = false;
        } else {
            valid = valid && identifier_part(c);
        }
    }
    valid && !first
}

/// Returns true if a method name is valid. A method name is a single
/// identifier: it has no dots.
pub fn is_valid_method(method_name: &str) -> (valid: bool)
    ensures
        valid == is_identifier(method_name@),
{
    is_valid_package_segment(method_name)
}

} // verus!
