//! Escaping of names into the characters that a linker symbol may hold.

use vstd::prelude::*;

use crate::utils::validators::{
    fits_at, is_ascii_digit, is_ascii_letter, is_qualified_name, lemma_qualified_name_by_characters,
};

verus! {

/// The lowercase hexadecimal digit for a value from 0 to 15.
pub open spec fn hex_digit(value: int) -> char {
    if value < 10 {
        ('0' as int + value) as char
    } else {
        ('a' as int + value - 10) as char
    }
}

/// A code point in lowercase hexadecimal, most significant digit first, padded
/// with zeros to four digits. Code points end at `0x10FFFF`, so there are at most six.
pub open spec fn code_point_hex(n: int) -> Seq<char> {
    let low = seq![
        hex_digit(n / 0x1000 % 16),
        hex_digit(n / 0x100 % 16),
        hex_digit(n / 0x10 % 16),
        hex_digit(n % 16),
    ];
    if n < 0x10000 {
        low
    } else if n < 0x100000 {
        seq![hex_digit(n / 0x10000 % 16)] + low
    } else {
        seq![hex_digit(n / 0x100000 % 16), hex_digit(n / 0x10000 % 16)] + low
    }
}

/// What one character of a name becomes in a symbol.
///
/// `_`, `;` and `[` become `_1`, `_2` and `_3`; `.` becomes `_`; every other
/// ASCII character stands for itself; a character beyond ASCII becomes `_0`
/// followed by its code point in hexadecimal.
pub open spec fn escape_char(c: char) -> Seq<char> {
    if c == '_' {
        seq!['_', '1']
    } else if c == ';' {
        seq!['_', '2']
    } else if c == '[' {
        seq!['_', '3']
    } else if c == '.' {
        seq!['_']
    } else if (c as int) < 0x80 {
        seq![c]
    } else {
        seq!['_', '0'] + code_point_hex(c as int)
    }
}

/// The escaped form of a name: the escapes of its characters, in order.
pub open spec fn escape(s: Seq<char>) -> Seq<char>
    decreases s.len(),
{
    if s.len() == 0 {
        Seq::empty()
    } else {
        escape_char(s[0]) + escape(s.drop_first())
    }
}

/// Escaping distributes over concatenation.
pub proof fn lemma_escape_concat(a: Seq<char>, b: Seq<char>)
    ensures
        escape(a + b) == escape(a) + escape(b),
    decreases a.len(),
{
    if a.len() == 0 {
        assert(a + b =~= b);
    } else {
        lemma_escape_concat(a.drop_first(), b);
        assert((a + b).drop_first() =~= a.drop_first() + b);
        assert(escape_char(a[0]) + (escape(a.drop_first()) + escape(b)) =~= (escape_char(a[0])
            + escape(a.drop_first())) + escape(b));
    }
}

/// Escaping a name with one more character appends that character's escape.
pub proof fn lemma_escape_push(s: Seq<char>, c: char)
    ensures
        escape(s.push(c)) == escape(s) + escape_char(c),
{
    let last = seq![c];
    assert(escape(last) == escape_char(c)) by {
        assert(last.drop_first() =~= Seq::<char>::empty());
        assert(escape(last.drop_first()) =~= Seq::<char>::empty());
        assert(escape(last) =~= escape_char(last[0]) + escape(last.drop_first()));
    }
    lemma_escape_concat(s, last);
    assert(s.push(c) =~= s + last);
}

/// `String::push` of the standard library: the string gains `c` as its last
/// character and is otherwise unchanged.
#[verifier::external_body]
fn push_char(s: &mut String, c: char)
    ensures
        final(s)@ == old(s)@.push(c),
{
    s.push(c);
}

fn hex_digit_char(value: u32) -> (digit: char)
    requires
        value < 16,
    ensures
        digit == hex_digit(value as int),
{
    if value < 10 {
        ('0' as u8 + value as u8) as char
    } else {
        ('a' as u8 + (value - 10) as u8) as char
    }
}

fn push_code_point_hex(out: &mut String, n: u32)
    requires
        n <= 0x10FFFF,
    ensures
        final(out)@ == old(out)@ + code_point_hex(n as int),
{
    if n >= 0x100000 {
        push_char(out, hex_digit_char(n / 0x100000 % 16));
    }
    if n >= 0x10000 {
        push_char(out, hex_digit_char(n / 0x10000 % 16));
    }
    push_char(out, hex_digit_char(n / 0x1000 % 16));
    push_char(out, hex_digit_char(n / 0x100 % 16));
    push_char(out, hex_digit_char(n / 0x10 % 16));
    push_char(out, hex_digit_char(n % 16));
}

fn push_escaped(out: &mut String, c: char)
    ensures
        final(out)@ == old(out)@ + escape_char(c),
{
    if c == '_' {
        push_char(out, '_');
        push_char(out, '1');
    } else if c == ';' {
        push_char(out, '_');
        push_char(out, '2');
    } else if c == '[' {
        push_char(out, '_');
        push_char(out, '3');
    } else if c == '.' {
        push_char(out, '_');
    } else if (c as u32) < 0x80 {
        push_char(out, c);
    } else {
        push_char(out, '_');
        push_char(out, '0');
        push_code_point_hex(out, c as u32);
    }
}

/// Escapes a name for use in a symbol.
pub fn escape_string(s: &str) -> (result: String)
    ensures
        result@ == escape(s@),
{
    let mut result = String::new();
    for c in it: s.chars()
        invariant
            it.seq() == s@,
            result@ == escape(s@.take(it.index() as int)),
    {
        proof {
            let done = s@.take(it.index() as int);
            lemma_escape_push(done, c);
            assert(s@.take(it.index() + 1) =~= done.push(c));
        }
        push_escaped(&mut result, c);
    }
    assert(s@.take(s@.len() as int) =~= s@);
    result
}

/// A character that a symbol may hold: an ASCII letter, a digit or `_`.
pub open spec fn is_symbol_char(c: char) -> bool {
    is_ascii_letter(c) || is_ascii_digit(c) || c == '_'
}

/// A text that only holds characters that a symbol may hold.
pub open spec fn is_symbol(s: Seq<char>) -> bool {
    forall|i: int| 0 <= i < s.len() ==> is_symbol_char(#[trigger] s[i])
}

/// A character whose escape a symbol may hold: one that a symbol may hold
/// itself, one of `;`, `[` and `.`, or one beyond ASCII. The other ASCII
/// characters pass through escaping unchanged and stay out of place.
pub open spec fn escapes_to_symbol(c: char) -> bool {
    is_symbol_char(c) || c == ';' || c == '[' || c == '.' || (c as int) >= 0x80
}

proof fn lemma_code_point_hex_is_symbol(n: int)
    requires
        0 <= n,
    ensures
        4 <= code_point_hex(n).len() <= 6,
        is_symbol(code_point_hex(n)),
{
}

proof fn lemma_escape_char_is_symbol(c: char)
    ensures
        is_symbol(escape_char(c)) <==> escapes_to_symbol(c),
{
    if (c as int) >= 0x80 {
        lemma_code_point_hex_is_symbol(c as int);
    } else {
        assert(escape_char(c)[0] == if c == ';' || c == '[' || c == '.' {
            '_'
        } else {
            c
        });
    }
}

/// A name whose escaped form is fit for a symbol: each of its characters has
/// an escape that is.
pub open spec fn escapes_to_symbols(s: Seq<char>) -> bool {
    forall|i: int| 0 <= i < s.len() ==> escapes_to_symbol(#[trigger] s[i])
}

/// Two texts joined are fit for a symbol exactly if both are.
pub proof fn lemma_symbol_concat(a: Seq<char>, b: Seq<char>)
    ensures
        is_symbol(a + b) <==> is_symbol(a) && is_symbol(b),
{
    if is_symbol(a + b) {
        assert forall|i: int| 0 <= i < a.len() implies is_symbol_char(#[trigger] a[i]) by {
            assert(a[i] == (a + b)[i]);
        }
        assert forall|i: int| 0 <= i < b.len() implies is_symbol_char(#[trigger] b[i]) by {
            assert(b[i] == (a + b)[a.len() + i]);
        }
    }
}

/// The escaped form of a name is fit for a symbol exactly if each character
/// of the name has an escape that is.
pub proof fn lemma_escape_is_symbol(s: Seq<char>)
    ensures
        is_symbol(escape(s)) <==> escapes_to_symbols(s),
    decreases s.len(),
{
    if s.len() > 0 {
        let rest = s.drop_first();
        lemma_escape_is_symbol(rest);
        lemma_escape_char_is_symbol(s[0]);
        lemma_symbol_concat(escape_char(s[0]), escape(rest));
        if escapes_to_symbols(rest) && escapes_to_symbol(s[0]) {
            assert forall|i: int| 0 <= i < s.len() implies escapes_to_symbol(#[trigger] s[i]) by {
                if i > 0 {
                    assert(s[i] == rest[i - 1]);
                }
            }
        }
        if escapes_to_symbols(s) {
            assert(escapes_to_symbol(s[0]));
            assert forall|i: int| 0 <= i < rest.len() implies escapes_to_symbol(
                #[trigger] rest[i],
            ) by {
                assert(rest[i] == s[i + 1]);
            }
        }
    }
}

/// One of the digits that follow `_` in the escapes of `_`, `;` and `[`.
pub open spec fn is_escape_digit(c: char) -> bool {
    c == '1' || c == '2' || c == '3'
}

/// A name that can be read back from its escaped form: it is ASCII, and in
/// it no `.` stands directly before `1`, `2` or `3`.
///
/// The escape of `.` is a bare `_`, so `.1` and `_` are both escaped to `_1`,
/// and likewise `.2` and `;`, `.3` and `[`. In the same way a character
/// beyond ASCII shares its escape with an ASCII name: `_0` and the digits of
/// its code point are also the escape of `.0` and those digits. Java names
/// are free of both: no part of a dotted name begins with a digit.
pub open spec fn is_reversible(s: Seq<char>) -> bool {
    &&& forall|i: int| 0 <= i < s.len() ==> (#[trigger] s[i] as int) < 0x80
    &&& forall|i: int| 0 <= i < s.len() - 1 && #[trigger] s[i] == '.' ==> !is_escape_digit(s[i + 1])
}

/// Reads an escaped name back, from left to right: `_1`, `_2` and `_3` are
/// `_`, `;` and `[`, any other `_` is `.`, and every other character stands
/// for itself.
pub open spec fn unescape(t: Seq<char>) -> Seq<char>
    decreases t.len(),
{
    if t.len() == 0 {
        Seq::empty()
    } else if t[0] != '_' {
        seq![t[0]] + unescape(t.skip(1))
    } else if t.len() >= 2 && t[1] == '1' {
        seq!['_'] + unescape(t.skip(2))
    } else if t.len() >= 2 && t[1] == '2' {
        seq![';'] + unescape(t.skip(2))
    } else if t.len() >= 2 && t[1] == '3' {
        seq!['['] + unescape(t.skip(2))
    } else {
        seq!['.'] + unescape(t.skip(1))
    }
}

proof fn lemma_escape_starts(s: Seq<char>)
    requires
        s.len() > 0,
        (s[0] as int) < 0x80,
    ensures
        escape(s).len() > 0,
        escape(s)[0] == if s[0] == ';' || s[0] == '[' || s[0] == '.' {
            '_'
        } else {
            s[0]
        },
{
    assert(escape(s)[0] == escape_char(s[0])[0]);
}

/// Reading back the escaped form of a reversible name gives the name.
pub proof fn lemma_unescape_escape(s: Seq<char>)
    requires
        is_reversible(s),
    ensures
        unescape(escape(s)) == s,
    decreases s.len(),
{
    if s.len() > 0 {
        let c = s[0];
        let rest = s.drop_first();
        let escaped = escape(s);
        assert(is_reversible(rest)) by {
            assert forall|i: int| 0 <= i < rest.len() implies (#[trigger] rest[i] as int)
                < 0x80 by {
                assert(rest[i] == s[i + 1]);
            }
            assert forall|i: int|
                0 <= i < rest.len() - 1 && #[trigger] rest[i] == '.' implies !is_escape_digit(
                rest[i + 1],
            ) by {
                assert(s[i + 1] == '.');
            }
        }
        lemma_unescape_escape(rest);
        assert(escaped == escape_char(c) + escape(rest));
        assert(escaped.skip(escape_char(c).len() as int) =~= escape(rest));
        if c == '.' && rest.len() > 0 {
            lemma_escape_starts(rest);
            assert(rest[0] == s[1]);
            assert(escaped[1] == escape(rest)[0]);
        }
        assert(unescape(escaped) =~= seq![c] + rest);
        assert(seq![c] + rest =~= s);
    }
}

/// Escaping tells reversible names apart: two of them with the same escaped
/// form are the same name.
pub proof fn lemma_escape_injective(a: Seq<char>, b: Seq<char>)
    requires
        is_reversible(a),
        is_reversible(b),
        escape(a) == escape(b),
    ensures
        a == b,
{
    lemma_unescape_escape(a);
    lemma_unescape_escape(b);
}

/// A character that escaping leaves as it is: an ASCII character other than
/// `_`, `;`, `[` and `.`.
pub open spec fn is_plain(c: char) -> bool {
    (c as int) < 0x80 && c != '_' && c != ';' && c != '[' && c != '.'
}

/// A name of plain characters is its own escaped form.
pub proof fn lemma_escape_plain(s: Seq<char>)
    requires
        forall|i: int| 0 <= i < s.len() ==> is_plain(#[trigger] s[i]),
    ensures
        escape(s) == s,
    decreases s.len(),
{
    if s.len() > 0 {
        let rest = s.drop_first();
        assert forall|i: int| 0 <= i < rest.len() implies is_plain(#[trigger] rest[i]) by {
            assert(rest[i] == s[i + 1]);
        }
        lemma_escape_plain(rest);
        assert(is_plain(s[0]));
        assert(seq![s[0]] + rest =~= s);
    }
}

/// A name in which a `.` stands before `1`, `2` or `3` has no escaped form of
/// its own: with `_`, `;` or `[` in place of the two it is escaped the same.
pub proof fn lemma_dot_before_digit_runs_together(before: Seq<char>, after: Seq<char>)
    ensures
        escape(before + seq!['.', '1'] + after) == escape(before + seq!['_'] + after),
        escape(before + seq!['.', '2'] + after) == escape(before + seq![';'] + after),
        escape(before + seq!['.', '3'] + after) == escape(before + seq!['['] + after),
{
    let dot = Seq::<char>::empty().push('.');
    lemma_escape_push(Seq::empty(), '.');
    lemma_escape_push(Seq::empty(), '_');
    lemma_escape_push(Seq::empty(), ';');
    lemma_escape_push(Seq::empty(), '[');
    lemma_escape_push(dot, '1');
    lemma_escape_push(dot, '2');
    lemma_escape_push(dot, '3');
    assert(escape(Seq::<char>::empty()) =~= Seq::<char>::empty());
    assert(escape(seq!['.', '1']) =~= escape(seq!['_'])) by {
        assert(dot.push('1') =~= seq!['.', '1']);
        assert(Seq::<char>::empty().push('_') =~= seq!['_']);
    }
    assert(escape(seq!['.', '2']) =~= escape(seq![';'])) by {
        assert(dot.push('2') =~= seq!['.', '2']);
        assert(Seq::<char>::empty().push(';') =~= seq![';']);
    }
    assert(escape(seq!['.', '3']) =~= escape(seq!['['])) by {
        assert(dot.push('3') =~= seq!['.', '3']);
        assert(Seq::<char>::empty().push('[') =~= seq!['[']);
    }
    lemma_escape_concat(before, seq!['.', '1']);
    lemma_escape_concat(before + seq!['.', '1'], after);
    lemma_escape_concat(before, seq!['_']);
    lemma_escape_concat(before + seq!['_'], after);
    lemma_escape_concat(before, seq!['.', '2']);
    lemma_escape_concat(before + seq!['.', '2'], after);
    lemma_escape_concat(before, seq![';']);
    lemma_escape_concat(before + seq![';'], after);
    lemma_escape_concat(before, seq!['.', '3']);
    lemma_escape_concat(before + seq!['.', '3'], after);
    lemma_escape_concat(before, seq!['[']);
    lemma_escape_concat(before + seq!['['], after);
}

/// A name with a character beyond ASCII has no escaped form of its own: with
/// `.0` and the digits of the code point in place of the character it is
/// escaped the same.
pub proof fn lemma_code_point_runs_together(before: Seq<char>, c: char, after: Seq<char>)
    requires
        (c as int) >= 0x80,
    ensures
        escape(before + seq![c] + after) == escape(
            before + (seq!['.', '0'] + code_point_hex(c as int)) + after,
        ),
{
    let dot = Seq::<char>::empty().push('.');
    let digits = code_point_hex(c as int);
    let spelled = seq!['.', '0'] + digits;
    lemma_escape_push(Seq::empty(), '.');
    lemma_escape_push(Seq::empty(), c);
    lemma_escape_push(dot, '0');
    lemma_escape_plain(digits);
    lemma_escape_concat(seq!['.', '0'], digits);
    assert(escape(Seq::<char>::empty()) =~= Seq::<char>::empty());
    assert(escape(spelled) =~= escape(seq![c])) by {
        assert(dot.push('0') =~= seq!['.', '0']);
        assert(Seq::<char>::empty().push(c) =~= seq![c]);
    }
    lemma_escape_concat(before, seq![c]);
    lemma_escape_concat(before + seq![c], after);
    lemma_escape_concat(before, spelled);
    lemma_escape_concat(before + spelled, after);
}

/// Every dotted name of Java identifiers is reversible.
pub proof fn lemma_qualified_name_is_reversible(s: Seq<char>)
    requires
        is_qualified_name(s),
    ensures
        is_reversible(s),
{
    lemma_qualified_name_by_characters(s);
    assert forall|i: int| 0 <= i < s.len() implies (#[trigger] s[i] as int) < 0x80 by {
        assert(fits_at(s, i));
    }
    assert forall|i: int| 0 <= i < s.len() - 1 && #[trigger] s[i] == '.' implies !is_escape_digit(
        s[i + 1],
    ) by {
        assert(fits_at(s, i + 1));
    }
}

/// Two valid Java names with the same escaped form are the same name. This
/// holds of packages and classes, and of methods, which are dotted names
/// without a dot.
pub proof fn lemma_valid_names_escape_apart(a: Seq<char>, b: Seq<char>)
    requires
        is_qualified_name(a),
        is_qualified_name(b),
        escape(a) == escape(b),
    ensures
        a == b,
{
    lemma_qualified_name_is_reversible(a);
    lemma_qualified_name_is_reversible(b);
    lemma_escape_injective(a, b);
}

} // verus!
