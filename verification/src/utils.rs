//! Helpers for text that is sent in a markup mode.

use crate::date::{formatted, numeric_pattern, Date};
use crate::text::{chars_of, string_of};
use vstd::prelude::*;

verus! {

/// The date as an alert shows it: the day and the month in two digits each
/// and the year in four, with hyphens between. A year outside 0 to 9999 has
/// its sign in front and as many digits as it takes.
pub fn format_date(date: Date) -> (out: String)
    ensures
        out@ == formatted(date@, numeric_pattern()),
        date@.valid(),
{
    date.numeric()
}

/// The characters that the markup mode reserves.
pub open spec fn is_reserved(c: char) -> bool {
    c == '_' || c == '*' || c == '[' || c == ']' || c == '(' || c == ')' || c == '~' || c == '`'
        || c == '>' || c == '#' || c == '+' || c == '-' || c == '=' || c == '|' || c == '{'
        || c == '}' || c == '.' || c == '!'
}

/// What one character of a payload becomes: a reserved character gets a
/// backslash in front of it, any other character stays as it is.
pub open spec fn escaped_char(c: char) -> Seq<char> {
    if is_reserved(c) {
        seq!['\\', c]
    } else {
        seq![c]
    }
}

/// The payload `text` with every reserved character escaped.
pub open spec fn escaped(text: Seq<char>) -> Seq<char>
    decreases text.len(),
{
    if text.len() == 0 {
        Seq::empty()
    } else {
        escaped(text.drop_last()) + escaped_char(text.last())
    }
}

/// The text of which `s` is the escaped form: a backslash in front of a
/// reserved character is left out, every other character is kept.
pub open spec fn unescaped(s: Seq<char>) -> Seq<char>
    decreases s.len(),
{
    if s.len() == 0 {
        Seq::empty()
    } else if s.len() >= 2 && s[0] == '\\' && is_reserved(s[1]) {
        seq![s[1]] + unescaped(s.subrange(2, s.len() as int))
    } else {
        seq![s[0]] + unescaped(s.drop_first())
    }
}

/// Escaping goes character by character: the escaped form of two texts put
/// together is that of the first followed by that of the second.
pub proof fn lemma_escaped_concat(a: Seq<char>, b: Seq<char>)
    ensures
        escaped(a + b) == escaped(a) + escaped(b),
    decreases b.len(),
{
    if b.len() == 0 {
        assert(a + b =~= a);
        assert(escaped(a) + escaped(b) =~= escaped(a));
    } else {
        lemma_escaped_concat(a, b.drop_last());
        assert((a + b).drop_last() =~= a + b.drop_last());
        assert((a + b).last() == b.last());
        assert(escaped(a + b) =~= escaped(a) + escaped(b));
    }
}

/// The escaped form of a text of one character.
pub proof fn lemma_escaped_one(c: char)
    ensures
        escaped(seq![c]) == escaped_char(c),
{
    let one = seq![c];
    assert(one.drop_last() =~= Seq::<char>::empty());
    assert(escaped(one.drop_last()) =~= Seq::<char>::empty());
    assert(one.last() == c);
    assert(escaped(one) =~= escaped_char(c));
}

/// Escaping loses nothing: the text can be had back from its escaped form.
pub proof fn lemma_unescaped_escaped(text: Seq<char>)
    ensures
        unescaped(escaped(text)) == text,
    decreases text.len(),
{
    if text.len() > 0 {
        let c = text.first();
        let rest = text.drop_first();
        assert(text =~= seq![c] + rest);
        lemma_escaped_concat(seq![c], rest);
        lemma_escaped_one(c);
        lemma_unescaped_escaped(rest);
        let out = escaped(text);
        assert(out =~= escaped_char(c) + escaped(rest));
        if is_reserved(c) {
            assert(out.subrange(2, out.len() as int) =~= escaped(rest));
            assert(unescaped(out) =~= text);
        } else {
            assert(out.drop_first() =~= escaped(rest));
            if rest.len() > 0 {
                let d = rest.first();
                let tail = rest.drop_first();
                assert(rest =~= seq![d] + tail);
                lemma_escaped_concat(seq![d], tail);
                lemma_escaped_one(d);
                assert(escaped(rest) =~= escaped_char(d) + escaped(tail));
                assert(!is_reserved(out[1]));
            }
            assert(unescaped(out) =~= text);
        }
    }
}

/// Two texts with one escaped form are one text.
pub proof fn lemma_escaped_injective(a: Seq<char>, b: Seq<char>)
    requires
        escaped(a) == escaped(b),
    ensures
        a == b,
{
    lemma_unescaped_escaped(a);
    lemma_unescaped_escaped(b);
}

fn reserved(c: char) -> (b: bool)
    ensures
        b == is_reserved(c),
{
    c == '_' || c == '*' || c == '[' || c == ']' || c == '(' || c == ')' || c == '~' || c == '`'
        || c == '>' || c == '#' || c == '+' || c == '-' || c == '=' || c == '|' || c == '{'
        || c == '}' || c == '.' || c == '!'
}

/// Escapes the characters that the markup mode reserves, so that the text is
/// shown literally.
pub fn escape_markdown(text: &str) -> (out: String)
    ensures
        out@ == escaped(text@),
{
    let input = chars_of(text);
    let mut output: Vec<char> = Vec::new();
    let mut i: usize = 0;
    while i < input.len()
        invariant
            i <= input.len(),
            output@ == escaped(input@.subrange(0, i as int)),
        decreases input.len() - i,
    {
        let c = input[i];
        if reserved(c) {
            output.push('\\');
        }
        output.push(c);
        i = i + 1;
        proof {
            let prefix = input@.subrange(0, i as int);
            assert(prefix.drop_last() =~= input@.subrange(0, i - 1));
            assert(output@ =~= escaped(prefix.drop_last()) + escaped_char(c));
        }
    }
    assert(input@.subrange(0, input.len() as int) =~= input@);
    string_of(&output)
}

} // verus!
