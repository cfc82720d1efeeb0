//! Escaping text for the messaging provider's markup.

use vstd::prelude::*;

verus! {

/// Whether the markup gives `c` a meaning of its own in running text.
pub open spec fn is_reserved(c: char) -> bool {
    c == '_' || c == '*' || c == '[' || c == ']' || c == '(' || c == ')' || c == '~' || c == '`'
        || c == '>' || c == '#' || c == '+' || c == '-' || c == '=' || c == '|' || c == '{' || c
        == '}' || c == '.' || c == '!' || c == '\\'
}

/// One character of running text, as the markup wants it written.
pub open spec fn escape_char(c: char) -> Seq<char> {
    if is_reserved(c) {
        seq!['\\', c]
    } else {
        seq![c]
    }
}

/// Running text with a backslash before every reserved character.
pub open spec fn escaped(text: Seq<char>) -> Seq<char>
    decreases text.len(),
{
    if text.len() == 0 {
        Seq::empty()
    } else {
        escaped(text.drop_last()) + escape_char(text.last())
    }
}

/// Whether `c` is reserved in running text.
pub fn reserved(c: char) -> (r: bool)
    ensures
        r == is_reserved(c),
{
    c == '_' || c == '*' || c == '[' || c == ']' || c == '(' || c == ')' || c == '~' || c == '`'
        || c == '>' || c == '#' || c == '+' || c == '-' || c == '=' || c == '|' || c == '{' || c
        == '}' || c == '.' || c == '!' || c == '\\'
}

/// Writes `text` so that the markup shows it literally.
pub fn escape_markdown(text: &str) -> (out: String)
    ensures
        out@ == escaped(text@),
{
    let mut out = String::new();
    for c in it: text.chars()
        invariant
            it.seq() == text@,
            out@ == escaped(text@.subrange(0, it.index() as int)),
    {
        assert(text@.subrange(0, it.index() + 1).drop_last() =~= text@.subrange(
            0,
            it.index() as int,
        ));
        if reserved(c) {
            out.push('\\');
        }
        out.push(c);
        assert(out@ =~= escaped(text@.subrange(0, it.index() + 1)));
    }
    assert(text@.subrange(0, text@.len() as int) =~= text@);
    out
}

} // verus!
