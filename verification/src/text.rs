//! Character classes and the test that decides whether a name is usable.

use vstd::prelude::*;

verus! {

/// The code points that carry the Unicode `White_Space` property.
pub open spec fn is_whitespace(c: char) -> bool {
    let n = c as u32;
    ||| 0x09 <= n <= 0x0D
    ||| n == 0x20
    ||| n == 0x85
    ||| n == 0xA0
    ||| n == 0x1680
    ||| 0x2000 <= n <= 0x200A
    ||| n == 0x2028
    ||| n == 0x2029
    ||| n == 0x202F
    ||| n == 0x205F
    ||| n == 0x3000
}

/// A text is blank when nothing would be left of it once the white space at
/// both ends is taken away: every character of it is white space. The empty
/// text is blank.
pub open spec fn is_blank(text: Seq<char>) -> bool {
    forall|i: int| 0 <= i < text.len() ==> is_whitespace(#[trigger] text[i])
}

/// Decides whether `c` is white space.
pub fn char_is_whitespace(c: char) -> (b: bool)
    ensures
        b == is_whitespace(c),
{
    let n: u32 = c as u32;
    (0x09 <= n && n <= 0x0D) || n == 0x20 || n == 0x85 || n == 0xA0 || n == 0x1680 || (0x2000 <= n
        && n <= 0x200A) || n == 0x2028 || n == 0x2029 || n == 0x202F || n == 0x205F || n == 0x3000
}

/// Decides whether `text` is blank, in one pass over its characters.
pub fn text_is_blank(text: &str) -> (b: bool)
    ensures
        b == is_blank(text@),
{
    broadcast use vstd::string::group_string_axioms;

    for c in it: text.chars()
        invariant
            it.seq() == text@,
            forall|i: int| 0 <= i < it.index() ==> is_whitespace(#[trigger] text@[i]),
    {
        if !char_is_whitespace(c) {
            return false;
        }
    }
    true
}

} // verus!
