//! Small verified helpers on strings.

use vstd::prelude::*;
use vstd::string::*;
use vstd::utf8::*;

verus! {

/// Whether `c` is white space: one of the code points that Unicode marks
/// `White_Space`, which are the ones that trimming a text removes.
pub open spec fn is_space(c: char) -> bool {
    let n = c as u32;
    ||| 0x09 <= n <= 0x0D
    ||| n == 0x20
    ||| n == 0x85
    ||| n == 0xA0
    ||| n == 0x1680
    ||| 0x2000 <= n <= 0x200A
    ||| n == 0x2028
    ||| n == 0x2029
    ||| n == 0x202F
    ||| n == 0x205F
    ||| n == 0x3000
}

/// Whether `text` holds nothing but white space. The empty text is blank.
pub open spec fn blank(text: Seq<char>) -> bool {
    forall|i: int| 0 <= i < text.len() ==> is_space(#[trigger] text[i])
}

/// Whether `text` ends with `suffix`, character for character.
pub open spec fn ends_with(text: Seq<char>, suffix: Seq<char>) -> bool {
    &&& suffix.len() <= text.len()
    &&& text.subrange(text.len() - suffix.len(), text.len() as int) == suffix
}

/// Tells whether a character is white space.
pub fn is_whitespace(c: char) -> (answer: bool)
    ensures
        answer == is_space(c),
{
    let n: u32 = c as u32;
    (0x09 <= n && n <= 0x0D) || n == 0x20 || n == 0x85 || n == 0xA0 || n == 0x1680 || (0x2000 <= n
        && n <= 0x200A) || n == 0x2028 || n == 0x2029 || n == 0x202F || n == 0x205F || n == 0x3000
}

/// Tells whether a text is empty once white space is trimmed from both ends,
/// which is to say whether it holds white space only.
pub fn is_blank(text: &str) -> (answer: bool)
    ensures
        answer == blank(text@),
{
    let mut chars = text.chars();
    for c in it: chars
        invariant
            it.seq() == text@,
            forall|i: int| 0 <= i < it.index() ==> is_space(#[trigger] text@[i]),
    {
        if !is_whitespace(c) {
            return false;
        }
    }
    true
}

/// Compares two texts.
pub fn same_text(left: &str, right: &str) -> (answer: bool)
    ensures
        answer == (left@ == right@),
{
    let a = left.as_bytes();
    let b = right.as_bytes();
    proof {
        encode_utf8_decode_utf8(left@);
        encode_utf8_decode_utf8(right@);
    }
    if a.len() != b.len() {
        return false;
    }
    let mut i: usize = 0;
    while i < a.len()
        invariant
            i <= a.len(),
            a.len() == b.len(),
            a@ == encode_utf8(left@),
            b@ == encode_utf8(right@),
            forall|k: int| 0 <= k < i ==> a@[k] == b@[k],
        decreases a.len() - i,
    {
        if a[i] != b[i] {
            return false;
        }
        i += 1;
    }
    assert(a@ =~= b@);
    true
}

/// Tells whether `text` ends with `suffix`, character for character.
pub fn has_suffix(text: &str, suffix: &str) -> (answer: bool)
    ensures
        answer == ends_with(text@, suffix@),
{
    let n: usize = text.unicode_len();
    let m: usize = suffix.unicode_len();
    if m > n {
        return false;
    }
    let start: usize = n - m;
    let ghost tail = text@.subrange(start as int, n as int);
    let mut k: usize = 0;
    while k < m
        invariant
            k <= m <= n,
            start == n - m,
            n == text@.len(),
            m == suffix@.len(),
            tail == text@.subrange(start as int, n as int),
            forall|j: int| 0 <= j < k ==> tail[j] == suffix@[j],
        decreases m - k,
    {
        if text.get_char(start + k) != suffix.get_char(k) {
            assert(tail[k as int] != suffix@[k as int]);
            return false;
        }
        k += 1;
    }
    assert(tail =~= suffix@);
    true
}

} // verus!
