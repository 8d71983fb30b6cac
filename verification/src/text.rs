//! String helpers: first-word extraction, the longer of two strings, and
//! small ownership-passing utilities.

use vstd::prelude::*;

verus! {

/// The first word of the string: the prefix up to, and not including, the
/// first space; the whole string when it holds no space.
pub fn first_word(s: &String) -> (r: &str)
    ensures
        r@ == s@.subrange(0, r@.len() as int),
        forall|i: int| 0 <= i < r@.len() ==> #[trigger] s@[i] != ' ',
        r@.len() == s@.len() || s@[r@.len() as int] == ' ',
{
    first_word_slice(s.as_str())
}

/// As [`first_word`], for a string slice.
pub fn first_word_slice(s: &str) -> (r: &str)
    ensures
        r@ == s@.subrange(0, r@.len() as int),
        forall|i: int| 0 <= i < r@.len() ==> #[trigger] s@[i] != ' ',
        r@.len() == s@.len() || s@[r@.len() as int] == ' ',
{
    let n = s.unicode_len();
    let mut i: usize = 0;
    while i < n
        invariant
            n == s@.len(),
            0 <= i <= n,
            forall|j: int| 0 <= j < i ==> #[trigger] s@[j] != ' ',
        decreases n - i,
    {
        if s.get_char(i) == ' ' {
            return s.substring_char(0, i);
        }
        i += 1;
    }
    s.substring_char(0, n)
}

/// The string with more characters; ties go to the second, as the plain
/// comparison has it.
pub fn longest<'a>(x: &'a str, y: &'a str) -> (r: &'a str)
    ensures
        r@ == if x@.len() > y@.len() {
            x@
        } else {
            y@
        },
{
    if x.unicode_len() > y.unicode_len() {
        x
    } else {
        y
    }
}

/// Hand a freshly owned string to the caller.
pub fn gives_ownership() -> (r: String)
    ensures
        r@ == "zz"@,
{
    String::from_str("zz")
}

/// Take ownership of the string and give it straight back, unchanged.
pub fn takes_and_gives_back(some_string: String) -> (r: String)
    ensures
        r == some_string,
{
    some_string
}

/// The length of the borrowed string, in characters.
pub fn calculate_length(s: &String) -> (r: usize)
    ensures
        r == s@.len(),
{
    s.as_str().unicode_len()
}

/// Append ", world" to the string behind the mutable borrow.
pub fn change(some_string: &mut String)
    ensures
        final(some_string)@ == old(some_string)@ + ", world"@,
{
    some_string.append(", world")
}

} // verus!
