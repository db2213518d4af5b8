//! Removing a pattern from a text.

use vstd::prelude::*;

verus! {

/// `text` without the occurrences of `pattern`, found from left to right: an
/// occurrence begins where the one before has ended, so occurrences that
/// overlap an earlier one stay. An empty pattern occurs nowhere.
pub open spec fn without_all(text: Seq<char>, pattern: Seq<char>) -> Seq<char>
    decreases text.len(),
{
    if text.len() == 0 {
        text
    } else if pattern.len() > 0 && pattern.is_prefix_of(text) {
        without_all(text.skip(pattern.len() as int), pattern)
    } else {
        seq![text[0]] + without_all(text.skip(1), pattern)
    }
}

/// Calls `String::push`, which appends one character to the end of a string.
#[verifier::external_body]
fn string_push(s: &mut String, c: char)
    ensures
        final(s)@ == old(s)@.push(c),
{
    s.push(c)
}

/// The characters of `text`, in order.
fn chars_of(text: &str) -> (chars: Vec<char>)
    ensures
        chars@ == text@,
{
    let mut chars: Vec<char> = Vec::new();
    for c in it: text.chars()
        invariant
            it.seq() == text@,
            chars@ == it.seq().take(it.index()),
    {
        chars.push(c);
    }
    chars
}

/// Whether `pattern` occurs in `text` at the index `at`.
fn occurs_at(text: &Vec<char>, at: usize, pattern: &Vec<char>) -> (b: bool)
    requires
        at <= text.len(),
    ensures
        b == pattern@.is_prefix_of(text@.skip(at as int)),
{
    let m: usize = pattern.len();
    if m > text.len() - at {
        return false;
    }
    let mut j: usize = 0;
    while j < m
        invariant
            j <= m,
            m == pattern.len(),
            at + m <= text.len(),
            forall|k: int| 0 <= k < j ==> text@[at + k] == pattern@[k],
        decreases m - j,
    {
        if text[at + j] != pattern[j] {
            assert(text@.skip(at as int)[j as int] != pattern@[j as int]);
            return false;
        }
        j = j + 1;
    }
    assert(pattern@ =~= text@.skip(at as int).subrange(0, m as int));
    true
}

/// Removes every occurrence of `pattern` from `text`, from left to right.
pub fn remove_all(text: &str, pattern: &str) -> (r: String)
    ensures
        r@ == without_all(text@, pattern@),
{
    let chars: Vec<char> = chars_of(text);
    let sought: Vec<char> = chars_of(pattern);
    let n: usize = chars.len();
    let m: usize = sought.len();
    let mut out: String = String::new();
    let mut i: usize = 0;
    assert(text@.skip(0) =~= text@);
    assert(out@ + without_all(text@, pattern@) =~= without_all(text@, pattern@));
    while i < n
        invariant
            i <= n,
            n == chars.len(),
            m == sought.len(),
            chars@ == text@,
            sought@ == pattern@,
            out@ + without_all(text@.skip(i as int), pattern@) == without_all(text@, pattern@),
        decreases n - i,
    {
        let rest: Ghost<Seq<char>> = Ghost(text@.skip(i as int));
        if m > 0 && occurs_at(&chars, i, &sought) {
            assert(rest@.skip(m as int) =~= text@.skip(i + m));
            i = i + m;
        } else {
            assert(rest@.skip(1) =~= text@.skip(i + 1));
            assert(out@.push(chars@[i as int]) + without_all(rest@.skip(1), pattern@) =~= out@ + (
                seq![rest@[0]] + without_all(rest@.skip(1), pattern@)));
            string_push(&mut out, chars[i]);
            i = i + 1;
        }
    }
    assert(text@.skip(n as int).len() == 0);
    assert(out@ + Seq::<char>::empty() =~= out@);
    out
}

} // verus!
