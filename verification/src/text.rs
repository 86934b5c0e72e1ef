//! Small string-building helpers over `String`.
use vstd::prelude::*;

verus! {

/// Appends one character to a string.
///
/// Trusted: calls `String::push` of std, which vstd does not specify; its
/// documentation says it appends the given `char` to the end of the string.
#[verifier::external_body]
pub fn push_char(s: &mut String, c: char)
    ensures
        final(s)@ == old(s)@.push(c),
{
    s.push(c);
}

/// A string made of the characters of a string slice.
pub fn owned(s: &str) -> (r: String)
    ensures
        r@ == s@,
{
    s.to_owned()
}

/// `a` followed by `b`.
pub fn append_str(a: &mut String, b: &str)
    ensures
        final(a)@ == old(a)@ + b@,
{
    let mut i: usize = 0;
    let n: usize = b.unicode_len();
    let ghost start = a@;
    while i < n
        invariant
            n == b@.len(),
            i <= n,
            a@ == start + b@.subrange(0, i as int),
        decreases n - i,
    {
        let c = b.get_char(i);
        push_char(a, c);
        i = i + 1;
        assert(b@.subrange(0, i as int) =~= b@.subrange(0, (i - 1) as int).push(c));
    }
    assert(b@.subrange(0, n as int) =~= b@);
}

} // verus!
