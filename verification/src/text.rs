//! Small operations on text that the reports are built from.

use vstd::prelude::*;

verus! {

/// `s` without `prefix` in front where it begins with it, else `s` as it is.
pub open spec fn without_prefix(s: Seq<char>, prefix: Seq<char>) -> Seq<char> {
    if prefix.is_prefix_of(s) {
        s.skip(prefix.len() as int)
    } else {
        s
    }
}

/// `n` spaces.
pub open spec fn blanks(n: int) -> Seq<char> {
    Seq::new(
        if n < 0 {
            0
        } else {
            n as nat
        },
        |i: int| ' ',
    )
}

/// `s` followed by as many spaces as it takes to make it `width` characters
/// long; `s` itself where it is that long already.
pub open spec fn padded(s: Seq<char>, width: int) -> Seq<char> {
    s + blanks(width - s.len())
}

/// `str::strip_prefix` with a text as the pattern: where `s` begins with
/// `prefix`, what follows the prefix; otherwise nothing.
#[verifier::external_body]
fn strip_prefix<'a>(s: &'a str, prefix: &str) -> (rest: Option<&'a str>)
    ensures
        rest is Some <==> prefix@.is_prefix_of(s@),
        rest matches Some(t) ==> t@ == s@.skip(prefix@.len() as int),
{
    s.strip_prefix(prefix)
}

/// Drops `prefix` from the front of `s` where `s` begins with it.
pub fn prefix_stripped<'a>(s: &'a str, prefix: &str) -> (rest: &'a str)
    ensures
        rest@ == without_prefix(s@, prefix@),
{
    if let Some(stripped) = strip_prefix(s, prefix) {
        stripped
    } else {
        s
    }
}

/// Appends spaces to `text` until it holds `width` characters.
pub fn pad(text: &str, width: usize) -> (out: String)
    ensures
        out@ == padded(text@, width as int),
{
    let mut out = String::from_str(text);
    let len = text.unicode_len();
    let mut n: usize = len;
    proof {
        reveal_strlit(" ");
    }
    assert(out@ =~= text@ + blanks(0));
    while n < width
        invariant
            len == text@.len(),
            len <= n,
            n <= width || n == len,
            out@ == text@ + blanks(n - len),
            " "@ == seq![' '],
        decreases width - n,
    {
        out.append(" ");
        assert(out@ =~= text@ + blanks(n + 1 - len));
        n += 1;
    }
    assert(blanks(n - len) =~= blanks(width - len));
    out
}

/// Whether two byte strings are the same.
pub fn bytes_equal(a: &Vec<u8>, b: &Vec<u8>) -> (eq: bool)
    ensures
        eq == (a@ == b@),
{
    if a.len() != b.len() {
        return false;
    }
    let mut i: usize = 0;
    while i < a.len()
        invariant
            i <= a.len(),
            a.len() == b.len(),
            forall|j: int| 0 <= j < i ==> a@[j] == b@[j],
        decreases a.len() - i,
    {
        if a[i] != b[i] {
            return false;
        }
        i += 1;
    }
    assert(a@ =~= b@);
    true
}

/// `a`, then `b`.
pub fn join2(a: &str, b: &str) -> (out: String)
    ensures
        out@ == a@ + b@,
{
    let mut out = String::from_str(a);
    out.append(b);
    out
}

/// `a`, then `b`, then `c`.
pub fn join3(a: &str, b: &str, c: &str) -> (out: String)
    ensures
        out@ == a@ + b@ + c@,
{
    let mut out = String::from_str(a);
    out.append(b);
    out.append(c);
    out
}

} // verus!
