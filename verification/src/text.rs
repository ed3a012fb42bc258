//! Small operations on text that the rest of the library builds on.

use vstd::prelude::*;

verus! {

/// Whether two strings hold the same characters.
pub fn str_eq(a: &str, b: &str) -> (res: bool)
    ensures
        res == (a@ == b@),
{
    let sa = String::from_str(a);
    let sb = String::from_str(b);
    sa == sb
}

} // verus!

verus! {

/// The first `n` characters of a text, or all of it when it is shorter.
pub open spec fn prefix_chars(s: Seq<char>, n: nat) -> Seq<char> {
    if s.len() <= n {
        s
    } else {
        s.take(n as int)
    }
}

/// The first `n` characters of `s`, or all of it when it is shorter.
pub fn first_chars(s: &str, n: usize) -> (res: String)
    ensures
        res@ == prefix_chars(s@, n as nat),
{
    let len = s.unicode_len();
    let end = if len <= n { len } else { n };
    let part = s.substring_char(0, end);
    proof {
        if len <= n {
            assert(s@.subrange(0, end as int) =~= s@);
        }
    }
    String::from_str(part)
}

} // verus!

verus! {

/// Whether `s` begins with `prefix`.
pub fn starts_with(s: &str, prefix: &str) -> (res: bool)
    ensures
        res == prefix@.is_prefix_of(s@),
{
    let len = s.unicode_len();
    let plen = prefix.unicode_len();
    if plen <= len {
        let head = first_chars(s, plen);
        proof {
            if plen == len {
                assert(s@.subrange(0, plen as int) =~= s@);
            }
        }
        str_eq(head.as_str(), prefix)
    } else {
        false
    }
}

} // verus!
