use vstd::prelude::*;
use vstd::string::StrSliceExecFns;
use vstd::string::StringExecFns;

verus! {

/// The uppercase form of an ASCII lowercase letter; every other character is
/// left as it is.
pub open spec fn spec_upper_char(c: char) -> char {
    if 'a' <= c && c <= 'z' {
        ((c as u8 - 32) as u8) as char
    } else {
        c
    }
}

/// `s` with its first character upper-cased (ASCII letters only; the number
/// words this library produces always start with an ASCII lowercase letter).
pub open spec fn spec_capitalize(s: Seq<char>) -> Seq<char> {
    if s.len() == 0 {
        s
    } else {
        seq![spec_upper_char(s[0])] + s.subrange(1, s.len() as int)
    }
}

/// Relies on `String::push`: appends exactly the given character to the end
/// of the string.
#[verifier::external_body]
pub(crate) fn push_char(s: &mut String, c: char)
    ensures
        final(s)@ == old(s)@ + seq![c],
{
    s.push(c);
}

/// Upper-case the first character of `s`.
pub fn capitalize(s: &str) -> (r: String)
    ensures
        r@ == spec_capitalize(s@),
{
    let len = s.unicode_len();
    if len == 0 {
        String::new()
    } else {
        let c = s.get_char(0);
        let up: char = if 'a' <= c && c <= 'z' {
            ((c as u8) - 32) as char
        } else {
            c
        };
        let mut r = String::new();
        push_char(&mut r, up);
        let rest = s.substring_char(1, len);
        r.append(rest);
        proof {
            assert(r@ =~= spec_capitalize(s@));
        }
        r
    }
}

} // verus!
