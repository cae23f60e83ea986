use vstd::prelude::*;

verus! {

/// The characters that `char::to_uppercase` yields for `c`.
pub uninterp spec fn upper_of(c: char) -> Seq<char>;

/// `s` with its first character replaced by `first_upper`.
pub open spec fn titled(first_upper: Seq<char>, s: Seq<char>) -> Seq<char> {
    if s.len() == 0 {
        Seq::empty()
    } else {
        first_upper + s.subrange(1, s.len() as int)
    }
}

/// Relies on `char::to_uppercase`, collected into a `String`: the upper-case
/// mapping of one character, which depends on that character alone.
#[verifier::external_body]
fn char_to_upper(c: char) -> (r: String)
    ensures
        r@ == upper_of(c),
{
    c.to_uppercase().collect::<String>()
}

/// Joins `first_upper` with everything of `s` after its first character; the
/// empty string stays empty.
pub fn titlecase_with(first_upper: &str, s: &str) -> (r: String)
    ensures
        r@ == titled(first_upper@, s@),
{
    let n = s.unicode_len();
    if n == 0 {
        String::new()
    } else {
        let head = String::from_str(first_upper);
        head.concat(s.substring_char(1, n))
    }
}

/// `s` with its first character in upper case (possibly several characters,
/// as Unicode asks) and the rest untouched.
pub fn titlecase(s: &str) -> (r: String)
    ensures
        r@ == titled(if s@.len() == 0 { Seq::empty() } else { upper_of(s@[0]) }, s@),
{
    let n = s.unicode_len();
    if n == 0 {
        String::new()
    } else {
        let up = char_to_upper(s.get_char(0));
        titlecase_with(up.as_str(), s)
    }
}

} // verus!
