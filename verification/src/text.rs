//! String operations of the standard library that the messages and the schema
//! inference rely on.

use vstd::prelude::*;

verus! {

/// `String::push_str` appends the characters of `t` to `s` and changes nothing else.
pub assume_specification[ std::string::String::push_str ](s: &mut std::string::String, t: &str)
    ensures
        final(s)@ == old(s)@ + t@,
;

/// The lower-case form of a string according to Unicode, as `str::to_lowercase` computes it.
pub uninterp spec fn lowercase(s: Seq<char>) -> Seq<char>;

/// `str::to_lowercase` returns the lower-case form of `s`; the result depends on `s` alone.
pub assume_specification[ str::to_lowercase ](s: &str) -> (r: std::string::String)
    ensures
        r@ == lowercase(s@),
;

/// `prefix`, then `text`, then `suffix`.
pub open spec fn framed(prefix: Seq<char>, text: Seq<char>, suffix: Seq<char>) -> Seq<char> {
    prefix + text + suffix
}

/// Builds the string made of `prefix`, `text` and `suffix`.
pub fn frame(prefix: &str, text: &str, suffix: &str) -> (s: String)
    ensures
        s@ == framed(prefix@, text@, suffix@),
{
    let mut s = String::new();
    s.push_str(prefix);
    s.push_str(text);
    s.push_str(suffix);
    assert(s@ =~= framed(prefix@, text@, suffix@));
    s
}

} // verus!
