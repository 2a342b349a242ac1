use crate::charset::CharClass;
use crate::error::{ParseError, ParseErrorView};
use vstd::prelude::*;

verus! {

/// The length of `s` in bytes, in its UTF-8 encoding. For text drawn from
/// one of the character classes this is the number of characters.
pub open spec fn byte_len(s: Seq<char>) -> nat {
    vstd::utf8::encode_utf8(s).len()
}

/// Holds `s`, a value of `item`, against a length limit and then against a
/// character class, and returns it unchanged if it passes both. The length
/// comes first: a value that is too long is reported as such whatever it
/// holds.
pub fn validate(class: CharClass, item: &str, s: &str, maxlen: usize) -> (r: Result<
    String,
    ParseError,
>)
    ensures
        byte_len(s@) > maxlen ==> r is Err && r->Err_0@
            == ParseErrorView::length_limit_exceeded(item@, s@, maxlen),
        byte_len(s@) <= maxlen && !class.admits_all(s@) ==> r is Err && r->Err_0@
            == ParseErrorView::invalid_syntax(item@, s@, class.message()),
        byte_len(s@) <= maxlen && class.admits_all(s@) ==> r is Ok && r->Ok_0@ == s@,
{
    if s.as_bytes().len() > maxlen {
        Err(ParseError::length_limit_exceeded(item, s, maxlen))
    } else if !class.contains_all(s) {
        Err(ParseError::invalid_syntax(item, s, class.describe()))
    } else {
        Ok(s.to_string())
    }
}

/// Accepts `s` if it is at most `maxlen` bytes long and holds only the
/// letters `a` to `z`. A value that is too long is reported as such whatever
/// it holds; an accepted value comes back unchanged.
pub fn from_str_is_only_ascii_lowercase_alpha(item: &str, s: &str, maxlen: usize) -> (r: Result<
    String,
    ParseError,
>)
    ensures
        byte_len(s@) > maxlen ==> r is Err && r->Err_0@
            == ParseErrorView::length_limit_exceeded(item@, s@, maxlen),
        byte_len(s@) <= maxlen && !CharClass::LowercaseAlpha.admits_all(s@) ==> r is Err
            && r->Err_0@ == ParseErrorView::invalid_syntax(
            item@,
            s@,
            CharClass::LowercaseAlpha.message(),
        ),
        byte_len(s@) <= maxlen && CharClass::LowercaseAlpha.admits_all(s@) ==> r is Ok
            && r->Ok_0@ == s@,
{
    validate(CharClass::LowercaseAlpha, item, s, maxlen)
}

/// Accepts `s` if it is at most `maxlen` bytes long and holds only the
/// letters `a` to `z` and full stops. A value that is too long is reported
/// as such whatever it holds; an accepted value comes back unchanged.
pub fn from_str_is_only_ascii_lowercase_alpha_or_dot(item: &str, s: &str, maxlen: usize) -> (r: Result<
    String,
    ParseError,
>)
    ensures
        byte_len(s@) > maxlen ==> r is Err && r->Err_0@
            == ParseErrorView::length_limit_exceeded(item@, s@, maxlen),
        byte_len(s@) <= maxlen && !CharClass::LowercaseAlphaOrDot.admits_all(s@) ==> r is Err
            && r->Err_0@ == ParseErrorView::invalid_syntax(
            item@,
            s@,
            CharClass::LowercaseAlphaOrDot.message(),
        ),
        byte_len(s@) <= maxlen && CharClass::LowercaseAlphaOrDot.admits_all(s@) ==> r is Ok
            && r->Ok_0@ == s@,
{
    validate(CharClass::LowercaseAlphaOrDot, item, s, maxlen)
}

/// Accepts `s` if it is at most `maxlen` bytes long and holds only ASCII
/// letters of either case, digits and hyphens. A value that is too long is
/// reported as such whatever it holds; an accepted value comes back
/// unchanged.
pub fn from_str_is_only_ascii_lowercase_alphanum_or_hyphen(item: &str, s: &str, maxlen: usize) -> (r: Result<
    String,
    ParseError,
>)
    ensures
        byte_len(s@) > maxlen ==> r is Err && r->Err_0@
            == ParseErrorView::length_limit_exceeded(item@, s@, maxlen),
        byte_len(s@) <= maxlen && !CharClass::AlphanumOrHyphen.admits_all(s@) ==> r is Err
            && r->Err_0@ == ParseErrorView::invalid_syntax(
            item@,
            s@,
            CharClass::AlphanumOrHyphen.message(),
        ),
        byte_len(s@) <= maxlen && CharClass::AlphanumOrHyphen.admits_all(s@) ==> r is Ok
            && r->Ok_0@ == s@,
{
    validate(CharClass::AlphanumOrHyphen, item, s, maxlen)
}

/// Accepts `s` if it is at most `maxlen` bytes long and holds only ASCII
/// letters of either case and digits. A value that is too long is reported
/// as such whatever it holds; an accepted value comes back unchanged.
pub fn from_str_is_only_ascii_lowercase_alphanum(item: &str, s: &str, maxlen: usize) -> (r: Result<
    String,
    ParseError,
>)
    ensures
        byte_len(s@) > maxlen ==> r is Err && r->Err_0@
            == ParseErrorView::length_limit_exceeded(item@, s@, maxlen),
        byte_len(s@) <= maxlen && !CharClass::Alphanum.admits_all(s@) ==> r is Err
            && r->Err_0@ == ParseErrorView::invalid_syntax(
            item@,
            s@,
            CharClass::Alphanum.message(),
        ),
        byte_len(s@) <= maxlen && CharClass::Alphanum.admits_all(s@) ==> r is Ok
            && r->Ok_0@ == s@,
{
    validate(CharClass::Alphanum, item, s, maxlen)
}

/// Accepts `s` if it is at most `maxlen` bytes long and holds only ASCII
/// characters. The test is as loose as that on purpose: any ASCII character
/// passes, not letters and full stops alone. A value that is too long is
/// reported as such whatever it holds; an accepted value comes back
/// unchanged.
pub fn from_str_is_only_ascii_alpha_or_dot(item: &str, s: &str, maxlen: usize) -> (r: Result<
    String,
    ParseError,
>)
    ensures
        byte_len(s@) > maxlen ==> r is Err && r->Err_0@
            == ParseErrorView::length_limit_exceeded(item@, s@, maxlen),
        byte_len(s@) <= maxlen && !CharClass::AsciiOrDot.admits_all(s@) ==> r is Err
            && r->Err_0@ == ParseErrorView::invalid_syntax(
            item@,
            s@,
            CharClass::AsciiOrDot.message(),
        ),
        byte_len(s@) <= maxlen && CharClass::AsciiOrDot.admits_all(s@) ==> r is Ok
            && r->Ok_0@ == s@,
{
    validate(CharClass::AsciiOrDot, item, s, maxlen)
}

} // verus!
