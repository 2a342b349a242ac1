use crate::error::{ParseError, ParseErrorView};
use crate::newtype::{ParseRule, SimpleString};
use vstd::prelude::*;

verus! {

/// The parse routine of [`ShortId`]: any text of at most ten bytes passes.
#[derive(Clone, Copy, Debug, Default, Hash, PartialEq, Eq)]
pub struct ShortIdRule;

/// An identifier of at most ten bytes.
pub type ShortId = SimpleString<ShortIdRule>;

impl ParseRule for ShortIdRule {
    /// Accepts `s` if it is at most ten bytes long, whatever it holds.
    fn validate(s: &str) -> (r: Result<(), ParseError>)
        ensures
            crate::validate::byte_len(s@) <= 10 ==> r is Ok,
            crate::validate::byte_len(s@) > 10 ==> r is Err && r->Err_0@
                == ParseErrorView::length_limit_exceeded("ShortId"@, s@, 10),
    {
        if s.as_bytes().len() > 10 {
            Err(ParseError::length_limit_exceeded("ShortId", s, 10))
        } else {
            Ok(())
        }
    }
}

} // verus!
