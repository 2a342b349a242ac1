use crate::error::ParseError;
use std::marker::PhantomData;
use vstd::prelude::*;

verus! {

/// The parse routine of a string newtype: it decides which raw strings the
/// type accepts and what error reports a rejected one. Nothing is asked of a
/// routine but its verdict; which strings it accepts, and with what error it
/// rejects the others, is for each implementation to state.
pub trait ParseRule {
    /// Accepts `s` with `Ok`, or rejects it with the error to report.
    fn validate(s: &str) -> Result<(), ParseError>;
}

/// A string that is known by the type `R` of its parse routine. A value is
/// obtained from raw text only through that routine; the one exception is
/// the default value, which wraps the empty string without asking it.
///
/// `Debug` and `Hash` are derived, so they ask the same of `R`. The hash is
/// that of the wrapped string.
#[derive(Debug, Hash)]
pub struct SimpleString<R: ParseRule> {
    value: String,
    rule: PhantomData<R>,
}

impl<R: ParseRule> View for SimpleString<R> {
    type V = Seq<char>;

    /// The wrapped text.
    open spec fn view(&self) -> Seq<char> {
        self.inner()@
    }
}

impl<R: ParseRule> SimpleString<R> {
    /// The wrapped string.
    pub closed spec fn inner(self) -> String {
        self.value
    }

    /// `verdict` is one that the parse routine can give on a string that
    /// reads `text`.
    pub open spec fn decided(text: Seq<char>, verdict: Result<(), ParseError>) -> bool {
        exists|s: &str| s@ == text && #[trigger] call_ensures(R::validate, (s,), verdict)
    }

    /// The verdict of the parse routine that stands behind the result `r` of
    /// a conversion.
    pub open spec fn verdict(r: Result<Self, ParseError>) -> Result<(), ParseError> {
        match r {
            Ok(_) => Ok(()),
            Err(e) => Err(e),
        }
    }

    /// `r` is a result that converting `text` can have: the parse routine
    /// gave its verdict on `text`, and `r` is a wrapper of `text` where it
    /// accepted, and its error where it rejected.
    pub open spec fn converts(text: Seq<char>, r: Result<Self, ParseError>) -> bool {
        &&& Self::decided(text, Self::verdict(r))
        &&& r matches Ok(w) ==> w@ == text
    }

    /// Wraps `s` if the parse routine accepts it, and returns the routine's
    /// error if not. Every conversion from raw text goes through here, and
    /// the routine alone decides.
    pub fn parse(s: &str) -> (r: Result<Self, ParseError>)
        ensures
            Self::converts(s@, r),
    {
        let verdict = R::validate(s);
        let r = match verdict {
            Ok(_) => Ok(SimpleString { value: s.to_string(), rule: PhantomData }),
            Err(e) => Err(e),
        };
        assert(verdict is Ok ==> verdict->Ok_0 == ());
        r
    }

    /// The wrapped text, borrowed.
    pub fn as_str(&self) -> (r: &str)
        ensures
            r@ == self@,
    {
        self.value.as_str()
    }

    /// Gives up the wrapper and hands out the wrapped string.
    pub fn into_string(self) -> (r: String)
        ensures
            r == self.inner(),
            r@ == self@,
    {
        self.value
    }

    /// The wrapped text as it is displayed: the text itself, with nothing
    /// added.
    pub fn to_string(&self) -> (r: String)
        ensures
            r@ == self@,
    {
        self.value.clone()
    }

    /// Round trip: a wrapper that a conversion of `s` returned, unwrapped
    /// again, gives `s`.
    pub proof fn lemma_round_trip(s: Seq<char>, r: Result<Self, ParseError>)
        requires
            Self::converts(s, r),
            r is Ok,
        ensures
            r->Ok_0.inner()@ == s,
    {
    }

    /// Equality follows the text: the wrappers that conversions of `s` and
    /// of `t` returned are equal exactly when `s` and `t` are.
    pub proof fn lemma_equal_iff_same_text(
        s: Seq<char>,
        t: Seq<char>,
        a: Result<Self, ParseError>,
        b: Result<Self, ParseError>,
    )
        requires
            Self::converts(s, a),
            Self::converts(t, b),
            a is Ok,
            b is Ok,
        ensures
            vstd::std_specs::cmp::PartialEqSpec::eq_spec(&a->Ok_0, &b->Ok_0) <==> s == t,
    {
    }
}

impl<R: ParseRule> Default for SimpleString<R> {
    /// The wrapper of the empty string. The parse routine is not asked, so
    /// the default value may be one that the routine would reject.
    fn default() -> (r: Self)
        ensures
            r@ == Seq::<char>::empty(),
    {
        SimpleString { value: String::new(), rule: PhantomData }
    }
}

impl<R: ParseRule> Clone for SimpleString<R> {
    fn clone(&self) -> (r: Self)
        ensures
            r == *self,
    {
        SimpleString { value: self.value.clone(), rule: PhantomData }
    }
}

impl<R: ParseRule> PartialEq for SimpleString<R> {
    /// Two wrappers are equal when they wrap the same text.
    fn eq(&self, other: &Self) -> (b: bool) {
        self.value == other.value
    }
}

impl<R: ParseRule> vstd::std_specs::cmp::PartialEqSpecImpl for SimpleString<R> {
    open spec fn obeys_eq_spec() -> bool {
        true
    }

    open spec fn eq_spec(&self, other: &Self) -> bool {
        self@ == other@
    }
}

impl<R: ParseRule> Eq for SimpleString<R> {

}

impl<R: ParseRule> AsRef<str> for SimpleString<R> {
    fn as_ref(&self) -> (r: &str)
        ensures
            r@ == self@,
    {
        self.value.as_str()
    }
}

impl<'a, R: ParseRule> TryFrom<&'a str> for SimpleString<R> {
    type Error = ParseError;

    fn try_from(value: &'a str) -> (r: Result<Self, ParseError>)
        ensures
            Self::converts(value@, r),
    {
        Self::parse(value)
    }
}

/// What `try_from` returns is stated on `try_from` itself: the verdict of a
/// parse routine cannot be written down as a function of the text alone.
impl<'a, R: ParseRule> vstd::std_specs::convert::TryFromSpecImpl<&'a str> for SimpleString<R> {
    open spec fn obeys_try_from_spec() -> bool {
        false
    }

    open spec fn try_from_spec(value: &'a str) -> Result<Self, ParseError> {
        arbitrary()
    }
}

impl<R: ParseRule> TryFrom<String> for SimpleString<R> {
    type Error = ParseError;

    fn try_from(value: String) -> (r: Result<Self, ParseError>)
        ensures
            Self::converts(value@, r),
    {
        Self::parse(value.as_str())
    }
}

/// As for `&str`: the result is stated on `try_from` itself.
impl<R: ParseRule> vstd::std_specs::convert::TryFromSpecImpl<String> for SimpleString<R> {
    open spec fn obeys_try_from_spec() -> bool {
        false
    }

    open spec fn try_from_spec(value: String) -> Result<Self, ParseError> {
        arbitrary()
    }
}

impl<'a, R: ParseRule> TryFrom<&'a String> for SimpleString<R> {
    type Error = ParseError;

    fn try_from(value: &'a String) -> (r: Result<Self, ParseError>)
        ensures
            Self::converts(value@, r),
    {
        Self::parse(value.as_str())
    }
}

/// As for `&str`: the result is stated on `try_from` itself.
impl<'a, R: ParseRule> vstd::std_specs::convert::TryFromSpecImpl<&'a String> for SimpleString<R> {
    open spec fn obeys_try_from_spec() -> bool {
        false
    }

    open spec fn try_from_spec(value: &'a String) -> Result<Self, ParseError> {
        arbitrary()
    }
}

impl<R: ParseRule> From<SimpleString<R>> for String {
    /// Gives up the wrapper and hands out the wrapped string.
    fn from(a: SimpleString<R>) -> (r: String)
        ensures
            r@ == a@,
    {
        a.value
    }
}

impl<R: ParseRule> vstd::std_specs::convert::FromSpecImpl<SimpleString<R>> for String {
    open spec fn obeys_from_spec() -> bool {
        true
    }

    open spec fn from_spec(a: SimpleString<R>) -> String {
        a.inner()
    }
}

impl<'a, R: ParseRule> From<&'a SimpleString<R>> for String {
    /// A copy of the wrapped string; the wrapper stays as it is.
    fn from(a: &'a SimpleString<R>) -> (r: String)
        ensures
            r@ == a@,
    {
        a.value.clone()
    }
}

impl<'a, R: ParseRule> vstd::std_specs::convert::FromSpecImpl<&'a SimpleString<R>> for String {
    open spec fn obeys_from_spec() -> bool {
        true
    }

    open spec fn from_spec(a: &'a SimpleString<R>) -> String {
        a.inner()
    }
}

impl<'a, R: ParseRule> From<&'a SimpleString<R>> for SimpleString<R> {
    /// A copy of the wrapper.
    fn from(a: &'a SimpleString<R>) -> (r: SimpleString<R>)
        ensures
            r@ == a@,
    {
        a.clone()
    }
}

impl<'a, R: ParseRule> vstd::std_specs::convert::FromSpecImpl<&'a SimpleString<R>> for SimpleString<R> {
    open spec fn obeys_from_spec() -> bool {
        true
    }

    open spec fn from_spec(a: &'a SimpleString<R>) -> SimpleString<R> {
        *a
    }
}

} // verus!
