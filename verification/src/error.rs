use vstd::prelude::*;
use vstd::string::*;

verus! {

/// `std::num::ParseIntError`, the error of std's integer parsing. It is
/// carried through as an opaque value: nothing is claimed of what it holds.
#[verifier::external_type_specification]
#[verifier::external_body]
pub struct ExParseIntError(std::num::ParseIntError);

/// Why a value was rejected.
#[derive(Debug)]
pub enum ParseErrorKind {
    /// The value is longer than the limit given here.
    LengthLimitExceeded(usize),
    /// The value breaks the syntax rule that the message describes.
    InvalidSyntax(String),
    /// The value breaks a syntax rule; the text is the message of the
    /// underlying cause.
    InvalidSyntaxWithInner(String),
    /// The value is not the integer it should be.
    ParseInt(std::num::ParseIntError),
    /// The named field is absent from the value.
    MissingField(String),
    /// Any other failure, described by the message.
    Other(String),
}

/// The mathematical value of a [`ParseErrorKind`].
pub enum ParseErrorKindView {
    LengthLimitExceeded(usize),
    InvalidSyntax(Seq<char>),
    InvalidSyntaxWithInner(Seq<char>),
    ParseInt(std::num::ParseIntError),
    MissingField(Seq<char>),
    Other(Seq<char>),
}

impl View for ParseErrorKind {
    type V = ParseErrorKindView;

    open spec fn view(&self) -> ParseErrorKindView {
        match *self {
            ParseErrorKind::LengthLimitExceeded(n) => ParseErrorKindView::LengthLimitExceeded(n),
            ParseErrorKind::InvalidSyntax(m) => ParseErrorKindView::InvalidSyntax(m@),
            ParseErrorKind::InvalidSyntaxWithInner(m) => ParseErrorKindView::InvalidSyntaxWithInner(
                m@,
            ),
            ParseErrorKind::ParseInt(e) => ParseErrorKindView::ParseInt(e),
            ParseErrorKind::MissingField(f) => ParseErrorKindView::MissingField(f@),
            ParseErrorKind::Other(m) => ParseErrorKindView::Other(m@),
        }
    }
}

impl ParseErrorKindView {
    /// The reason in words.
    pub open spec fn rendered(self) -> Seq<char> {
        match self {
            ParseErrorKindView::LengthLimitExceeded(n) => "maxlen is '"@
                + crate::decimal::decimal(n as nat) + "'"@,
            ParseErrorKindView::InvalidSyntax(m) => "invalid syntax: '"@ + m + "'"@,
            ParseErrorKindView::InvalidSyntaxWithInner(_) => "invalid syntax"@,
            ParseErrorKindView::ParseInt(_) => "invalid integer"@,
            ParseErrorKindView::MissingField(f) => "missing field '"@ + f + "'"@,
            ParseErrorKindView::Other(m) => "xxxxx => "@ + m,
        }
    }
}

impl ParseErrorKind {
    /// The reason in words, as it is displayed.
    pub fn to_string(&self) -> (r: String)
        ensures
            r@ == self@.rendered(),
    {
        match self {
            ParseErrorKind::LengthLimitExceeded(n) => {
                let mut r = String::from_str("maxlen is '");
                r.append(crate::decimal::to_decimal(*n).as_str());
                r.append("'");
                r
            },
            ParseErrorKind::InvalidSyntax(m) => {
                let mut r = String::from_str("invalid syntax: '");
                r.append(m.as_str());
                r.append("'");
                r
            },
            ParseErrorKind::InvalidSyntaxWithInner(_) => String::from_str("invalid syntax"),
            ParseErrorKind::ParseInt(_) => String::from_str("invalid integer"),
            ParseErrorKind::MissingField(f) => {
                let mut r = String::from_str("missing field '");
                r.append(f.as_str());
                r.append("'");
                r
            },
            ParseErrorKind::Other(m) => {
                let mut r = String::from_str("xxxxx => ");
                r.append(m.as_str());
                r
            },
        }
    }
}

/// A rejected value: what was being parsed, the raw text, and the reason.
/// The three parts are set at construction and never change.
#[derive(Debug)]
pub struct ParseError {
    item: String,
    value: String,
    kind: ParseErrorKind,
}

/// The mathematical value of a [`ParseError`].
pub struct ParseErrorView {
    pub item: Seq<char>,
    pub value: Seq<char>,
    pub kind: ParseErrorKindView,
}

impl View for ParseError {
    type V = ParseErrorView;

    closed spec fn view(&self) -> ParseErrorView {
        ParseErrorView { item: self.item@, value: self.value@, kind: self.kind@ }
    }
}

impl ParseErrorView {
    /// The error for a `value` of `item` that is longer than `n`.
    pub open spec fn length_limit_exceeded(item: Seq<char>, value: Seq<char>, n: usize) -> Self {
        ParseErrorView { item, value, kind: ParseErrorKindView::LengthLimitExceeded(n) }
    }

    /// The error for a `value` of `item` that breaks the rule described by `msg`.
    pub open spec fn invalid_syntax(item: Seq<char>, value: Seq<char>, msg: Seq<char>) -> Self {
        ParseErrorView { item, value, kind: ParseErrorKindView::InvalidSyntax(msg) }
    }

    /// The error for a `value` of `item` that lacks the field `field`.
    pub open spec fn missing_field(item: Seq<char>, value: Seq<char>, field: Seq<char>) -> Self {
        ParseErrorView { item, value, kind: ParseErrorKindView::MissingField(field) }
    }

    /// The error for a `value` of `item` that failed for the reason given in `msg`.
    pub open spec fn other(item: Seq<char>, value: Seq<char>, msg: Seq<char>) -> Self {
        ParseErrorView { item, value, kind: ParseErrorKindView::Other(msg) }
    }

    /// The error in words: the rejected text in quotes, the name of what
    /// was being parsed, and the reason.
    pub open spec fn rendered(self) -> Seq<char> {
        "'"@ + self.value + "' has invalid syntax for "@ + self.item + " "@ + self.kind.rendered()
    }

    /// `part` stands somewhere in `text`, in one piece.
    pub open spec fn holds(text: Seq<char>, part: Seq<char>) -> bool {
        exists|before: Seq<char>, after: Seq<char>| text == before + part + after
    }

    /// The error in words holds the rejected text, the name of what was
    /// being parsed and the reason in words, each in one piece.
    pub proof fn lemma_rendered_holds_its_parts(self)
        ensures
            Self::holds(self.rendered(), self.value),
            Self::holds(self.rendered(), self.item),
            Self::holds(self.rendered(), self.kind.rendered()),
    {
        let text = self.rendered();
        let reason = self.kind.rendered();
        let open = "'"@;
        let middle = "' has invalid syntax for "@;
        let gap = " "@;
        assert(text == open + self.value + (middle + self.item + gap + reason));
        assert(text == (open + self.value + middle) + self.item + (gap + reason));
        assert(text == (open + self.value + middle + self.item + gap) + reason + Seq::<char>::empty());
    }
}

impl ParseError {
    /// The error for a `value` of `item` that is longer than `n`.
    pub fn length_limit_exceeded(item: &str, value: &str, n: usize) -> (e: ParseError)
        ensures
            e@ == ParseErrorView::length_limit_exceeded(item@, value@, n),
    {
        ParseError {
            item: item.to_string(),
            value: value.to_string(),
            kind: ParseErrorKind::LengthLimitExceeded(n),
        }
    }

    /// The error for a `value` of `item` that breaks the rule described by `msg`.
    pub fn invalid_syntax(item: &str, value: &str, msg: &str) -> (e: ParseError)
        ensures
            e@ == ParseErrorView::invalid_syntax(item@, value@, msg@),
    {
        ParseError {
            item: item.to_string(),
            value: value.to_string(),
            kind: ParseErrorKind::InvalidSyntax(msg.to_string()),
        }
    }

    /// The error for a `value` of `item` that lacks the field `field`.
    pub fn missing_field(item: &str, value: &str, field: &str) -> (e: ParseError)
        ensures
            e@ == ParseErrorView::missing_field(item@, value@, field@),
    {
        ParseError {
            item: item.to_string(),
            value: value.to_string(),
            kind: ParseErrorKind::MissingField(field.to_string()),
        }
    }

    /// The error for a `value` of `item` that failed for the reason given in `msg`.
    pub fn other(item: &str, value: &str, msg: &str) -> (e: ParseError)
        ensures
            e@ == ParseErrorView::other(item@, value@, msg@),
    {
        ParseError {
            item: item.to_string(),
            value: value.to_string(),
            kind: ParseErrorKind::Other(msg.to_string()),
        }
    }

    /// The error for a `value` of `item` with a reason built by the caller.
    pub fn new(item: &str, value: &str, kind: ParseErrorKind) -> (e: ParseError)
        ensures
            e@ == (ParseErrorView { item: item@, value: value@, kind: kind@ }),
    {
        ParseError { item: item.to_string(), value: value.to_string(), kind }
    }

    /// The name of what was being parsed.
    pub fn item(&self) -> (r: &str)
        ensures
            r@ == self@.item,
    {
        self.item.as_str()
    }

    /// The raw text that was rejected.
    pub fn value(&self) -> (r: &str)
        ensures
            r@ == self@.value,
    {
        self.value.as_str()
    }

    /// The reason for the rejection.
    pub fn kind(&self) -> (r: &ParseErrorKind)
        ensures
            r@ == self@.kind,
    {
        &self.kind
    }

    /// Takes the error apart into the name of what was being parsed, the
    /// raw text and the reason.
    pub fn into_parts(self) -> (r: (String, String, ParseErrorKind))
        ensures
            r.0@ == self@.item,
            r.1@ == self@.value,
            r.2@ == self@.kind,
    {
        (self.item, self.value, self.kind)
    }

    /// The error in words, as it is displayed.
    pub fn to_string(&self) -> (r: String)
        ensures
            r@ == self@.rendered(),
    {
        let mut r = String::from_str("'");
        r.append(self.value.as_str());
        r.append("' has invalid syntax for ");
        r.append(self.item.as_str());
        r.append(" ");
        r.append(self.kind.to_string().as_str());
        r
    }
}

} // verus!
