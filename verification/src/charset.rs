use vstd::prelude::*;

verus! {

/// A set of ASCII characters from which a validated string may be drawn.
#[derive(Clone, Copy, Debug, PartialEq, Eq)]
pub enum CharClass {
    /// The letters `a` to `z`.
    LowercaseAlpha,
    /// The letters `a` to `z` and the full stop.
    LowercaseAlphaOrDot,
    /// Letters of either case, digits and the hyphen.
    AlphanumOrHyphen,
    /// Letters of either case and digits.
    Alphanum,
    /// Every ASCII character. The full stop is named separately although it
    /// is ASCII already, so this class rejects non-ASCII characters only.
    AsciiOrDot,
}

impl CharClass {
    /// `c` is one of `a` to `z`.
    pub open spec fn is_lowercase(c: char) -> bool {
        'a' <= c <= 'z'
    }

    /// `c` is an ASCII letter of either case or an ASCII digit.
    pub open spec fn is_alphanumeric(c: char) -> bool {
        ('0' <= c <= '9') || ('A' <= c <= 'Z') || ('a' <= c <= 'z')
    }

    /// `c` lies in the ASCII range, U+0000 to U+007F.
    pub open spec fn is_ascii(c: char) -> bool {
        c <= '\u{7f}'
    }

    /// Whether the class holds the character `c`.
    pub open spec fn admits(self, c: char) -> bool {
        match self {
            CharClass::LowercaseAlpha => Self::is_lowercase(c),
            CharClass::LowercaseAlphaOrDot => Self::is_lowercase(c) || c == '.',
            CharClass::AlphanumOrHyphen => Self::is_alphanumeric(c) || c == '-',
            CharClass::Alphanum => Self::is_alphanumeric(c),
            CharClass::AsciiOrDot => Self::is_ascii(c) || c == '.',
        }
    }

    /// Whether the class holds every character of `s`.
    pub open spec fn admits_all(self, s: Seq<char>) -> bool {
        forall|i: int| 0 <= i < s.len() ==> self.admits(#[trigger] s[i])
    }

    /// The rule of the class in words, as a rejection reports it.
    pub open spec fn message(self) -> Seq<char> {
        match self {
            CharClass::LowercaseAlpha => "must only consist of ascii alpha characters"@,
            CharClass::LowercaseAlphaOrDot => "must only consist of ascii alpha characters or ."@,
            CharClass::AlphanumOrHyphen => "must only consist of ascii alpha characters or -"@,
            CharClass::Alphanum => "must only consist of ascii alphanumeric characters"@,
            CharClass::AsciiOrDot => "must only consist of ascii alpha characters or ."@,
        }
    }

    /// The rule of the class in words.
    pub fn describe(self) -> (m: &'static str)
        ensures
            m@ == self.message(),
    {
        match self {
            CharClass::LowercaseAlpha => "must only consist of ascii alpha characters",
            CharClass::LowercaseAlphaOrDot => "must only consist of ascii alpha characters or .",
            CharClass::AlphanumOrHyphen => "must only consist of ascii alpha characters or -",
            CharClass::Alphanum => "must only consist of ascii alphanumeric characters",
            CharClass::AsciiOrDot => "must only consist of ascii alpha characters or .",
        }
    }

    /// Tests one character against the class.
    pub fn contains(self, c: char) -> (b: bool)
        ensures
            b == self.admits(c),
    {
        match self {
            CharClass::LowercaseAlpha => 'a' <= c && c <= 'z',
            CharClass::LowercaseAlphaOrDot => ('a' <= c && c <= 'z') || c == '.',
            CharClass::AlphanumOrHyphen => {
                ('0' <= c && c <= '9') || ('A' <= c && c <= 'Z') || ('a' <= c && c <= 'z')
                    || c == '-'
            },
            CharClass::Alphanum => {
                ('0' <= c && c <= '9') || ('A' <= c && c <= 'Z') || ('a' <= c && c <= 'z')
            },
            CharClass::AsciiOrDot => c <= '\u{7f}' || c == '.',
        }
    }

    /// Tests every character of `s` against the class, stopping at the first
    /// one that the class does not hold.
    pub fn contains_all(self, s: &str) -> (b: bool)
        ensures
            b == self.admits_all(s@),
    {
        let chars = s.chars();
        for c in it: chars
            invariant
                it.seq() == s@,
                forall|i: int| 0 <= i < it.index() ==> self.admits(#[trigger] s@[i]),
        {
            if !self.contains(c) {
                return false;
            }
        }
        true
    }
}

} // verus!
