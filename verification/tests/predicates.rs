use simple_newtype::charset::CharClass;
use simple_newtype::validate::validate;
use simple_newtype::{
    from_str_is_only_ascii_alpha_or_dot, from_str_is_only_ascii_lowercase_alpha,
    from_str_is_only_ascii_lowercase_alpha_or_dot, from_str_is_only_ascii_lowercase_alphanum,
    from_str_is_only_ascii_lowercase_alphanum_or_hyphen, ParseError, ParseErrorKind,
};

fn assert_too_long(r: Result<String, ParseError>, item: &str, value: &str, maxlen: usize) {
    let e = r.unwrap_err();
    assert_eq!(e.item(), item);
    assert_eq!(e.value(), value);
    match e.kind() {
        ParseErrorKind::LengthLimitExceeded(n) => assert_eq!(*n, maxlen),
        other => panic!("wrong kind: {:?}", other),
    }
}

fn assert_invalid(r: Result<String, ParseError>, item: &str, value: &str, message: &str) {
    let e = r.unwrap_err();
    assert_eq!(e.item(), item);
    assert_eq!(e.value(), value);
    match e.kind() {
        ParseErrorKind::InvalidSyntax(m) => assert_eq!(m, message),
        other => panic!("wrong kind: {:?}", other),
    }
}

#[test]
fn lowercase_alpha_scenario() {
    assert_eq!(from_str_is_only_ascii_lowercase_alpha("Name", "abc", 5).unwrap(), "abc");
    assert_invalid(
        from_str_is_only_ascii_lowercase_alpha("Name", "abc1", 5),
        "Name",
        "abc1",
        "must only consist of ascii alpha characters",
    );
    assert_too_long(from_str_is_only_ascii_lowercase_alpha("Name", "abcdef", 5), "Name", "abcdef", 5);
}

#[test]
fn alphanum_or_hyphen_scenario() {
    assert_eq!(
        from_str_is_only_ascii_lowercase_alphanum_or_hyphen("Slug", "a-1", 8).unwrap(),
        "a-1"
    );
    assert_invalid(
        from_str_is_only_ascii_lowercase_alphanum_or_hyphen("Slug", "a_1", 8),
        "Slug",
        "a_1",
        "must only consist of ascii alpha characters or -",
    );
}

#[test]
fn lowercase_alpha_rejects_upper_case_digits_and_dots() {
    for bad in ["Abc", "abC", "ab1", "a.b", "a b", "ab-", "abcé"] {
        assert_invalid(
            from_str_is_only_ascii_lowercase_alpha("Name", bad, 10),
            "Name",
            bad,
            "must only consist of ascii alpha characters",
        );
    }
}

#[test]
fn lowercase_alpha_or_dot_accepts_dots() {
    assert_eq!(
        from_str_is_only_ascii_lowercase_alpha_or_dot("Host", "www.example.org", 20).unwrap(),
        "www.example.org"
    );
    assert_eq!(from_str_is_only_ascii_lowercase_alpha_or_dot("Host", "...", 3).unwrap(), "...");
    for bad in ["Www.example.org", "a,b", "a1", "a-b"] {
        assert_invalid(
            from_str_is_only_ascii_lowercase_alpha_or_dot("Host", bad, 20),
            "Host",
            bad,
            "must only consist of ascii alpha characters or .",
        );
    }
    assert_too_long(
        from_str_is_only_ascii_lowercase_alpha_or_dot("Host", "www.example.org", 14),
        "Host",
        "www.example.org",
        14,
    );
}

#[test]
fn alphanum_or_hyphen_accepts_either_case() {
    assert_eq!(
        from_str_is_only_ascii_lowercase_alphanum_or_hyphen("Slug", "Ab-9-Zz", 7).unwrap(),
        "Ab-9-Zz"
    );
    for bad in ["a.b", "a b", "a+b", "naïve"] {
        assert_invalid(
            from_str_is_only_ascii_lowercase_alphanum_or_hyphen("Slug", bad, 20),
            "Slug",
            bad,
            "must only consist of ascii alpha characters or -",
        );
    }
    assert_too_long(
        from_str_is_only_ascii_lowercase_alphanum_or_hyphen("Slug", "Ab-9-Zz", 6),
        "Slug",
        "Ab-9-Zz",
        6,
    );
}

#[test]
fn alphanum_accepts_letters_and_digits_only() {
    assert_eq!(from_str_is_only_ascii_lowercase_alphanum("Code", "aZ09", 4).unwrap(), "aZ09");
    for bad in ["a-1", "a_1", "a.1", " a1", "a1 "] {
        assert_invalid(
            from_str_is_only_ascii_lowercase_alphanum("Code", bad, 10),
            "Code",
            bad,
            "must only consist of ascii alphanumeric characters",
        );
    }
    assert_too_long(from_str_is_only_ascii_lowercase_alphanum("Code", "aZ09", 3), "Code", "aZ09", 3);
}

#[test]
fn ascii_or_dot_accepts_any_ascii() {
    for good in ["abc.def", "ABC", "a b", "a-1_2!", "~\t\u{7f}", "\0"] {
        assert_eq!(from_str_is_only_ascii_alpha_or_dot("Any", good, 10).unwrap(), good);
    }
    for bad in ["é", "abc€", "\u{80}"] {
        assert_invalid(
            from_str_is_only_ascii_alpha_or_dot("Any", bad, 10),
            "Any",
            bad,
            "must only consist of ascii alpha characters or .",
        );
    }
    assert_too_long(from_str_is_only_ascii_alpha_or_dot("Any", "a b c", 4), "Any", "a b c", 4);
}

#[test]
fn a_value_of_exactly_the_limit_passes() {
    assert_eq!(from_str_is_only_ascii_lowercase_alpha("Name", "abcde", 5).unwrap(), "abcde");
    assert_eq!(from_str_is_only_ascii_lowercase_alpha_or_dot("Name", "a.cde", 5).unwrap(), "a.cde");
    assert_eq!(
        from_str_is_only_ascii_lowercase_alphanum_or_hyphen("Name", "a-c4E", 5).unwrap(),
        "a-c4E"
    );
    assert_eq!(from_str_is_only_ascii_lowercase_alphanum("Name", "a0c4E", 5).unwrap(), "a0c4E");
    assert_eq!(from_str_is_only_ascii_alpha_or_dot("Name", "a c!E", 5).unwrap(), "a c!E");
}

#[test]
fn the_empty_value_passes_every_predicate() {
    assert_eq!(from_str_is_only_ascii_lowercase_alpha("Name", "", 0).unwrap(), "");
    assert_eq!(from_str_is_only_ascii_lowercase_alpha_or_dot("Name", "", 0).unwrap(), "");
    assert_eq!(from_str_is_only_ascii_lowercase_alphanum_or_hyphen("Name", "", 0).unwrap(), "");
    assert_eq!(from_str_is_only_ascii_lowercase_alphanum("Name", "", 0).unwrap(), "");
    assert_eq!(from_str_is_only_ascii_alpha_or_dot("Name", "", 0).unwrap(), "");
}

#[test]
fn a_limit_of_zero_rejects_anything_but_the_empty_value() {
    assert_too_long(from_str_is_only_ascii_lowercase_alpha("Name", "a", 0), "Name", "a", 0);
    assert_too_long(from_str_is_only_ascii_alpha_or_dot("Name", ".", 0), "Name", ".", 0);
}

#[test]
fn length_is_tested_before_the_characters() {
    assert_too_long(from_str_is_only_ascii_lowercase_alpha("Name", "ABC123", 5), "Name", "ABC123", 5);
    assert_too_long(
        from_str_is_only_ascii_lowercase_alpha_or_dot("Name", "ABC123", 5),
        "Name",
        "ABC123",
        5,
    );
    assert_too_long(
        from_str_is_only_ascii_lowercase_alphanum_or_hyphen("Name", "a_b_c_", 5),
        "Name",
        "a_b_c_",
        5,
    );
    assert_too_long(from_str_is_only_ascii_lowercase_alphanum("Name", "a_b_c_", 5), "Name", "a_b_c_", 5);
    assert_too_long(from_str_is_only_ascii_alpha_or_dot("Name", "ééé", 5), "Name", "ééé", 5);
}

#[test]
fn length_counts_bytes() {
    // "é" is one character and two bytes.
    assert_too_long(from_str_is_only_ascii_alpha_or_dot("Name", "é", 1), "Name", "é", 1);
    assert_invalid(
        from_str_is_only_ascii_alpha_or_dot("Name", "é", 2),
        "Name",
        "é",
        "must only consist of ascii alpha characters or .",
    );
    assert_too_long(from_str_is_only_ascii_lowercase_alpha("Name", "aé", 2), "Name", "aé", 2);
    assert_invalid(
        from_str_is_only_ascii_lowercase_alpha("Name", "aé", 3),
        "Name",
        "aé",
        "must only consist of ascii alpha characters",
    );
}

#[test]
fn a_large_limit_is_no_trouble() {
    assert_eq!(from_str_is_only_ascii_lowercase_alpha("Name", "abc", usize::MAX).unwrap(), "abc");
}

#[test]
fn validate_agrees_with_the_named_predicates() {
    let values = ["", "abc", "a.b", "a-1", "A1", "a b", "é", "abcdefghij"];
    for value in values {
        for maxlen in [0usize, 2, 3, 9, 10] {
            let pairs = [
                (
                    validate(CharClass::LowercaseAlpha, "X", value, maxlen),
                    from_str_is_only_ascii_lowercase_alpha("X", value, maxlen),
                ),
                (
                    validate(CharClass::LowercaseAlphaOrDot, "X", value, maxlen),
                    from_str_is_only_ascii_lowercase_alpha_or_dot("X", value, maxlen),
                ),
                (
                    validate(CharClass::AlphanumOrHyphen, "X", value, maxlen),
                    from_str_is_only_ascii_lowercase_alphanum_or_hyphen("X", value, maxlen),
                ),
                (
                    validate(CharClass::Alphanum, "X", value, maxlen),
                    from_str_is_only_ascii_lowercase_alphanum("X", value, maxlen),
                ),
                (
                    validate(CharClass::AsciiOrDot, "X", value, maxlen),
                    from_str_is_only_ascii_alpha_or_dot("X", value, maxlen),
                ),
            ];
            for (general, named) in pairs {
                match (general, named) {
                    (Ok(a), Ok(b)) => {
                        assert_eq!(a, value);
                        assert_eq!(b, value);
                    }
                    (Err(a), Err(b)) => assert_eq!(a.to_string(), b.to_string()),
                    (a, b) => panic!("{:?} and {:?} differ", a, b),
                }
            }
        }
    }
}
