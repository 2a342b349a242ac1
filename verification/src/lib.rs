//! String newtypes that are made only through a parse routine, the
//! structured error that a routine reports, and a set of ready-made
//! validation functions: a length limit and a character class each.

pub mod charset;
pub mod decimal;
pub mod error;
pub mod newtype;
pub mod short_id;
pub mod validate;

pub use error::ParseError;
pub use error::ParseErrorKind;
pub use validate::from_str_is_only_ascii_alpha_or_dot;
pub use validate::from_str_is_only_ascii_lowercase_alpha;
pub use validate::from_str_is_only_ascii_lowercase_alpha_or_dot;
pub use validate::from_str_is_only_ascii_lowercase_alphanum;
pub use validate::from_str_is_only_ascii_lowercase_alphanum_or_hyphen;
