use vstd::prelude::*;

verus! {

/// Process-wide settings, fixed at startup and shared read-only by every
/// request.
#[derive(Clone, Debug)]
pub struct AppConfig {
    pub port: u16,
    pub parquet_path: String,
    pub rust_log: String,
}

/// The port used when none is configured.
pub const DEFAULT_PORT: u16 = 3000;

/// Whether a character is an ASCII decimal digit.
pub open spec fn is_digit(c: char) -> bool {
    '0' <= c && c <= '9'
}

/// The number written by a sequence of decimal digits.
pub open spec fn digits_value(s: Seq<char>) -> nat
    decreases s.len(),
{
    if s.len() == 0 {
        0
    } else {
        digits_value(s.drop_last()) * 10 + ((s.last() as u32 as int) - ('0' as u32 as int)) as nat
    }
}

/// The digits of an unsigned number's text: the text after an optional `+`.
pub open spec fn unsigned_digits(s: Seq<char>) -> Seq<char> {
    if s.len() > 0 && s[0] == '+' {
        s.drop_first()
    } else {
        s
    }
}

/// Whether a text is an unsigned decimal number, with an optional `+`.
pub open spec fn is_unsigned_text(s: Seq<char>) -> bool {
    &&& unsigned_digits(s).len() > 0
    &&& forall|i: int| 0 <= i < unsigned_digits(s).len() ==> is_digit(#[trigger] unsigned_digits(s)[i])
}

/// The 16-bit value of an unsigned decimal text, if it has one.
pub open spec fn parsed_u16(s: Seq<char>) -> Option<u16> {
    if is_unsigned_text(s) && digits_value(unsigned_digits(s)) <= u16::MAX {
        Some(digits_value(unsigned_digits(s)) as u16)
    } else {
        None
    }
}

/// Relies on `u16::from_str` (through `str::parse`): an optional `+` and then
/// decimal digits whose value fits in 16 bits; anything else is an error.
#[verifier::external_body]
fn parse_u16(s: &str) -> (r: Option<u16>)
    ensures
        r == parsed_u16(s@),
{
    s.parse::<u16>().ok()
}

impl AppConfig {
    /// Builds the configuration from the values found for the port, the table
    /// file path and the log filter. A missing port, path or filter takes its
    /// default; a port that is not a 16-bit unsigned decimal yields `None`.
    pub fn from_env(port: Option<String>, parquet_path: Option<String>, rust_log: Option<String>) -> (r:
        Option<AppConfig>)
        ensures
            port is None ==> (r matches Some(c) && c.port == DEFAULT_PORT),
            port matches Some(p) ==> (r is Some <==> parsed_u16(p@) is Some),
            port matches Some(p) ==> (r matches Some(c) ==> Some(c.port) == parsed_u16(p@)),
            r matches Some(c) ==> c.parquet_path@ == match parquet_path {
                Some(p) => p@,
                None => "data/ejemplo.parquet"@,
            },
            r matches Some(c) ==> c.rust_log@ == match rust_log {
                Some(l) => l@,
                None => "info"@,
            },
    {
        let port = match port {
            None => DEFAULT_PORT,
            Some(p) => match parse_u16(p.as_str()) {
                Some(v) => v,
                None => return None,
            },
        };
        let parquet_path = match parquet_path {
            Some(p) => p,
            None => "data/ejemplo.parquet".to_owned(),
        };
        let rust_log = match rust_log {
            Some(l) => l,
            None => "info".to_owned(),
        };
        Some(AppConfig { port, parquet_path, rust_log })
    }
}

} // verus!
