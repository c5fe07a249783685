//! RAPL (Running Average Power Limit) energy counters: readings, the delta
//! between two readings, and the parse of the powercap counter text.
//!
//! Reading the counter file itself is done by the embedding application.

use std::io;
use std::num::ParseIntError;
use vstd::prelude::*;

verus! {

/// Declares `std::io::Error`, carried by `RaplError::Io`.
#[verifier::external_type_specification]
#[verifier::external_body]
pub struct ExIoError(io::Error);

/// Declares `std::num::ParseIntError`, carried by `RaplError::Parse`.
#[verifier::external_type_specification]
#[verifier::external_body]
pub struct ExParseIntError(ParseIntError);

/// Failures reading the package energy counter.
#[derive(Debug)]
pub enum RaplError {
    /// No energy counter on this platform.
    NotAvailable,
    /// Reading the counter failed.
    Io(io::Error),
    /// The counter text was not an unsigned decimal integer.
    Parse(ParseIntError),
}

/// RAPL energy reading in microjoules.
#[derive(Debug, Clone, Copy)]
pub struct EnergyReading {
    /// Energy counter value in microjoules.
    pub microjoules: u64,
}

impl EnergyReading {
    /// Microjoules consumed from `previous` to `self`: the difference of the
    /// two counter values modulo 2^64, so a counter that wrapped past
    /// `u64::MAX` still gives the energy consumed.
    pub open spec fn delta_of(self, previous: EnergyReading) -> u64 {
        if self.microjoules >= previous.microjoules {
            (self.microjoules - previous.microjoules) as u64
        } else {
            (self.microjoules + 0x1_0000_0000_0000_0000int - previous.microjoules) as u64
        }
    }

    /// Microjoules between two readings (handles counter wrap).
    pub fn delta_microjoules(&self, previous: &EnergyReading) -> (d: u64)
        ensures
            d == self.delta_of(*previous),
    {
        if self.microjoules >= previous.microjoules {
            self.microjoules - previous.microjoules
        } else {
            (u64::MAX - previous.microjoules) + self.microjoules + 1
        }
    }
}

/// Without a wrap, the delta is exactly what was added to the earlier reading.
pub proof fn lemma_delta_without_wrap(earlier: EnergyReading, later: EnergyReading)
    requires
        earlier.microjoules <= later.microjoules,
    ensures
        earlier.microjoules + later.delta_of(earlier) == later.microjoules,
{
}

/// The delta, added to the earlier counter value modulo 2^64, gives the later
/// counter value, wrap or not.
pub proof fn lemma_delta_is_modular_difference(earlier: EnergyReading, later: EnergyReading)
    ensures
        (earlier.microjoules + later.delta_of(earlier)) % 0x1_0000_0000_0000_0000int
            == later.microjoules as int,
{
}

/// Whether `c` has the Unicode `White_Space` property: U+0009..U+000D,
/// U+0020, U+0085, U+00A0, U+1680, U+2000..U+200A, U+2028, U+2029, U+202F,
/// U+205F and U+3000.
pub open spec fn is_white_space(c: char) -> bool {
    let u = c as int;
    ||| 0x09 <= u <= 0x0D
    ||| u == 0x20
    ||| u == 0x85
    ||| u == 0xA0
    ||| u == 0x1680
    ||| 0x2000 <= u <= 0x200A
    ||| u == 0x2028
    ||| u == 0x2029
    ||| u == 0x202F
    ||| u == 0x205F
    ||| u == 0x3000
}

/// `s` with its leading and trailing white space removed.
pub open spec fn trimmed(s: Seq<char>) -> Seq<char>
    decreases s.len(),
{
    if s.len() == 0 {
        s
    } else if is_white_space(s[0]) {
        trimmed(s.drop_first())
    } else if is_white_space(s.last()) {
        trimmed(s.drop_last())
    } else {
        s
    }
}

/// Calls `str::trim`. Trusted, as its documentation states: the result is
/// the argument with leading and trailing characters of the Unicode
/// `White_Space` property removed.
#[verifier::external_body]
fn str_trim<'a>(s: &'a str) -> (t: &'a str)
    ensures
        t@ == trimmed(s@),
{
    s.trim()
}

/// Whether `c` is an ASCII decimal digit.
pub open spec fn is_ascii_digit(c: char) -> bool {
    '0' <= c && c <= '9'
}

/// The value of the decimal digit string `d`.
pub open spec fn digits_value(d: Seq<char>) -> nat
    decreases d.len(),
{
    if d.len() == 0 {
        0
    } else {
        digits_value(d.drop_last()) * 10 + ((d.last() as int) - ('0' as int)) as nat
    }
}

/// `s` without one leading `+` sign.
pub open spec fn unsigned_digits(s: Seq<char>) -> Seq<char> {
    if s.len() > 0 && s[0] == '+' {
        s.drop_first()
    } else {
        s
    }
}

/// Whether `s` is an optional `+` followed by one or more ASCII digits whose
/// value fits in a `u64`.
pub open spec fn parses_as_u64(s: Seq<char>) -> bool {
    let d = unsigned_digits(s);
    &&& d.len() > 0
    &&& forall|i: int| 0 <= i < d.len() ==> is_ascii_digit(#[trigger] d[i])
    &&& digits_value(d) <= u64::MAX
}

/// Calls `<u64 as core::str::FromStr>::from_str` (`str::parse::<u64>`).
/// Trusted, as its documentation states: the string must be an optional `+`
/// followed by only ASCII digits, at least one, whose value fits in a `u64`;
/// then the result is that value, and otherwise an error.
#[verifier::external_body]
fn parse_u64(s: &str) -> (r: Result<u64, ParseIntError>)
    ensures
        r is Ok <==> parses_as_u64(s@),
        r matches Ok(v) ==> v as nat == digits_value(unsigned_digits(s@)),
{
    s.parse::<u64>()
}

/// Parse already-trimmed counter text as a reading in microjoules.
pub fn energy_reading_from_digits(text: &str) -> (r: Result<EnergyReading, RaplError>)
    ensures
        r is Ok <==> parses_as_u64(text@),
        r matches Ok(e) ==> e.microjoules as nat == digits_value(unsigned_digits(text@)),
        r matches Err(e) ==> e is Parse,
{
    match parse_u64(text) {
        Ok(microjoules) => Ok(EnergyReading { microjoules }),
        Err(e) => Err(RaplError::Parse(e)),
    }
}

/// Parse the contents of the powercap `energy_uj` counter file: surrounding
/// white space is ignored, the rest must be an unsigned decimal integer.
pub fn energy_reading_from_counter_text(content: &str) -> (r: Result<EnergyReading, RaplError>)
    ensures
        r is Ok <==> parses_as_u64(trimmed(content@)),
        r matches Ok(e) ==> e.microjoules as nat == digits_value(
            unsigned_digits(trimmed(content@)),
        ),
        r matches Err(e) ==> e is Parse,
{
    energy_reading_from_digits(str_trim(content))
}

} // verus!
