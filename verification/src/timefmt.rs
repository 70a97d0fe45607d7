//! Calendar timestamps and their rendering as a file-name suffix of the
//! shape `YYYY-MM-DD_HH-MM-SS`.

use vstd::prelude::*;

use crate::paths::with_suffix_spec;
use crate::paths::withSuffix;

verus! {

/// One local calendar date and time, broken into its fields.
#[derive(Clone, Copy, Debug, PartialEq, Eq, Structural)]
pub struct Timestamp {
    pub year: i32,
    pub month: u32,
    pub day: u32,
    pub hour: u32,
    pub minute: u32,
    pub second: u32,
}

impl Timestamp {
    /// The ranges every calendar clock reading satisfies.
    pub open spec fn wf(self) -> bool {
        &&& 1 <= self.month <= 12
        &&& 1 <= self.day <= 31
        &&& self.hour <= 23
        &&& self.minute <= 59
        &&& self.second <= 59
    }
}

pub open spec fn digit_char(d: int) -> char {
    if d == 0 {
        '0'
    } else if d == 1 {
        '1'
    } else if d == 2 {
        '2'
    } else if d == 3 {
        '3'
    } else if d == 4 {
        '4'
    } else if d == 5 {
        '5'
    } else if d == 6 {
        '6'
    } else if d == 7 {
        '7'
    } else if d == 8 {
        '8'
    } else {
        '9'
    }
}

/// The decimal digits of `n`, most significant first, no leading zero.
pub open spec fn decimal_digits(n: nat) -> Seq<char>
    decreases n,
{
    if n < 10 {
        seq![digit_char(n as int)]
    } else {
        decimal_digits(n / 10).push(digit_char((n % 10) as int))
    }
}

/// `n` in decimal, zero-padded on the left to at least four digits.
pub open spec fn pad4(n: nat) -> Seq<char> {
    if n < 10 {
        seq!['0', '0', '0'] + decimal_digits(n)
    } else if n < 100 {
        seq!['0', '0'] + decimal_digits(n)
    } else if n < 1000 {
        seq!['0'] + decimal_digits(n)
    } else {
        decimal_digits(n)
    }
}

/// The year field: four zero-padded digits, with a leading sign for a year
/// before year zero.
pub open spec fn year_digits(y: int) -> Seq<char> {
    if y < 0 {
        seq!['-'] + pad4((-y) as nat)
    } else {
        pad4(y as nat)
    }
}

/// Exactly two digits; meaningful for `n < 100`.
pub open spec fn two_digits(n: nat) -> Seq<char>
    recommends
        n < 100,
{
    seq![digit_char(n as int / 10), digit_char(n as int % 10)]
}

/// What rendering a timestamp means: `YYYY-MM-DD_HH-MM-SS`.
pub open spec fn timestamp_spec(t: Timestamp) -> Seq<char> {
    year_digits(t.year as int) + seq!['-'] + two_digits(t.month as nat) + seq!['-'] + two_digits(
        t.day as nat,
    ) + seq!['_'] + two_digits(t.hour as nat) + seq!['-'] + two_digits(t.minute as nat)
        + seq!['-'] + two_digits(t.second as nat)
}

fn digit_str(d: u32) -> (r: &'static str)
    requires
        d < 10,
    ensures
        r@ == seq![digit_char(d as int)],
{
    match d {
        0 => {
            proof {
                reveal_strlit("0");
                assert("0"@ =~= seq![digit_char(0)]);
            }
            "0"
        },
        1 => {
            proof {
                reveal_strlit("1");
                assert("1"@ =~= seq![digit_char(1)]);
            }
            "1"
        },
        2 => {
            proof {
                reveal_strlit("2");
                assert("2"@ =~= seq![digit_char(2)]);
            }
            "2"
        },
        3 => {
            proof {
                reveal_strlit("3");
                assert("3"@ =~= seq![digit_char(3)]);
            }
            "3"
        },
        4 => {
            proof {
                reveal_strlit("4");
                assert("4"@ =~= seq![digit_char(4)]);
            }
            "4"
        },
        5 => {
            proof {
                reveal_strlit("5");
                assert("5"@ =~= seq![digit_char(5)]);
            }
            "5"
        },
        6 => {
            proof {
                reveal_strlit("6");
                assert("6"@ =~= seq![digit_char(6)]);
            }
            "6"
        },
        7 => {
            proof {
                reveal_strlit("7");
                assert("7"@ =~= seq![digit_char(7)]);
            }
            "7"
        },
        8 => {
            proof {
                reveal_strlit("8");
                assert("8"@ =~= seq![digit_char(8)]);
            }
            "8"
        },
        _ => {
            proof {
                reveal_strlit("9");
                assert("9"@ =~= seq![digit_char(9)]);
            }
            "9"
        },
    }
}

fn decimal_string(n: u32) -> (r: String)
    ensures
        r@ == decimal_digits(n as nat),
    decreases n,
{
    if n < 10 {
        digit_str(n).to_owned()
    } else {
        decimal_string(n / 10).concat(digit_str(n % 10))
    }
}

fn pad4_string(n: u32) -> (r: String)
    ensures
        r@ == pad4(n as nat),
{
    if n < 10 {
        proof {
            reveal_strlit("000");
            assert("000"@ =~= seq!['0', '0', '0']);
        }
        String::from_str("000").concat(decimal_string(n).as_str())
    } else if n < 100 {
        proof {
            reveal_strlit("00");
            assert("00"@ =~= seq!['0', '0']);
        }
        String::from_str("00").concat(decimal_string(n).as_str())
    } else if n < 1000 {
        proof {
            reveal_strlit("0");
            assert("0"@ =~= seq!['0']);
        }
        String::from_str("0").concat(decimal_string(n).as_str())
    } else {
        decimal_string(n)
    }
}

fn two_digit_string(n: u32) -> (r: String)
    requires
        n < 100,
    ensures
        r@ == two_digits(n as nat),
{
    digit_str(n / 10).to_owned().concat(digit_str(n % 10))
}

fn year_string(y: i32) -> (r: String)
    ensures
        r@ == year_digits(y as int),
{
    if y < 0 {
        let magnitude: u32 = (-(y as i64)) as u32;
        proof {
            reveal_strlit("-");
            assert("-"@ =~= seq!['-']);
        }
        String::from_str("-").concat(pad4_string(magnitude).as_str())
    } else {
        pad4_string(y as u32)
    }
}

/// Renders a timestamp as `YYYY-MM-DD_HH-MM-SS`.
pub fn timestampString(t: &Timestamp) -> (r: String)
    requires
        t.wf(),
    ensures
        r@ == timestamp_spec(*t),
{
    proof {
        reveal_strlit("-");
        reveal_strlit("_");
        assert("-"@ =~= seq!['-']);
        assert("_"@ =~= seq!['_']);
    }
    year_string(t.year).concat("-").concat(two_digit_string(t.month).as_str()).concat("-").concat(
        two_digit_string(t.day).as_str(),
    ).concat("_").concat(two_digit_string(t.hour).as_str()).concat("-").concat(
        two_digit_string(t.minute).as_str(),
    ).concat("-").concat(two_digit_string(t.second).as_str())
}

/// Relies on chrono's `From<SystemTime> for DateTime<Local>`, which reads
/// the clock through `SystemTime` and handles a reading before the epoch
/// itself (unlike `Local::now`, which aborts on one), and falls back to UTC
/// for a local zone it cannot load; and on chrono's Datelike/Timelike
/// accessors, whose documented ranges are: month 1 to 12, day 1 to 31,
/// hour 0 to 23, minute 0 to 59, second 0 to 59.
#[verifier::external_body]
fn local_now_parts() -> (t: Timestamp)
    ensures
        t.wf(),
{
    let now: chrono::DateTime<chrono::Local> = std::time::SystemTime::now().into();
    Timestamp {
        year: chrono::Datelike::year(&now),
        month: chrono::Datelike::month(&now),
        day: chrono::Datelike::day(&now),
        hour: chrono::Timelike::hour(&now),
        minute: chrono::Timelike::minute(&now),
        second: chrono::Timelike::second(&now),
    }
}

/// The current local time, broken into calendar fields.
pub fn nowTimestamp() -> (t: Timestamp)
    ensures
        t.wf(),
{
    local_now_parts()
}

/// Inserts a timestamp suffix for the current local time before the file
/// name's extension, as intake and routing do when their timestamp flag is
/// set.
pub fn addTimestamp(name: &str) -> (r: String)
    ensures
        exists|t: Timestamp| t.wf() && r@ == with_suffix_spec(name@, timestamp_spec(t)),
{
    let t = nowTimestamp();
    let ts = timestampString(&t);
    let r = withSuffix(name, ts.as_str());
    proof {
        assert(t.wf() && r@ == with_suffix_spec(name@, timestamp_spec(t)));
    }
    r
}

} // verus!
