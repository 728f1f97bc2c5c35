use vstd::arithmetic::div_mod::{lemma_fundamental_div_mod, lemma_mod_bound};
use vstd::prelude::*;
use vstd::string::StringExecFns;

verus! {

/// A wall-clock instant at second granularity, as plain calendar fields.
/// The host clock is read once per capture iteration and converted to this
/// type; everything computed from it (folder names, file names) is ordinary
/// verified code.
#[derive(Clone, Copy, PartialEq, Eq, Structural, Debug)]
pub struct Timestamp {
    pub year: u16,
    pub month: u8,
    pub day: u8,
    pub hour: u8,
    pub minute: u8,
    pub second: u8,
}

/// The decimal digit character for `d`.
pub open spec fn digit_char(d: int) -> char {
    if d == 0 {
        '0'
    } else if d == 1 {
        '1'
    } else if d == 2 {
        '2'
    } else if d == 3 {
        '3'
    } else if d == 4 {
        '4'
    } else if d == 5 {
        '5'
    } else if d == 6 {
        '6'
    } else if d == 7 {
        '7'
    } else if d == 8 {
        '8'
    } else {
        '9'
    }
}

/// `n` rendered as exactly two decimal digits, zero-padded.
pub open spec fn two_digit_seq(n: int) -> Seq<char> {
    seq![digit_char(n / 10), digit_char(n % 10)]
}

/// `n` rendered as exactly four decimal digits, zero-padded.
pub open spec fn four_digit_seq(n: int) -> Seq<char> {
    two_digit_seq(n / 100) + two_digit_seq(n % 100)
}

/// The file extension appended to every written frame.
pub open spec fn png_ext() -> Seq<char> {
    seq!['.', 'p', 'n', 'g']
}

impl Timestamp {
    /// Field ranges of a calendar timestamp. Years are kept to four digits,
    /// which fixes the width of every formatted date.
    pub open spec fn wf(&self) -> bool {
        &&& self.year <= 9999
        &&& 1 <= self.month <= 12
        &&& 1 <= self.day <= 31
        &&& self.hour <= 23
        &&& self.minute <= 59
        &&& self.second <= 59
    }

    /// The date part, formatted `YYYY-MM-DD`.
    pub open spec fn date_seq(&self) -> Seq<char> {
        four_digit_seq(self.year as int) + seq!['-'] + two_digit_seq(self.month as int)
            + seq!['-'] + two_digit_seq(self.day as int)
    }

    /// The file name for a frame taken at this instant:
    /// `YYYY-MM-DDThh.mm.ss.png`.
    pub open spec fn filename_seq(&self) -> Seq<char> {
        self.date_seq() + seq!['T'] + two_digit_seq(self.hour as int) + seq!['.']
            + two_digit_seq(self.minute as int) + seq!['.'] + two_digit_seq(self.second as int)
            + png_ext()
    }
}

/// The one-character string for a decimal digit.
fn digit_str(d: u8) -> (r: &'static str)
    requires
        d < 10,
    ensures
        r@ == seq![digit_char(d as int)],
{
    proof {
        reveal_strlit("0");
        reveal_strlit("1");
        reveal_strlit("2");
        reveal_strlit("3");
        reveal_strlit("4");
        reveal_strlit("5");
        reveal_strlit("6");
        reveal_strlit("7");
        reveal_strlit("8");
        reveal_strlit("9");
    }
    let r = match d {
        0 => "0",
        1 => "1",
        2 => "2",
        3 => "3",
        4 => "4",
        5 => "5",
        6 => "6",
        7 => "7",
        8 => "8",
        _ => "9",
    };
    proof {
        assert(r@ =~= seq![digit_char(d as int)]);
    }
    r
}

/// Renders `n` as exactly two decimal digits, zero-padded.
pub fn two_digit_string(n: u8) -> (r: String)
    requires
        n < 100,
    ensures
        r@ == two_digit_seq(n as int),
{
    let tens = digit_str(n / 10);
    let ones = digit_str(n % 10);
    let r = tens.to_owned().concat(ones);
    proof {
        assert(r@ =~= two_digit_seq(n as int));
    }
    r
}

/// Renders `n` as exactly four decimal digits, zero-padded.
pub fn four_digit_string(n: u16) -> (r: String)
    requires
        n <= 9999,
    ensures
        r@ == four_digit_seq(n as int),
{
    proof {
        lemma_fundamental_div_mod(n as int, 100);
        lemma_mod_bound(n as int, 100);
    }
    let hi = two_digit_string((n / 100) as u8);
    let lo = two_digit_string((n % 100) as u8);
    let r = hi.concat(lo.as_str());
    proof {
        assert(r@ =~= four_digit_seq(n as int));
    }
    r
}

/// Formats the date part of `ts` as `YYYY-MM-DD`.
pub fn date_string(ts: &Timestamp) -> (r: String)
    requires
        ts.wf(),
    ensures
        r@ == ts.date_seq(),
{
    proof {
        reveal_strlit("-");
    }
    let y = four_digit_string(ts.year);
    let m = two_digit_string(ts.month);
    let d = two_digit_string(ts.day);
    let r = y.concat("-").concat(m.as_str()).concat("-").concat(d.as_str());
    proof {
        assert(r@ =~= ts.date_seq());
    }
    r
}

/// Formats the file name for a frame taken at `ts`:
/// `YYYY-MM-DDThh.mm.ss.png`.
pub fn filename_string(ts: &Timestamp) -> (r: String)
    requires
        ts.wf(),
    ensures
        r@ == ts.filename_seq(),
{
    proof {
        reveal_strlit("T");
        reveal_strlit(".");
        reveal_strlit(".png");
    }
    let d = date_string(ts);
    let h = two_digit_string(ts.hour);
    let mi = two_digit_string(ts.minute);
    let s = two_digit_string(ts.second);
    let r = d.concat("T").concat(h.as_str()).concat(".").concat(mi.as_str()).concat(".").concat(
        s.as_str(),
    ).concat(".png");
    proof {
        assert(r@ =~= ts.filename_seq());
    }
    r
}

/// `x` clamped into the inclusive range `lo ..= hi`.
pub open spec fn clamp(lo: int, x: int, hi: int) -> int {
    if x < lo {
        lo
    } else if x > hi {
        hi
    } else {
        x
    }
}

/// Builds a well-formed timestamp from raw clock fields, clamping each field
/// into its calendar range. Fields that are already in range pass through
/// unchanged.
pub fn clamped_timestamp(
    year: i32,
    month: u32,
    day: u32,
    hour: u32,
    minute: u32,
    second: u32,
) -> (ts: Timestamp)
    ensures
        ts.wf(),
        ts.year as int == clamp(0, year as int, 9999),
        ts.month as int == clamp(1, month as int, 12),
        ts.day as int == clamp(1, day as int, 31),
        ts.hour as int == clamp(0, hour as int, 23),
        ts.minute as int == clamp(0, minute as int, 59),
        ts.second as int == clamp(0, second as int, 59),
{
    let y: u16 = if year < 0 {
        0
    } else if year > 9999 {
        9999
    } else {
        year as u16
    };
    let mo: u8 = if month < 1 {
        1
    } else if month > 12 {
        12
    } else {
        month as u8
    };
    let d: u8 = if day < 1 {
        1
    } else if day > 31 {
        31
    } else {
        day as u8
    };
    let h: u8 = if hour > 23 {
        23
    } else {
        hour as u8
    };
    let mi: u8 = if minute > 59 {
        59
    } else {
        minute as u8
    };
    let s: u8 = if second > 59 {
        59
    } else {
        second as u8
    };
    Timestamp { year: y, month: mo, day: d, hour: h, minute: mi, second: s }
}

/// Digit characters determine their digits.
pub proof fn lemma_digit_char_injective(a: int, b: int)
    requires
        0 <= a < 10,
        0 <= b < 10,
        digit_char(a) == digit_char(b),
    ensures
        a == b,
{
}

/// Two-digit rendering is injective on `0 ..= 99`.
pub proof fn lemma_two_digit_seq_injective(a: int, b: int)
    requires
        0 <= a < 100,
        0 <= b < 100,
        two_digit_seq(a) == two_digit_seq(b),
    ensures
        a == b,
{
    lemma_mod_bound(a, 10);
    lemma_mod_bound(b, 10);
    lemma_fundamental_div_mod(a, 10);
    lemma_fundamental_div_mod(b, 10);
    assert(two_digit_seq(a)[0] == two_digit_seq(b)[0]);
    assert(two_digit_seq(a)[1] == two_digit_seq(b)[1]);
    lemma_digit_char_injective(a / 10, b / 10);
    lemma_digit_char_injective(a % 10, b % 10);
}

/// Four-digit rendering is injective on `0 ..= 9999`.
pub proof fn lemma_four_digit_seq_injective(a: int, b: int)
    requires
        0 <= a <= 9999,
        0 <= b <= 9999,
        four_digit_seq(a) == four_digit_seq(b),
    ensures
        a == b,
{
    lemma_mod_bound(a, 100);
    lemma_mod_bound(b, 100);
    lemma_fundamental_div_mod(a, 100);
    lemma_fundamental_div_mod(b, 100);
    assert(two_digit_seq(a / 100) =~= four_digit_seq(a).subrange(0, 2));
    assert(two_digit_seq(b / 100) =~= four_digit_seq(b).subrange(0, 2));
    assert(two_digit_seq(a % 100) =~= four_digit_seq(a).subrange(2, 4));
    assert(two_digit_seq(b % 100) =~= four_digit_seq(b).subrange(2, 4));
    lemma_two_digit_seq_injective(a / 100, b / 100);
    lemma_two_digit_seq_injective(a % 100, b % 100);
}

/// Date formatting is injective: two well-formed timestamps with equal
/// `YYYY-MM-DD` renderings agree on year, month and day.
pub proof fn lemma_date_seq_injective(t1: Timestamp, t2: Timestamp)
    requires
        t1.wf(),
        t2.wf(),
        t1.date_seq() == t2.date_seq(),
    ensures
        t1.year == t2.year,
        t1.month == t2.month,
        t1.day == t2.day,
{
    assert(four_digit_seq(t1.year as int) =~= t1.date_seq().subrange(0, 4));
    assert(four_digit_seq(t2.year as int) =~= t2.date_seq().subrange(0, 4));
    assert(two_digit_seq(t1.month as int) =~= t1.date_seq().subrange(5, 7));
    assert(two_digit_seq(t2.month as int) =~= t2.date_seq().subrange(5, 7));
    assert(two_digit_seq(t1.day as int) =~= t1.date_seq().subrange(8, 10));
    assert(two_digit_seq(t2.day as int) =~= t2.date_seq().subrange(8, 10));
    lemma_four_digit_seq_injective(t1.year as int, t2.year as int);
    lemma_two_digit_seq_injective(t1.month as int, t2.month as int);
    lemma_two_digit_seq_injective(t1.day as int, t2.day as int);
}

} // verus!
