//! The local wall clock, as rustbasic_core's `chrono` reads and writes it,
//! and the texts it writes for a date and time.

use vstd::prelude::*;

use rustbasic_core::chrono::Local;

verus! {

/// The fields of a date and time as rustbasic_core's `chrono` holds them.
pub struct DateTimeFields {
    pub year: i32,
    pub month: u32,
    pub day: u32,
    pub hour: u32,
    pub minute: u32,
    pub second: u32,
    pub nanosecond: u32,
}

impl DateTimeFields {
    /// Month 1–12, day 1–31, hour 0–23, minute and second 0–59, and
    /// nanosecond below one second.
    pub open spec fn is_valid(self) -> bool {
        &&& 1 <= self.month <= 12
        &&& 1 <= self.day <= 31
        &&& self.hour < 24
        &&& self.minute < 60
        &&& self.second < 60
        &&& self.nanosecond < 1_000_000_000
    }
}

/// The decimal digit for `d` (below ten).
pub open spec fn digit_char(d: nat) -> char {
    seq!['0', '1', '2', '3', '4', '5', '6', '7', '8', '9'][d as int]
}

/// The decimal digits of `n`, most significant first, without leading
/// zeros (`0` for zero).
pub open spec fn decimal(n: nat) -> Seq<char>
    decreases n,
{
    if n < 10 {
        seq![digit_char(n)]
    } else {
        decimal(n / 10).push(digit_char(n % 10))
    }
}

/// `n` in decimal, with zeros put in front up to `width` characters (Rust's
/// `{:0width}` on an unsigned number).
pub open spec fn zero_padded(n: nat, width: nat) -> Seq<char> {
    let digits = decimal(n);
    if digits.len() >= width {
        digits
    } else {
        Seq::new((width - digits.len()) as nat, |i: int| '0') + digits
    }
}

/// `n` in decimal with its sign, zeros put between sign and digits up to
/// `width` characters (Rust's `{:0width}` on a signed number).
pub open spec fn signed_zero_padded(n: int, width: nat) -> Seq<char> {
    if n >= 0 {
        zero_padded(n as nat, width)
    } else {
        "-"@ + zero_padded((-n) as nat, if width >= 1 { (width - 1) as nat } else { 0 })
    }
}

/// The text `chrono` writes for `dt` with the format `%Y%m%d_%H%M%S`.
pub open spec fn compact_datetime_text(dt: DateTimeFields) -> Seq<char> {
    signed_zero_padded(dt.year as int, 4) + zero_padded(dt.month as nat, 2)
        + zero_padded(dt.day as nat, 2) + "_"@ + zero_padded(dt.hour as nat, 2)
        + zero_padded(dt.minute as nat, 2) + zero_padded(dt.second as nat, 2)
}

/// The text `chrono` writes for `dt` as a naive date and time:
/// `YYYY-MM-DD HH:MM:SS`, then `.nnnnnnnnn` when the nanoseconds are not zero.
pub open spec fn datetime_text(dt: DateTimeFields) -> Seq<char> {
    signed_zero_padded(dt.year as int, 4) + "-"@ + zero_padded(dt.month as nat, 2) + "-"@
        + zero_padded(dt.day as nat, 2) + " "@ + zero_padded(dt.hour as nat, 2) + ":"@
        + zero_padded(dt.minute as nat, 2) + ":"@ + zero_padded(dt.second as nat, 2)
        + if dt.nanosecond > 0 {
            "."@ + zero_padded(dt.nanosecond as nat, 9)
        } else {
            Seq::empty()
        }
}

/// `text` is what `chrono` writes with `%Y%m%d_%H%M%S` for some valid date
/// and time.
pub open spec fn is_compact_timestamp(text: Seq<char>) -> bool {
    exists|dt: DateTimeFields| dt.is_valid() && text == #[trigger] compact_datetime_text(dt)
}

/// `text` is what `chrono` writes as a naive date and time for some valid
/// date and time.
pub open spec fn is_datetime_text(text: Seq<char>) -> bool {
    exists|dt: DateTimeFields| dt.is_valid() && text == #[trigger] datetime_text(dt)
}

/// The local date and time now, as rustbasic_core's `chrono` writes a naive
/// date and time (`Local::now().naive_local().to_string()`): the
/// `NaiveDate` and `NaiveTime` `Display` impls write `{:04}-{:02}-{:02}`
/// and `{:02}:{:02}:{:02}`, with `.{:09}` nanoseconds when they are not
/// zero, and `Local::now` builds the fields by `from_timestamp_opt`, which
/// keeps them in their ranges. Which date and time it is, the contract does
/// not say: that depends on the clock and the time zone. rustbasic_core
/// panics when the system clock reads before 1970.
#[verifier::external_body]
pub fn local_datetime_text() -> (text: String)
    ensures
        is_datetime_text(text@),
{
    Local::now().naive_local().to_string()
}

/// The local date and time now, written by rustbasic_core's `chrono` with
/// the strftime-like `format` (`Local::now().format(format).to_string()`).
/// For the format `%Y%m%d_%H%M%S` its `Format` writes `{:04}` year and
/// `{:02}` month, day, hour, minute and second; of other formats nothing is
/// claimed. Which date and time it is, the contract does not say: that
/// depends on the clock and the time zone. rustbasic_core panics when the
/// system clock reads before 1970.
#[verifier::external_body]
pub fn local_datetime_formatted(format: &str) -> (text: String)
    ensures
        format@ == "%Y%m%d_%H%M%S"@ ==> is_compact_timestamp(text@),
{
    Local::now().format(format).to_string()
}

/// The digits of a number are decimal digits, and there is at least one.
pub proof fn lemma_decimal_digits(n: nat)
    ensures
        decimal(n).len() >= 1,
        forall|i: int| 0 <= i < decimal(n).len() ==> '0' <= #[trigger] decimal(n)[i] <= '9',
        n < 10 ==> decimal(n).len() == 1,
        10 <= n < 100 ==> decimal(n).len() == 2,
    decreases n,
{
    if n >= 10 {
        lemma_decimal_digits(n / 10);
        assert(n % 10 < 10);
    }
}

/// A zero-padded number is all decimal digits; below 100 and padded to two
/// it is exactly two characters; padded to a width it is at least that wide.
pub proof fn lemma_zero_padded_digits(n: nat, width: nat)
    ensures
        zero_padded(n, width).len() >= width,
        forall|i: int| 0 <= i < zero_padded(n, width).len()
            ==> '0' <= #[trigger] zero_padded(n, width)[i] <= '9',
        n < 100 && width == 2 ==> zero_padded(n, width).len() == 2,
{
    lemma_decimal_digits(n);
    let digits = decimal(n);
    if digits.len() < width {
        let pad = Seq::new((width - digits.len()) as nat, |i: int| '0');
        assert forall|i: int| 0 <= i < zero_padded(n, width).len()
            implies '0' <= #[trigger] zero_padded(n, width)[i] <= '9' by {
            if i < pad.len() {
                assert(zero_padded(n, width)[i] == pad[i]);
            } else {
                assert(zero_padded(n, width)[i] == digits[i - pad.len()]);
            }
        }
    }
}

/// The shape of a compact timestamp of a year from 0 on: at least 15
/// characters, `_` seven from the end, and decimal digits everywhere else.
pub proof fn lemma_compact_timestamp_shape(dt: DateTimeFields)
    requires
        dt.is_valid(),
        dt.year >= 0,
    ensures
        ({
            let text = compact_datetime_text(dt);
            &&& text.len() >= 15
            &&& text[text.len() - 7] == '_'
            &&& forall|i: int| 0 <= i < text.len() && i != text.len() - 7
                ==> '0' <= #[trigger] text[i] <= '9'
        }),
{
    reveal_strlit("_");
    let y = zero_padded(dt.year as nat, 4);
    let mo = zero_padded(dt.month as nat, 2);
    let d = zero_padded(dt.day as nat, 2);
    let h = zero_padded(dt.hour as nat, 2);
    let mi = zero_padded(dt.minute as nat, 2);
    let s = zero_padded(dt.second as nat, 2);
    lemma_zero_padded_digits(dt.year as nat, 4);
    lemma_zero_padded_digits(dt.month as nat, 2);
    lemma_zero_padded_digits(dt.day as nat, 2);
    lemma_zero_padded_digits(dt.hour as nat, 2);
    lemma_zero_padded_digits(dt.minute as nat, 2);
    lemma_zero_padded_digits(dt.second as nat, 2);
    let text = compact_datetime_text(dt);
    let tail = h + mi + s;
    assert(text == y + mo + d + "_"@ + tail);
    let k = y.len() + mo.len() + d.len();
    assert forall|i: int| 0 <= i < text.len() && i != text.len() - 7
        implies '0' <= #[trigger] text[i] <= '9' by {
        if i < y.len() {
            assert(text[i] == y[i]);
        } else if i < y.len() + mo.len() {
            assert(text[i] == mo[i - y.len()]);
        } else if i < k {
            assert(text[i] == d[i - y.len() - mo.len()]);
        } else {
            let j = i - k - 1;
            if j < 2 {
                assert(text[i] == h[j]);
            } else if j < 4 {
                assert(text[i] == mi[j - 2]);
            } else {
                assert(text[i] == s[j - 4]);
            }
        }
    }
}

} // verus!
