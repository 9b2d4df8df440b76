use vstd::prelude::*;

verus! {

/// `c` is one of the digits `0`..`9`.
pub open spec fn is_digit(c: char) -> bool {
    '0' as int <= c as int <= '9' as int
}

/// The value of the two digits of `t` at positions `i` and `i + 1`.
pub open spec fn two_digit_value(t: Seq<char>, i: int) -> int {
    10 * (t[i] as int - '0' as int) + (t[i + 1] as int - '0' as int)
}

/// `t` is a time of day written `HH:MM:SS.mmm`: two digits of hour (at most
/// 23), a colon, two digits of minute (at most 59), a colon, two digits of
/// second (at most 59), a full stop and three digits of millisecond.
pub open spec fn clock_text(t: Seq<char>) -> bool {
    &&& t.len() == 12
    &&& t[2] == ':'
    &&& t[5] == ':'
    &&& t[8] == '.'
    &&& forall|i: int|
        0 <= i < 12 && i != 2 && i != 5 && i != 8 ==> #[trigger] is_digit(t[i])
    &&& two_digit_value(t, 0) <= 23
    &&& two_digit_value(t, 3) <= 59
    &&& two_digit_value(t, 6) <= 59
}

/// Midnight, `00:00:00.000`.
pub open spec fn midnight_text() -> Seq<char> {
    seq!['0', '0', ':', '0', '0', ':', '0', '0', '.', '0', '0', '0']
}

/// Midnight is a time of day in the `HH:MM:SS.mmm` form.
pub proof fn lemma_midnight_is_clock_text()
    ensures
        clock_text(midnight_text()),
{
    let t = midnight_text();
    assert forall|i: int| 0 <= i < 12 && i != 2 && i != 5 && i != 8 implies #[trigger] is_digit(t[i]) by {
    }
}

/// The local wall-clock time of day: chrono's `Local::now()` formatted with
/// `format(pattern)`, where the pattern is `%H:%M:%S%.3f`.
///
/// The contract claims the shape of the result, which chrono's formatting
/// code fixes for this pattern: `%H`, `%M` and `%S` are written as two
/// zero-padded digits, `%.3f` as the decimal point `.` and exactly three
/// zero-padded digits of milliseconds; `Local::now()` is built from
/// `Utc::now()` with sub-second nanoseconds below one second, so the second
/// is never a leap second (at most 59). Which time it is depends on the
/// moment of the call and the machine's time zone, and is not stated.
#[verifier::external_body]
pub(crate) fn local_clock_time(pattern: &str) -> (t: String)
    requires
        pattern@ == "%H:%M:%S%.3f"@,
    ensures
        clock_text(t@),
{
    chrono::Local::now().format(pattern).to_string()
}

} // verus!
