use vstd::prelude::*;

use crate::clock::{clock_text, is_digit};
use crate::display::{kind_of_entry, magnitude, LogKind};
use crate::state::{MouseEvent, StateModel};
use crate::text::{contains_text, digit_char, int_decimal, nat_decimal};

verus! {

/// The number a run of decimal digits denotes, most significant first.
pub open spec fn digits_value(s: Seq<char>) -> int
    decreases s.len(),
{
    if s.len() == 0 {
        0
    } else {
        10 * digits_value(s.drop_last()) + (s.last() as int - '0' as int)
    }
}

/// Every character of `s` is a decimal digit.
pub open spec fn all_digits(s: Seq<char>) -> bool {
    forall|i: int| 0 <= i < s.len() ==> #[trigger] is_digit(s[i])
}

proof fn lemma_digit_char(d: nat)
    requires
        d < 10,
    ensures
        is_digit(digit_char(d)),
        digit_char(d) as int - '0' as int == d,
{
}

proof fn lemma_nat_decimal(n: nat)
    ensures
        nat_decimal(n).len() > 0,
        all_digits(nat_decimal(n)),
        digits_value(nat_decimal(n)) == n,
        nat_decimal(n).len() > 1 ==> nat_decimal(n)[0] != '0',
    decreases n,
{
    if n < 10 {
        lemma_digit_char(n);
        let s = nat_decimal(n);
        assert(s.drop_last() =~= Seq::<char>::empty());
        assert(digits_value(s.drop_last()) == 0);
        assert(s.last() == digit_char(n));
    } else {
        lemma_nat_decimal(n / 10);
        lemma_digit_char(n % 10);
        let p = nat_decimal(n / 10);
        let s = nat_decimal(n);
        assert(s.drop_last() =~= p);
        assert(s.last() == digit_char(n % 10));
        assert(digits_value(s) == 10 * digits_value(p) + (s.last() as int - '0' as int));
        assert(10 * (n / 10) + n % 10 == n);
        assert(s[0] == p[0]);
        if p.len() == 1 {
            assert(digits_value(p.drop_last()) == 0) by {
                assert(p.drop_last() =~= Seq::<char>::empty());
            }
            assert(p[0] != '0');
        }
        assert forall|i: int| 0 <= i < s.len() implies #[trigger] is_digit(s[i]) by {
            if i < p.len() {
                assert(s[i] == p[i]);
            }
        }
    }
}

/// The decimal text of an integer denotes exactly that integer: a
/// non-negative number is written as digits without a leading zero whose
/// value is the number; a negative number is a minus sign followed by the
/// digits of its magnitude.
pub proof fn lemma_decimal_text_denotes_number(n: int)
    ensures
        n >= 0 ==> {
            &&& int_decimal(n).len() > 0
            &&& all_digits(int_decimal(n))
            &&& digits_value(int_decimal(n)) == n
            &&& int_decimal(n).len() > 1 ==> int_decimal(n)[0] != '0'
        },
        n < 0 ==> {
            &&& int_decimal(n).len() > 1
            &&& int_decimal(n)[0] == '-'
            &&& all_digits(int_decimal(n).drop_first())
            &&& digits_value(int_decimal(n).drop_first()) == -n
            &&& int_decimal(n).len() > 2 ==> int_decimal(n)[1] != '0'
        },
{
    if n >= 0 {
        lemma_nat_decimal(n as nat);
    } else {
        lemma_nat_decimal((-n) as nat);
        assert(int_decimal(n).drop_first() =~= nat_decimal((-n) as nat));
    }
}

/// A bar of the scroll chart is the absolute value of its delta: it is the
/// delta or its negation, and never negative.
pub proof fn lemma_magnitude_is_absolute_value(v: i64)
    ensures
        magnitude(v) == v || magnitude(v) == -v,
        v > i64::MIN ==> magnitude(v) == magnitude((-v) as i64),
        v != 0 ==> magnitude(v) > 0,
{
}

/// `p` occurs in `s` exactly when some stretch of `s` as long as `p` equals
/// `p`.
pub proof fn lemma_contains_text_is_substring(s: Seq<char>, p: Seq<char>)
    ensures
        contains_text(s, p) <==> exists|i: int|
            0 <= i && i + p.len() <= s.len() && #[trigger] s.subrange(i, i + p.len()) == p,
{
    if contains_text(s, p) {
        let i = choose|i: int| crate::text::occurs_at(s, p, i);
        assert(s.subrange(i, i + p.len()) =~= p);
    }
    if exists|i: int| 0 <= i && i + p.len() <= s.len() && #[trigger] s.subrange(i, i + p.len()) == p {
        let i = choose|i: int| 0 <= i && i + p.len() <= s.len() && #[trigger] s.subrange(i, i + p.len()) == p;
        assert forall|k: int| 0 <= k < p.len() implies s[i + k] == p[k] by {
            assert(s.subrange(i, i + p.len())[k] == s[i + k]);
        }
        assert(crate::text::occurs_at(s, p, i));
    }
}

/// A log entry is coloured by what the whole entry contains: `SCROLL` makes
/// it a scroll line; otherwise `DOWN` a press; otherwise `UP` a release;
/// otherwise nothing.
pub proof fn lemma_kind_follows_contents(e: Seq<char>)
    ensures
        contains_text(e, "SCROLL"@) ==> kind_of_entry(e) == LogKind::Scroll,
        !contains_text(e, "SCROLL"@) && contains_text(e, "DOWN"@) ==> kind_of_entry(e) == LogKind::Down,
        !contains_text(e, "SCROLL"@) && !contains_text(e, "DOWN"@) && contains_text(e, "UP"@)
            ==> kind_of_entry(e) == LogKind::Up,
        !contains_text(e, "SCROLL"@) && !contains_text(e, "DOWN"@) && !contains_text(e, "UP"@)
            ==> kind_of_entry(e) == LogKind::Other,
{
}

/// `c` is a capital letter.
pub open spec fn is_capital(c: char) -> bool {
    'A' as int <= c as int <= 'Z' as int
}

/// A word made of capital letters occurs in a log entry stamped with a time
/// of day exactly when it occurs in the message: the stamp and its brackets
/// hold no letter.
pub proof fn lemma_word_in_entry_is_in_message(ts: Seq<char>, msg: Seq<char>, w: Seq<char>)
    requires
        clock_text(ts),
        w.len() > 0,
        forall|k: int| 0 <= k < w.len() ==> #[trigger] is_capital(w[k]),
    ensures
        contains_text(seq!['['] + ts + seq![']', ' '] + msg, w) == contains_text(msg, w),
{
    let e = seq!['['] + ts + seq![']', ' '] + msg;
    assert(e.len() == 15 + msg.len());
    assert forall|j: int| 15 <= j < e.len() implies e[j] == msg[j - 15] by {}
    if contains_text(e, w) {
        let i = choose|i: int| crate::text::occurs_at(e, w, i);
        assert(is_capital(w[0]));
        assert(e[i] == w[0]);
        if i < 15 {
            if i == 0 {
                assert(e[0] == '[');
            } else if i <= 12 {
                assert(e[i] == ts[i - 1]);
                if i - 1 == 2 || i - 1 == 5 || i - 1 == 8 {
                } else {
                    assert(is_digit(ts[i - 1]));
                }
            } else if i == 13 {
                assert(e[13] == ']');
            } else {
                assert(e[14] == ' ');
            }
            assert(false);
        }
        assert forall|k: int| 0 <= k < w.len() implies msg[i - 15 + k] == w[k] by {
            assert(e[i + k] == w[k]);
        }
        assert(crate::text::occurs_at(msg, w, i - 15));
    }
    if contains_text(msg, w) {
        let i = choose|i: int| crate::text::occurs_at(msg, w, i);
        assert forall|k: int| 0 <= k < w.len() implies e[i + 15 + k] == w[k] by {
            assert(e[i + 15 + k] == msg[i + k]);
        }
        assert(crate::text::occurs_at(e, w, i + 15));
    }
}

/// A log entry stamped with a time of day is coloured by its message alone.
pub proof fn lemma_entry_kind_is_message_kind(ts: Seq<char>, msg: Seq<char>)
    requires
        clock_text(ts),
    ensures
        kind_of_entry(seq!['['] + ts + seq![']', ' '] + msg) == kind_of_entry(msg),
{
    reveal_strlit("SCROLL");
    reveal_strlit("DOWN");
    reveal_strlit("UP");
    lemma_word_in_entry_is_in_message(ts, msg, "SCROLL"@);
    lemma_word_in_entry_is_in_message(ts, msg, "DOWN"@);
    lemma_word_in_entry_is_in_message(ts, msg, "UP"@);
}

/// `s` and `t` show the cursor at the same place.
pub open spec fn same_position(s: StateModel, t: StateModel) -> bool {
    s.mouse_x == t.mouse_x && s.mouse_y == t.mouse_y
}

/// `s` and `t` show the same five buttons.
pub open spec fn same_buttons(s: StateModel, t: StateModel) -> bool {
    &&& s.btn_left == t.btn_left
    &&& s.btn_right == t.btn_right
    &&& s.btn_middle == t.btn_middle
    &&& s.btn_side_back == t.btn_side_back
    &&& s.btn_side_forward == t.btn_side_forward
}

/// `s` and `t` show the same scroll figures and histories.
pub open spec fn same_scroll(s: StateModel, t: StateModel) -> bool {
    &&& s.scroll_dx == t.scroll_dx
    &&& s.scroll_dy == t.scroll_dy
    &&& s.scroll_is_pixel == t.scroll_is_pixel
    &&& s.scroll_dy_history == t.scroll_dy_history
    &&& s.scroll_dx_history == t.scroll_dx_history
}

/// The log of `t` is that of `s` with the entry `[ts] msg` written: unchanged
/// while paused; otherwise the entry is the newest, and before it stand the
/// old entries, without the oldest one when the log was already full.
pub open spec fn log_written(s: StateModel, t: StateModel, ts: Seq<char>, msg: Seq<char>) -> bool {
    if s.paused {
        t.event_log == s.event_log
    } else {
        &&& t.event_log.len() > 0
        &&& t.event_log.last() == seq!['['] + ts + seq![']', ' '] + msg
        &&& t.event_log.drop_last() == (if s.event_log.len() >= 100 {
            s.event_log.drop_first()
        } else {
            s.event_log
        })
    }
}

/// A move (or drag) changes the cursor position and nothing else: the
/// buttons stay as they are (a drag keeps its button held), and nothing is
/// logged.
pub proof fn lemma_move_changes_only_position(s: StateModel, x: i32, y: i32, ts: Seq<char>)
    ensures
        ({
            let t = s.after_event(MouseEvent::Moved { x, y }, ts);
            &&& t.mouse_x == x
            &&& t.mouse_y == y
            &&& same_buttons(s, t)
            &&& same_scroll(s, t)
            &&& t.event_log == s.event_log
            &&& t.paused == s.paused
        }),
{
}

/// What a button event must do: set the five buttons to the given values,
/// keep position, scroll figures and pause, and write `[ts] msg` to the log.
pub open spec fn button_effect(
    s: StateModel,
    t: StateModel,
    ts: Seq<char>,
    left: bool,
    right: bool,
    middle: bool,
    back: bool,
    forward: bool,
    msg: Seq<char>,
) -> bool {
    &&& t.btn_left == left
    &&& t.btn_right == right
    &&& t.btn_middle == middle
    &&& t.btn_side_back == back
    &&& t.btn_side_forward == forward
    &&& same_position(s, t)
    &&& same_scroll(s, t)
    &&& t.paused == s.paused
    &&& log_written(s, t, ts, msg)
}

proof fn lemma_log_written(s: StateModel, m: StateModel, ts: Seq<char>, msg: Seq<char>)
    requires
        m.event_log == s.event_log,
        m.paused == s.paused,
    ensures
        log_written(s, m.logged(ts, msg), ts, msg),
{
    if !s.paused {
        let t = m.logged(ts, msg);
        let e = seq!['['] + ts + seq![']', ' '] + msg;
        let p = s.event_log.push(e);
        if p.len() > 100 {
            assert(p.drop_first().drop_last() =~= s.event_log.drop_first());
        } else {
            assert(p.drop_last() =~= s.event_log);
        }
    }
}

/// Each button event sets its own button (down: pressed, up: released),
/// leaves the other four, the position and the scroll figures alone, and
/// logs its name; an other-button event with a number other than 2 (middle),
/// 3 (back) or 4 (forward) changes nothing.
pub proof fn lemma_button_events(s: StateModel, ts: Seq<char>, b: i64)
    ensures
        button_effect(s, s.after_event(MouseEvent::LeftDown, ts), ts,
            true, s.btn_right, s.btn_middle, s.btn_side_back, s.btn_side_forward, "LEFT DOWN"@),
        button_effect(s, s.after_event(MouseEvent::LeftUp, ts), ts,
            false, s.btn_right, s.btn_middle, s.btn_side_back, s.btn_side_forward, "LEFT UP"@),
        button_effect(s, s.after_event(MouseEvent::RightDown, ts), ts,
            s.btn_left, true, s.btn_middle, s.btn_side_back, s.btn_side_forward, "RIGHT DOWN"@),
        button_effect(s, s.after_event(MouseEvent::RightUp, ts), ts,
            s.btn_left, false, s.btn_middle, s.btn_side_back, s.btn_side_forward, "RIGHT UP"@),
        button_effect(s, s.after_event(MouseEvent::OtherDown { button: 2 }, ts), ts,
            s.btn_left, s.btn_right, true, s.btn_side_back, s.btn_side_forward, "MIDDLE DOWN"@),
        button_effect(s, s.after_event(MouseEvent::OtherUp { button: 2 }, ts), ts,
            s.btn_left, s.btn_right, false, s.btn_side_back, s.btn_side_forward, "MIDDLE UP"@),
        button_effect(s, s.after_event(MouseEvent::OtherDown { button: 3 }, ts), ts,
            s.btn_left, s.btn_right, s.btn_middle, true, s.btn_side_forward, "BACK DOWN"@),
        button_effect(s, s.after_event(MouseEvent::OtherUp { button: 3 }, ts), ts,
            s.btn_left, s.btn_right, s.btn_middle, false, s.btn_side_forward, "BACK UP"@),
        button_effect(s, s.after_event(MouseEvent::OtherDown { button: 4 }, ts), ts,
            s.btn_left, s.btn_right, s.btn_middle, s.btn_side_back, true, "FORWARD DOWN"@),
        button_effect(s, s.after_event(MouseEvent::OtherUp { button: 4 }, ts), ts,
            s.btn_left, s.btn_right, s.btn_middle, s.btn_side_back, false, "FORWARD UP"@),
        !(2 <= b <= 4) ==> s.after_event(MouseEvent::OtherDown { button: b }, ts) == s,
        !(2 <= b <= 4) ==> s.after_event(MouseEvent::OtherUp { button: b }, ts) == s,
        s.after_event(MouseEvent::Other, ts) == s,
{
    let evs = seq![
        MouseEvent::LeftDown,
        MouseEvent::LeftUp,
        MouseEvent::RightDown,
        MouseEvent::RightUp,
        MouseEvent::OtherDown { button: 2 },
        MouseEvent::OtherUp { button: 2 },
        MouseEvent::OtherDown { button: 3 },
        MouseEvent::OtherUp { button: 3 },
        MouseEvent::OtherDown { button: 4 },
        MouseEvent::OtherUp { button: 4 },
    ];
    assert forall|i: int| 0 <= i < 10 implies ({
        let ev = #[trigger] evs[i];
        log_written(s, s.after_event(ev, ts), ts, crate::state::event_message(ev))
    }) by {
        let ev = evs[i];
        lemma_log_written(s, s.with_event_fields(ev), ts, crate::state::event_message(ev));
    }
    assert(evs[0] == MouseEvent::LeftDown);
    assert(evs[1] == MouseEvent::LeftUp);
    assert(evs[2] == MouseEvent::RightDown);
    assert(evs[3] == MouseEvent::RightUp);
    assert(evs[4] == MouseEvent::OtherDown { button: 2 });
    assert(evs[5] == MouseEvent::OtherUp { button: 2 });
    assert(evs[6] == MouseEvent::OtherDown { button: 3 });
    assert(evs[7] == MouseEvent::OtherUp { button: 3 });
    assert(evs[8] == MouseEvent::OtherDown { button: 4 });
    assert(evs[9] == MouseEvent::OtherUp { button: 4 });
}

/// A scroll event records the deltas it carries and whether the device is
/// pixel-precise (the raw field is exactly 1), makes each delta the newest
/// in its history (dropping the oldest from a full history), keeps position,
/// buttons and pause, and logs `SCROLL dy:<dy> dx:<dx>` with both deltas
/// written in decimal, signs included.
pub proof fn lemma_scroll_event(s: StateModel, dx: i64, dy: i64, continuous: i64, ts: Seq<char>)
    ensures
        ({
            let t = s.after_event(MouseEvent::Scroll { dx, dy, continuous }, ts);
            &&& t.scroll_dx == dx
            &&& t.scroll_dy == dy
            &&& t.scroll_is_pixel == (continuous == 1)
            &&& t.scroll_dy_history.len() > 0
            &&& t.scroll_dy_history.last() == dy
            &&& t.scroll_dy_history.drop_last() == (if s.scroll_dy_history.len() >= 60 {
                s.scroll_dy_history.drop_first()
            } else {
                s.scroll_dy_history
            })
            &&& t.scroll_dx_history.len() > 0
            &&& t.scroll_dx_history.last() == dx
            &&& t.scroll_dx_history.drop_last() == (if s.scroll_dx_history.len() >= 60 {
                s.scroll_dx_history.drop_first()
            } else {
                s.scroll_dx_history
            })
            &&& same_position(s, t)
            &&& same_buttons(s, t)
            &&& t.paused == s.paused
            &&& log_written(s, t, ts, "SCROLL dy:"@ + int_decimal(dy as int) + " dx:"@ + int_decimal(dx as int))
        }),
{
    let ev = MouseEvent::Scroll { dx, dy, continuous };
    let m = s.with_event_fields(ev);
    lemma_log_written(s, m, ts, crate::state::event_message(ev));
    let py = s.scroll_dy_history.push(dy);
    let px = s.scroll_dx_history.push(dx);
    if py.len() > 60 {
        assert(py.drop_first().drop_last() =~= s.scroll_dy_history.drop_first());
    } else {
        assert(py.drop_last() =~= s.scroll_dy_history);
    }
    if px.len() > 60 {
        assert(px.drop_first().drop_last() =~= s.scroll_dx_history.drop_first());
    } else {
        assert(px.drop_last() =~= s.scroll_dx_history);
    }
}

/// Logging `msg` at `ts` writes the entry `[ts] msg` (unless paused) and
/// changes nothing but the log.
pub proof fn lemma_logging_writes_entry(s: StateModel, ts: Seq<char>, msg: Seq<char>)
    ensures
        log_written(s, s.logged(ts, msg), ts, msg),
        same_position(s, s.logged(ts, msg)),
        same_buttons(s, s.logged(ts, msg)),
        same_scroll(s, s.logged(ts, msg)),
        s.logged(ts, msg).paused == s.paused,
{
    lemma_log_written(s, s, ts, msg);
}

} // verus!
