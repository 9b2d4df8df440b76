use vstd::prelude::*;

use crate::display::{lemma_seq_min_max_bounds, seq_max, seq_min, seq_sum};
use crate::state::{
    event_is_logged, event_message, initial_model, key_action, KeyAction, log_entry, MouseEvent, StateModel, HISTORY_CAPACITY,
    LOG_CAPACITY,
};
use crate::window::{fill_window, last_n, lemma_push_bounded_keeps_capacity, lemma_window_keeps_newest, push_bounded};

verus! {

/// The state the inspector starts in is within the capacities.
pub proof fn lemma_initial_within_capacity()
    ensures
        initial_model().within_capacity(),
{
}

/// No event takes a state beyond the capacities: neither scroll history ever
/// holds more than its capacity, nor the log more than its own.
pub proof fn lemma_event_keeps_capacity(s: StateModel, ev: MouseEvent, timestamp: Seq<char>)
    requires
        s.within_capacity(),
    ensures
        s.after_event(ev, timestamp).within_capacity(),
{
    lemma_push_bounded_keeps_capacity(s.event_log, log_entry(timestamp, event_message(ev)), LOG_CAPACITY as nat);
    if let MouseEvent::Scroll { dx, dy, continuous } = ev {
        lemma_push_bounded_keeps_capacity(s.scroll_dy_history, dy, HISTORY_CAPACITY as nat);
        lemma_push_bounded_keeps_capacity(s.scroll_dx_history, dx, HISTORY_CAPACITY as nat);
    }
}

/// No key press takes a state beyond the capacities.
pub proof fn lemma_key_keeps_capacity(s: StateModel, key: char)
    requires
        s.within_capacity(),
    ensures
        s.after_key(key).within_capacity(),
{
}

/// A scroll event on a state within the capacities leaves in each history
/// exactly the newest deltas, at most as many as the capacity, ending with
/// the new one.
pub proof fn lemma_scroll_histories_hold_newest(
    s: StateModel,
    dx: i64,
    dy: i64,
    continuous: i64,
    timestamp: Seq<char>,
)
    requires
        s.within_capacity(),
    ensures
        ({
            let t = s.after_event(MouseEvent::Scroll { dx, dy, continuous }, timestamp);
            &&& t.scroll_dy_history == last_n(s.scroll_dy_history.push(dy), HISTORY_CAPACITY as nat)
            &&& t.scroll_dx_history == last_n(s.scroll_dx_history.push(dx), HISTORY_CAPACITY as nat)
            &&& t.scroll_dy_history.last() == dy
            &&& t.scroll_dx_history.last() == dx
        }),
{
    lemma_push_bounded_keeps_capacity(s.scroll_dy_history, dy, HISTORY_CAPACITY as nat);
    lemma_push_bounded_keeps_capacity(s.scroll_dx_history, dx, HISTORY_CAPACITY as nat);
}

/// While the log is paused no event changes the log; the position, buttons
/// and scroll figures still follow the events.
pub proof fn lemma_paused_log_is_frozen(s: StateModel, ev: MouseEvent, timestamp: Seq<char>)
    requires
        s.paused,
    ensures
        s.after_event(ev, timestamp).event_log == s.event_log,
        s.after_event(ev, timestamp).paused,
{
}

/// When the log is not paused, an event that is logged appends exactly one
/// entry, stamped with the timestamp, to the bounded log; other events leave
/// the log alone.
pub proof fn lemma_unpaused_event_log(s: StateModel, ev: MouseEvent, timestamp: Seq<char>)
    requires
        !s.paused,
        s.within_capacity(),
    ensures
        event_is_logged(ev) ==> exists|msg: Seq<char>|
            s.after_event(ev, timestamp).event_log == last_n(
                s.event_log.push(#[trigger] log_entry(timestamp, msg)),
                LOG_CAPACITY as nat,
            ),
        !event_is_logged(ev) ==> s.after_event(ev, timestamp).event_log == s.event_log,
{
    let msg = event_message(ev);
    lemma_push_bounded_keeps_capacity(s.event_log, log_entry(timestamp, msg), LOG_CAPACITY as nat);
}

/// The timestamp of an event reaches nothing but the log: two timestamps
/// give states that agree everywhere else.
pub proof fn lemma_timestamp_only_reaches_log(
    s: StateModel,
    ev: MouseEvent,
    t1: Seq<char>,
    t2: Seq<char>,
)
    ensures
        ({
            let a = s.after_event(ev, t1);
            let b = s.after_event(ev, t2);
            &&& a.mouse_x == b.mouse_x && a.mouse_y == b.mouse_y
            &&& a.btn_left == b.btn_left && a.btn_right == b.btn_right
            &&& a.btn_middle == b.btn_middle
            &&& a.btn_side_back == b.btn_side_back
            &&& a.btn_side_forward == b.btn_side_forward
            &&& a.scroll_dx == b.scroll_dx && a.scroll_dy == b.scroll_dy
            &&& a.scroll_is_pixel == b.scroll_is_pixel
            &&& a.scroll_dy_history == b.scroll_dy_history
            &&& a.scroll_dx_history == b.scroll_dx_history
            &&& a.paused == b.paused
            &&& a.event_log.len() == b.event_log.len()
        }),
{
}

/// Pressing `p` twice gives back the state one started with.
pub proof fn lemma_pause_twice_restores(s: StateModel)
    ensures
        s.after_key('p').after_key('p') == s,
{
}

/// Pressing `c` empties both histories and the log and keeps everything
/// else; pressing it again changes nothing more.
pub proof fn lemma_clear_empties_and_is_idempotent(s: StateModel)
    ensures
        s.after_key('c').scroll_dy_history.len() == 0,
        s.after_key('c').scroll_dx_history.len() == 0,
        s.after_key('c').event_log.len() == 0,
        s.after_key('c').mouse_x == s.mouse_x && s.after_key('c').mouse_y == s.mouse_y,
        s.after_key('c').scroll_dx == s.scroll_dx && s.after_key('c').scroll_dy == s.scroll_dy,
        s.after_key('c').paused == s.paused,
        s.after_key('c').btn_left == s.btn_left && s.after_key('c').btn_right == s.btn_right,
        s.after_key('c').btn_middle == s.btn_middle,
        s.after_key('c').btn_side_back == s.btn_side_back,
        s.after_key('c').btn_side_forward == s.btn_side_forward,
        s.after_key('c').scroll_is_pixel == s.scroll_is_pixel,
        s.after_key('c').after_key('c') == s.after_key('c'),
{
}

/// Pressing `p` flips whether the log is paused and changes nothing else.
pub proof fn lemma_pause_key_flips_only_pause(s: StateModel)
    ensures
        s.after_key('p').paused == !s.paused,
        s.after_key('p').event_log == s.event_log,
        s.after_key('p').scroll_dy_history == s.scroll_dy_history,
        s.after_key('p').scroll_dx_history == s.scroll_dx_history,
        s.after_key('p').mouse_x == s.mouse_x && s.after_key('p').mouse_y == s.mouse_y,
        s.after_key('p').btn_left == s.btn_left && s.after_key('p').btn_right == s.btn_right,
        s.after_key('p').btn_middle == s.btn_middle,
        s.after_key('p').btn_side_back == s.btn_side_back,
        s.after_key('p').btn_side_forward == s.btn_side_forward,
        s.after_key('p').scroll_dx == s.scroll_dx && s.after_key('p').scroll_dy == s.scroll_dy,
        s.after_key('p').scroll_is_pixel == s.scroll_is_pixel,
{
}

/// Only `q` quits; every key but `p` and `c` leaves the state as it was.
pub proof fn lemma_other_keys(s: StateModel, k: char)
    ensures
        (key_action(k) == KeyAction::Quit) <==> k == 'q',
        k != 'p' && k != 'c' ==> s.after_key(k) == s,
{
}

/// The inspector starts at the origin, with no button down, no scroll seen,
/// empty histories and log, and the log running.
pub proof fn lemma_initial_state()
    ensures
        initial_model().mouse_x == 0 && initial_model().mouse_y == 0,
        !initial_model().btn_left && !initial_model().btn_right && !initial_model().btn_middle,
        !initial_model().btn_side_back && !initial_model().btn_side_forward,
        initial_model().scroll_dx == 0 && initial_model().scroll_dy == 0,
        !initial_model().scroll_is_pixel,
        initial_model().scroll_dy_history.len() == 0,
        initial_model().scroll_dx_history.len() == 0,
        initial_model().event_log.len() == 0,
        !initial_model().paused,
{
}

/// The sum of a history adds up its elements: a single delta sums to
/// itself, and the sum of two histories one after the other is the sum of
/// their sums.
pub proof fn lemma_sum_adds_up(a: Seq<i64>, b: Seq<i64>, x: i64)
    ensures
        seq_sum(Seq::<i64>::empty()) == 0,
        seq_sum(seq![x]) == x,
        seq_sum(a + b) == seq_sum(a) + seq_sum(b),
    decreases b.len(),
{
    assert(seq![x].drop_last() =~= Seq::<i64>::empty());
    if b.len() > 0 {
        lemma_sum_adds_up(a, b.drop_last(), x);
        assert((a + b).drop_last() =~= a + b.drop_last());
    } else {
        assert(a + b =~= a);
    }
}

/// Quitting leaves the state as it was.
pub proof fn lemma_quit_changes_nothing(s: StateModel)
    ensures
        s.after_key('q') == s,
{
}

/// The state after the events `evs`, in order, starting from `s`; the event
/// at position `i` is stamped `stamps(i)`.
pub open spec fn run_events(
    s: StateModel,
    evs: Seq<MouseEvent>,
    stamps: spec_fn(nat) -> Seq<char>,
) -> StateModel
    decreases evs.len(),
{
    if evs.len() == 0 {
        s
    } else {
        run_events(s, evs.drop_last(), stamps).after_event(evs.last(), stamps((evs.len() - 1) as nat))
    }
}

/// The vertical deltas of the scroll events among `evs`, in order.
pub open spec fn scroll_dys(evs: Seq<MouseEvent>) -> Seq<i64>
    decreases evs.len(),
{
    if evs.len() == 0 {
        Seq::empty()
    } else {
        let prev = scroll_dys(evs.drop_last());
        match evs.last() {
            MouseEvent::Scroll { dy, .. } => prev.push(dy),
            _ => prev,
        }
    }
}

/// The horizontal deltas of the scroll events among `evs`, in order.
pub open spec fn scroll_dxs(evs: Seq<MouseEvent>) -> Seq<i64>
    decreases evs.len(),
{
    if evs.len() == 0 {
        Seq::empty()
    } else {
        let prev = scroll_dxs(evs.drop_last());
        match evs.last() {
            MouseEvent::Scroll { dx, .. } => prev.push(dx),
            _ => prev,
        }
    }
}

/// The entries that the events `evs` write into a log that is not paused, in
/// order.
pub open spec fn log_entries(evs: Seq<MouseEvent>, stamps: spec_fn(nat) -> Seq<char>) -> Seq<Seq<char>>
    decreases evs.len(),
{
    if evs.len() == 0 {
        Seq::empty()
    } else {
        let prev = log_entries(evs.drop_last(), stamps);
        let ev = evs.last();
        if event_is_logged(ev) {
            prev.push(log_entry(stamps((evs.len() - 1) as nat), event_message(ev)))
        } else {
            prev
        }
    }
}

proof fn lemma_run_fills_windows(s: StateModel, evs: Seq<MouseEvent>, stamps: spec_fn(nat) -> Seq<char>)
    requires
        s.scroll_dy_history.len() == 0,
        s.scroll_dx_history.len() == 0,
        s.event_log.len() == 0,
        !s.paused,
    ensures
        run_events(s, evs, stamps).scroll_dy_history == fill_window(scroll_dys(evs), HISTORY_CAPACITY as nat),
        run_events(s, evs, stamps).scroll_dx_history == fill_window(scroll_dxs(evs), HISTORY_CAPACITY as nat),
        run_events(s, evs, stamps).event_log == fill_window(log_entries(evs, stamps), LOG_CAPACITY as nat),
        !run_events(s, evs, stamps).paused,
    decreases evs.len(),
{
    if evs.len() > 0 {
        lemma_run_fills_windows(s, evs.drop_last(), stamps);
        let ev = evs.last();
        let p = run_events(s, evs.drop_last(), stamps);
        let dys = scroll_dys(evs);
        let dxs = scroll_dxs(evs);
        let es = log_entries(evs, stamps);
        match ev {
            MouseEvent::Scroll { dx, dy, .. } => {
                assert(dys.drop_last() =~= scroll_dys(evs.drop_last()));
                assert(dxs.drop_last() =~= scroll_dxs(evs.drop_last()));
            },
            _ => {},
        }
        if event_is_logged(ev) {
            assert(es.drop_last() =~= log_entries(evs.drop_last(), stamps));
        }
    }
}

/// Starting from empty histories and an empty, unpaused log (as the
/// inspector starts, or after `c`), any run of events leaves in each scroll
/// history exactly the newest deltas of the scroll events (at most the
/// capacity, oldest first), and in the log exactly the newest entries the
/// events wrote (at most the log's capacity).
pub proof fn lemma_run_keeps_newest(s: StateModel, evs: Seq<MouseEvent>, stamps: spec_fn(nat) -> Seq<char>)
    requires
        s.scroll_dy_history.len() == 0,
        s.scroll_dx_history.len() == 0,
        s.event_log.len() == 0,
        !s.paused,
    ensures
        run_events(s, evs, stamps).scroll_dy_history == last_n(scroll_dys(evs), HISTORY_CAPACITY as nat),
        run_events(s, evs, stamps).scroll_dx_history == last_n(scroll_dxs(evs), HISTORY_CAPACITY as nat),
        run_events(s, evs, stamps).event_log == last_n(log_entries(evs, stamps), LOG_CAPACITY as nat),
{
    lemma_run_fills_windows(s, evs, stamps);
    lemma_window_keeps_newest(scroll_dys(evs), HISTORY_CAPACITY as nat);
    lemma_window_keeps_newest(scroll_dxs(evs), HISTORY_CAPACITY as nat);
    lemma_window_keeps_newest(log_entries(evs, stamps), LOG_CAPACITY as nat);
}

proof fn lemma_sum_remove(s: Seq<i64>, j: int)
    requires
        0 <= j < s.len(),
    ensures
        seq_sum(s) == seq_sum(s.remove(j)) + s[j],
    decreases s.len(),
{
    if j == s.len() - 1 {
        assert(s.remove(j) =~= s.drop_last());
    } else {
        lemma_sum_remove(s.drop_last(), j);
        assert(s.remove(j).drop_last() =~= s.drop_last().remove(j));
        assert(s.remove(j).last() == s.last());
    }
}

proof fn lemma_sum_ignores_order(a: Seq<i64>, b: Seq<i64>)
    requires
        a.to_multiset() == b.to_multiset(),
    ensures
        seq_sum(a) == seq_sum(b),
    decreases a.len(),
{
    broadcast use vstd::seq_lib::group_to_multiset_ensures;
    broadcast use vstd::multiset::group_multiset_axioms;

    if a.len() == 0 {
        assert(a.to_multiset().len() == 0);
        assert(b.len() == b.to_multiset().len());
        assert(b =~= Seq::<i64>::empty());
    } else {
        let x = a.last();
        let p = a.drop_last();
        assert(p.push(x) =~= a);
        assert(a.to_multiset().count(x) > 0);
        assert(b.contains(x));
        let j = b.lemma_contains_to_index(x);
        let q = b.remove(j);
        assert(q.to_multiset() =~= p.to_multiset());
        lemma_sum_ignores_order(p, q);
        lemma_sum_remove(b, j);
    }
}

/// The scroll statistics do not depend on the order of the history: two
/// histories with the same deltas, each as often, have the same count, sum,
/// least and greatest delta.
pub proof fn lemma_stats_ignore_order(a: Seq<i64>, b: Seq<i64>)
    requires
        a.to_multiset() == b.to_multiset(),
    ensures
        a.len() == b.len(),
        seq_sum(a) == seq_sum(b),
        seq_min(a) == seq_min(b),
        seq_max(a) == seq_max(b),
{
    broadcast use vstd::seq_lib::group_to_multiset_ensures;

    assert(a.len() == a.to_multiset().len());
    assert(b.len() == b.to_multiset().len());
    lemma_sum_ignores_order(a, b);
    if a.len() > 0 {
        lemma_seq_min_max_bounds(a);
        lemma_seq_min_max_bounds(b);
        assert(a.to_multiset().count(seq_min(a)) > 0);
        assert(b.to_multiset().count(seq_min(b)) > 0);
        assert(a.to_multiset().count(seq_max(a)) > 0);
        assert(b.to_multiset().count(seq_max(b)) > 0);
        let i1 = a.lemma_contains_to_index(seq_min(b));
        let i2 = b.lemma_contains_to_index(seq_min(a));
        let i3 = a.lemma_contains_to_index(seq_max(b));
        let i4 = b.lemma_contains_to_index(seq_max(a));
        assert(seq_min(a) <= a[i1] && seq_min(b) <= b[i2]);
        assert(seq_max(a) >= a[i3] && seq_max(b) >= b[i4]);
    }
}

} // verus!
