use std::collections::VecDeque;
use vstd::prelude::*;
use vstd::string::*;

use crate::clock::{clock_text, lemma_midnight_is_clock_text, local_clock_time, midnight_text};
use crate::text::{int_decimal, push_decimal};
use crate::window::{push_back_bounded, push_bounded, lemma_push_bounded_map};

verus! {

broadcast use vstd::std_specs::vecdeque::group_vec_dequeue_axioms;

/// How many scroll deltas each scroll history keeps.
pub const HISTORY_CAPACITY: usize = 60;

/// How many entries the event log keeps.
pub const LOG_CAPACITY: usize = 100;

/// A mouse event as the event tap reports it, reduced to what the
/// inspector reads of it.
#[derive(Clone, Copy, Debug, PartialEq, Eq, Structural)]
pub enum MouseEvent {
    /// The cursor moved, with or without a button held down; the new
    /// location, in whole points.
    Moved { x: i32, y: i32 },
    LeftDown,
    LeftUp,
    RightDown,
    RightUp,
    /// A button other than left and right went down; its button number.
    OtherDown { button: i64 },
    /// A button other than left and right went up; its button number.
    OtherUp { button: i64 },
    /// The wheel turned: the point deltas on the horizontal and vertical axes
    /// and the raw "is continuous" field (1 for a pixel-precise device).
    Scroll { dx: i64, dy: i64, continuous: i64 },
    /// Any other event the tap delivers.
    Other,
}

/// What the event-tap callback should do after an event.
#[derive(Clone, Copy, Debug, PartialEq, Eq, Structural)]
pub enum TapAction {
    /// Keep listening.
    Continue,
    /// The inspector is shutting down: stop the run loop.
    StopListening,
}

/// What the interface loop should do after a key press.
#[derive(Clone, Copy, Debug, PartialEq, Eq, Structural)]
pub enum KeyAction {
    /// Keep running.
    Continue,
    /// Leave the interface.
    Quit,
}

/// Everything the inspector shows: cursor position, button states, the
/// latest scroll deltas with their bounded histories, and the bounded event
/// log.
pub struct AppState {
    pub mouse_x: i32,
    pub mouse_y: i32,
    pub btn_left: bool,
    pub btn_right: bool,
    pub btn_middle: bool,
    pub btn_side_back: bool,
    pub btn_side_forward: bool,
    pub scroll_dx: i64,
    pub scroll_dy: i64,
    pub scroll_is_pixel: bool,
    pub scroll_dy_history: VecDeque<i64>,
    pub scroll_dx_history: VecDeque<i64>,
    pub event_log: VecDeque<String>,
    pub paused: bool,
}

/// The mathematical value of an `AppState`: the same fields, with the
/// collections as sequences and the log entries as character sequences.
pub struct StateModel {
    pub mouse_x: i32,
    pub mouse_y: i32,
    pub btn_left: bool,
    pub btn_right: bool,
    pub btn_middle: bool,
    pub btn_side_back: bool,
    pub btn_side_forward: bool,
    pub scroll_dx: i64,
    pub scroll_dy: i64,
    pub scroll_is_pixel: bool,
    pub scroll_dy_history: Seq<i64>,
    pub scroll_dx_history: Seq<i64>,
    pub event_log: Seq<Seq<char>>,
    pub paused: bool,
}

impl View for AppState {
    type V = StateModel;

    open spec fn view(&self) -> StateModel {
        StateModel {
            mouse_x: self.mouse_x,
            mouse_y: self.mouse_y,
            btn_left: self.btn_left,
            btn_right: self.btn_right,
            btn_middle: self.btn_middle,
            btn_side_back: self.btn_side_back,
            btn_side_forward: self.btn_side_forward,
            scroll_dx: self.scroll_dx,
            scroll_dy: self.scroll_dy,
            scroll_is_pixel: self.scroll_is_pixel,
            scroll_dy_history: self.scroll_dy_history@,
            scroll_dx_history: self.scroll_dx_history@,
            event_log: self.event_log@.map_values(|e: String| e@),
            paused: self.paused,
        }
    }
}

/// A log entry: the timestamp in square brackets, a space, the message.
pub open spec fn log_entry(timestamp: Seq<char>, msg: Seq<char>) -> Seq<char> {
    seq!['['] + timestamp + seq![']', ' '] + msg
}

/// The message logged for a scroll event.
pub open spec fn scroll_message(dy: i64, dx: i64) -> Seq<char> {
    "SCROLL dy:"@ + int_decimal(dy as int) + " dx:"@ + int_decimal(dx as int)
}

/// The state the inspector starts in.
pub open spec fn initial_model() -> StateModel {
    StateModel {
        mouse_x: 0,
        mouse_y: 0,
        btn_left: false,
        btn_right: false,
        btn_middle: false,
        btn_side_back: false,
        btn_side_forward: false,
        scroll_dx: 0,
        scroll_dy: 0,
        scroll_is_pixel: false,
        scroll_dy_history: Seq::empty(),
        scroll_dx_history: Seq::empty(),
        event_log: Seq::empty(),
        paused: false,
    }
}

impl StateModel {
    /// The bounds every reachable state keeps: no history longer than its
    /// capacity, no log longer than its capacity.
    pub open spec fn within_capacity(self) -> bool {
        &&& self.scroll_dy_history.len() <= HISTORY_CAPACITY
        &&& self.scroll_dx_history.len() <= HISTORY_CAPACITY
        &&& self.event_log.len() <= LOG_CAPACITY
    }

    /// The state after logging `msg` at `timestamp`: nothing changes while
    /// paused; otherwise the entry joins the bounded log.
    pub open spec fn logged(self, timestamp: Seq<char>, msg: Seq<char>) -> StateModel {
        if self.paused {
            self
        } else {
            StateModel {
                event_log: push_bounded(self.event_log, log_entry(timestamp, msg), LOG_CAPACITY as nat),
                ..self
            }
        }
    }

    /// The state after the histories and the log are emptied.
    pub open spec fn cleared(self) -> StateModel {
        StateModel {
            scroll_dy_history: Seq::empty(),
            scroll_dx_history: Seq::empty(),
            event_log: Seq::empty(),
            ..self
        }
    }

    /// What the event `ev` does to everything but the log: a move sets the
    /// position; a button going down or up sets that button (buttons other
    /// than 2, 3 and 4 are ignored); a scroll records both deltas and the
    /// precision flag and pushes the deltas into the bounded histories.
    pub open spec fn with_event_fields(self, ev: MouseEvent) -> StateModel {
        match ev {
            MouseEvent::Moved { x, y } => StateModel { mouse_x: x, mouse_y: y, ..self },
            MouseEvent::LeftDown => StateModel { btn_left: true, ..self },
            MouseEvent::LeftUp => StateModel { btn_left: false, ..self },
            MouseEvent::RightDown => StateModel { btn_right: true, ..self },
            MouseEvent::RightUp => StateModel { btn_right: false, ..self },
            MouseEvent::OtherDown { button } => if button == 2 {
                StateModel { btn_middle: true, ..self }
            } else if button == 3 {
                StateModel { btn_side_back: true, ..self }
            } else if button == 4 {
                StateModel { btn_side_forward: true, ..self }
            } else {
                self
            },
            MouseEvent::OtherUp { button } => if button == 2 {
                StateModel { btn_middle: false, ..self }
            } else if button == 3 {
                StateModel { btn_side_back: false, ..self }
            } else if button == 4 {
                StateModel { btn_side_forward: false, ..self }
            } else {
                self
            },
            MouseEvent::Scroll { dx, dy, continuous } => StateModel {
                scroll_dx: dx,
                scroll_dy: dy,
                scroll_is_pixel: continuous == 1,
                scroll_dy_history: push_bounded(self.scroll_dy_history, dy, HISTORY_CAPACITY as nat),
                scroll_dx_history: push_bounded(self.scroll_dx_history, dx, HISTORY_CAPACITY as nat),
                ..self
            },
            MouseEvent::Other => self,
        }
    }

    /// The state after the event `ev`, whose log entry (if it makes one and
    /// the log is not paused) carries `timestamp`.
    pub open spec fn after_event(self, ev: MouseEvent, timestamp: Seq<char>) -> StateModel {
        if event_is_logged(ev) {
            self.with_event_fields(ev).logged(timestamp, event_message(ev))
        } else {
            self.with_event_fields(ev)
        }
    }

    /// The state after the key `key` was pressed in the interface.
    pub open spec fn after_key(self, key: char) -> StateModel {
        if key == 'p' {
            StateModel { paused: !self.paused, ..self }
        } else if key == 'c' {
            self.cleared()
        } else {
            self
        }
    }
}

/// Whether the event `ev` makes a log entry (when the log is not paused).
pub open spec fn event_is_logged(ev: MouseEvent) -> bool {
    match ev {
        MouseEvent::Moved { .. } => false,
        MouseEvent::OtherDown { button } => 2 <= button <= 4,
        MouseEvent::OtherUp { button } => 2 <= button <= 4,
        MouseEvent::Other => false,
        _ => true,
    }
}

/// The message logged for the event `ev` (meaningful when it is logged).
pub open spec fn event_message(ev: MouseEvent) -> Seq<char> {
    match ev {
        MouseEvent::LeftDown => "LEFT DOWN"@,
        MouseEvent::LeftUp => "LEFT UP"@,
        MouseEvent::RightDown => "RIGHT DOWN"@,
        MouseEvent::RightUp => "RIGHT UP"@,
        MouseEvent::OtherDown { button } => if button == 2 {
            "MIDDLE DOWN"@
        } else if button == 3 {
            "BACK DOWN"@
        } else {
            "FORWARD DOWN"@
        },
        MouseEvent::OtherUp { button } => if button == 2 {
            "MIDDLE UP"@
        } else if button == 3 {
            "BACK UP"@
        } else {
            "FORWARD UP"@
        },
        MouseEvent::Scroll { dx, dy, .. } => scroll_message(dy, dx),
        _ => Seq::empty(),
    }
}

/// What the interface does after the key `key`.
pub open spec fn key_action(key: char) -> KeyAction {
    if key == 'q' {
        KeyAction::Quit
    } else {
        KeyAction::Continue
    }
}

fn scroll_log_message(dy: i64, dx: i64) -> (s: String)
    ensures
        s@ == scroll_message(dy, dx),
{
    let mut s = String::from_str("SCROLL dy:");
    push_decimal(&mut s, dy);
    s.append(" dx:");
    push_decimal(&mut s, dx);
    s
}

fn event_message_text(ev: MouseEvent) -> (s: String)
    requires
        event_is_logged(ev),
    ensures
        s@ == event_message(ev),
{
    match ev {
        MouseEvent::LeftDown => String::from_str("LEFT DOWN"),
        MouseEvent::LeftUp => String::from_str("LEFT UP"),
        MouseEvent::RightDown => String::from_str("RIGHT DOWN"),
        MouseEvent::RightUp => String::from_str("RIGHT UP"),
        MouseEvent::OtherDown { button } => if button == 2 {
            String::from_str("MIDDLE DOWN")
        } else if button == 3 {
            String::from_str("BACK DOWN")
        } else {
            String::from_str("FORWARD DOWN")
        },
        MouseEvent::OtherUp { button } => if button == 2 {
            String::from_str("MIDDLE UP")
        } else if button == 3 {
            String::from_str("BACK UP")
        } else {
            String::from_str("FORWARD UP")
        },
        MouseEvent::Scroll { dx, dy, .. } => scroll_log_message(dy, dx),
        _ => String::new(),
    }
}

impl AppState {
    /// A state at the origin with no button down, no scroll seen, empty
    /// histories and log, not paused.
    pub fn new() -> (s: Self)
        ensures
            s@ == initial_model(),
    {
        let s = AppState {
            mouse_x: 0,
            mouse_y: 0,
            btn_left: false,
            btn_right: false,
            btn_middle: false,
            btn_side_back: false,
            btn_side_forward: false,
            scroll_dx: 0,
            scroll_dy: 0,
            scroll_is_pixel: false,
            scroll_dy_history: VecDeque::with_capacity(HISTORY_CAPACITY),
            scroll_dx_history: VecDeque::with_capacity(HISTORY_CAPACITY),
            event_log: VecDeque::with_capacity(LOG_CAPACITY),
            paused: false,
        };
        assert(s@.event_log =~= Seq::<Seq<char>>::empty());
        s
    }

    /// Logs `msg` with the given timestamp: unless paused, the entry
    /// `[timestamp] msg` is appended to the log and, when the log then holds
    /// more than its capacity, the oldest entry is dropped.
    pub fn log_at(&mut self, timestamp: &str, msg: &str)
        ensures
            final(self)@ == old(self)@.logged(timestamp@, msg@),
    {
        if self.paused {
            return;
        }
        let mut entry = String::new();
        entry.append("[");
        entry.append(timestamp);
        entry.append("] ");
        entry.append(msg);
        proof {
            reveal_strlit("[");
            reveal_strlit("] ");
            assert(entry@ =~= log_entry(timestamp@, msg@));
            lemma_push_bounded_map(self.event_log@, entry, LOG_CAPACITY as nat, |e: String| e@);
        }
        push_back_bounded(&mut self.event_log, entry, LOG_CAPACITY);
        assert(self@.event_log =~= old(self)@.logged(timestamp@, msg@).event_log);
    }

    /// Logs `msg` stamped with the local time of day: unless paused, the
    /// entry `[HH:MM:SS.mmm] msg` joins the bounded log.
    pub fn log(&mut self, msg: String)
        ensures
            exists|timestamp: Seq<char>|
                clock_text(timestamp) && final(self)@ == old(self)@.logged(timestamp, msg@),
    {
        if self.paused {
            proof {
                lemma_midnight_is_clock_text();
                assert(self@ == old(self)@.logged(midnight_text(), msg@));
            }
            return;
        }
        let timestamp = local_clock_time("%H:%M:%S%.3f");
        self.log_at(timestamp.as_str(), msg.as_str());
    }

    /// Empties both scroll histories and the event log; everything else
    /// stays as it was.
    pub fn clear(&mut self)
        ensures
            final(self)@ == old(self)@.cleared(),
    {
        self.scroll_dy_history.clear();
        self.scroll_dx_history.clear();
        self.event_log.clear();
        assert(self@.event_log =~= Seq::<Seq<char>>::empty());
    }
    fn apply_event_fields(&mut self, ev: MouseEvent)
        ensures
            final(self)@ == old(self)@.with_event_fields(ev),
    {
        match ev {
            MouseEvent::Moved { x, y } => {
                self.mouse_x = x;
                self.mouse_y = y;
            },
            MouseEvent::LeftDown => self.btn_left = true,
            MouseEvent::LeftUp => self.btn_left = false,
            MouseEvent::RightDown => self.btn_right = true,
            MouseEvent::RightUp => self.btn_right = false,
            MouseEvent::OtherDown { button } => {
                if button == 2 {
                    self.btn_middle = true;
                } else if button == 3 {
                    self.btn_side_back = true;
                } else if button == 4 {
                    self.btn_side_forward = true;
                }
            },
            MouseEvent::OtherUp { button } => {
                if button == 2 {
                    self.btn_middle = false;
                } else if button == 3 {
                    self.btn_side_back = false;
                } else if button == 4 {
                    self.btn_side_forward = false;
                }
            },
            MouseEvent::Scroll { dx, dy, continuous } => {
                self.scroll_dx = dx;
                self.scroll_dy = dy;
                self.scroll_is_pixel = continuous == 1;
                push_back_bounded(&mut self.scroll_dy_history, dy, HISTORY_CAPACITY);
                push_back_bounded(&mut self.scroll_dx_history, dx, HISTORY_CAPACITY);
            },
            MouseEvent::Other => {},
        }
    }

    /// Applies the event `ev`, stamping its log entry (if any) with
    /// `timestamp`: a move sets the position; a button going down or up sets
    /// that button and logs it (other buttons than 2, 3 and 4 are ignored); a
    /// scroll records both deltas and the precision flag, pushes the deltas
    /// into the bounded histories and logs them.
    pub fn apply_event_at(&mut self, ev: MouseEvent, timestamp: &str)
        ensures
            final(self)@ == old(self)@.after_event(ev, timestamp@),
    {
        self.apply_event_fields(ev);
        if ev.is_logged() {
            let msg = event_message_text(ev);
            self.log_at(timestamp, msg.as_str());
        }
    }

    /// Applies the event `ev`, stamping its log entry (if one is made) with
    /// the local time of day, `HH:MM:SS.mmm`.
    pub fn apply_event(&mut self, ev: MouseEvent)
        ensures
            exists|timestamp: Seq<char>|
                clock_text(timestamp) && final(self)@ == old(self)@.after_event(ev, timestamp),
    {
        if !self.paused && ev.is_logged() {
            let timestamp = local_clock_time("%H:%M:%S%.3f");
            self.apply_event_at(ev, timestamp.as_str());
        } else {
            let unused = String::new();
            self.apply_event_at(ev, unused.as_str());
            proof {
                lemma_midnight_is_clock_text();
                assert(self@ == old(self)@.after_event(ev, midnight_text()));
            }
        }
    }

    /// The event-tap callback's decision: once the inspector is no longer
    /// running, leave the state alone and stop listening; otherwise apply the
    /// event, stamped with the local time of day, and keep listening.
    pub fn on_tap_event(&mut self, running: bool, ev: MouseEvent) -> (action: TapAction)
        ensures
            !running ==> action == TapAction::StopListening && final(self)@ == old(self)@,
            running ==> action == TapAction::Continue && exists|timestamp: Seq<char>|
                clock_text(timestamp) && final(self)@ == old(self)@.after_event(ev, timestamp),
    {
        if !running {
            return TapAction::StopListening;
        }
        self.apply_event(ev);
        TapAction::Continue
    }

    /// Handles a key pressed in the interface: `q` quits, `p` toggles the
    /// pause of the log, `c` clears histories and log; other keys do nothing.
    pub fn handle_key(&mut self, key: char) -> (action: KeyAction)
        ensures
            action == key_action(key),
            final(self)@ == old(self)@.after_key(key),
    {
        if key == 'q' {
            KeyAction::Quit
        } else if key == 'p' {
            self.paused = !self.paused;
            KeyAction::Continue
        } else if key == 'c' {
            self.clear();
            KeyAction::Continue
        } else {
            KeyAction::Continue
        }
    }
}

impl MouseEvent {
    /// Whether this event makes a log entry (when the log is not paused).
    pub fn is_logged(&self) -> (b: bool)
        ensures
            b == event_is_logged(*self),
    {
        match self {
            MouseEvent::Moved { .. } => false,
            MouseEvent::OtherDown { button } => 2 <= *button && *button <= 4,
            MouseEvent::OtherUp { button } => 2 <= *button && *button <= 4,
            MouseEvent::Other => false,
            _ => true,
        }
    }
}

} // verus!
