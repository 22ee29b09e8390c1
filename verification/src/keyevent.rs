//! The five buttons: from raw edge signals to a clean stream of events.
//!
//! A button line signals every edge, those of contact bounce among them. A
//! `KeySwitch` is polled with the signals that have come in and the time in
//! milliseconds. It accepts an edge only when the guard time has passed
//! since the last edge it accepted on that button, takes it as the button
//! going down or coming up in turn, and queues an event for it. Whoever owns
//! the `KeySwitch` runs the poll at a fixed interval and shares it between
//! the poller and the reader of the queue.

use vstd::prelude::*;

verus! {

/// The time in milliseconds that must have passed since the last accepted
/// edge of a button before another edge of it is accepted.
pub const GARD_TIME: u64 = 30;

/// The time in milliseconds between two polls.
pub const KEY_SLEEP_TIME: u64 = 10;

/// One of the five buttons.
#[derive(Debug, Clone, Copy, PartialEq, Eq, Structural)]
pub enum Key {
    Up,
    Down,
    Left,
    Right,
    Center,
}

/// A button going down or coming up again.
#[derive(Debug, Clone, Copy, PartialEq, Eq, Structural)]
pub enum KeyEvent {
    UpKeyDown,
    UpKeyUp,
    DownKeyDown,
    DownKeyUp,
    LeftKeyDown,
    LeftKeyUp,
    RightKeyDown,
    RightKeyUp,
    CenterKeyDown,
    CenterKeyUp,
}

/// The event of `key` going down.
pub open spec fn down_event(key: Key) -> KeyEvent {
    match key {
        Key::Up => KeyEvent::UpKeyDown,
        Key::Down => KeyEvent::DownKeyDown,
        Key::Left => KeyEvent::LeftKeyDown,
        Key::Right => KeyEvent::RightKeyDown,
        Key::Center => KeyEvent::CenterKeyDown,
    }
}

/// The event of `key` coming up.
pub open spec fn up_event(key: Key) -> KeyEvent {
    match key {
        Key::Up => KeyEvent::UpKeyUp,
        Key::Down => KeyEvent::DownKeyUp,
        Key::Left => KeyEvent::LeftKeyUp,
        Key::Right => KeyEvent::RightKeyUp,
        Key::Center => KeyEvent::CenterKeyUp,
    }
}

/// The button of `event`.
pub open spec fn key_of_event(event: KeyEvent) -> Key {
    match event {
        KeyEvent::UpKeyDown | KeyEvent::UpKeyUp => Key::Up,
        KeyEvent::DownKeyDown | KeyEvent::DownKeyUp => Key::Down,
        KeyEvent::LeftKeyDown | KeyEvent::LeftKeyUp => Key::Left,
        KeyEvent::RightKeyDown | KeyEvent::RightKeyUp => Key::Right,
        KeyEvent::CenterKeyDown | KeyEvent::CenterKeyUp => Key::Center,
    }
}

impl KeyEvent {
    /// The button of the event.
    pub fn key(&self) -> (r: Key)
        ensures
            r == key_of_event(*self),
    {
        match self {
            KeyEvent::UpKeyDown | KeyEvent::UpKeyUp => Key::Up,
            KeyEvent::DownKeyDown | KeyEvent::DownKeyUp => Key::Down,
            KeyEvent::LeftKeyDown | KeyEvent::LeftKeyUp => Key::Left,
            KeyEvent::RightKeyDown | KeyEvent::RightKeyUp => Key::Right,
            KeyEvent::CenterKeyDown | KeyEvent::CenterKeyUp => Key::Center,
        }
    }

    /// Whether the event is a button coming up.
    pub fn is_release(&self) -> (r: bool)
        ensures
            r == (*self == up_event(key_of_event(*self))),
    {
        match self {
            KeyEvent::UpKeyUp => true,
            KeyEvent::DownKeyUp => true,
            KeyEvent::LeftKeyUp => true,
            KeyEvent::RightKeyUp => true,
            KeyEvent::CenterKeyUp => true,
            _ => false,
        }
    }
}

/// Which buttons have signalled an edge since the last poll.
#[derive(Debug, Clone, Copy, PartialEq, Eq, Structural)]
pub struct PendingEdges {
    pub up: bool,
    pub down: bool,
    pub left: bool,
    pub right: bool,
    pub center: bool,
}

impl PendingEdges {
    /// Whether `key` has signalled.
    pub open spec fn has(self, key: Key) -> bool {
        match key {
            Key::Up => self.up,
            Key::Down => self.down,
            Key::Left => self.left,
            Key::Right => self.right,
            Key::Center => self.center,
        }
    }

    /// No button has signalled.
    pub fn none() -> (r: Self)
        ensures
            forall|key: Key| !r.has(key),
    {
        PendingEdges { up: false, down: false, left: false, right: false, center: false }
    }

    /// `key` alone has signalled.
    pub fn only(key: Key) -> (r: Self)
        ensures
            forall|other: Key| r.has(other) == (other == key),
    {
        PendingEdges {
            up: key == Key::Up,
            down: key == Key::Down,
            left: key == Key::Left,
            right: key == Key::Right,
            center: key == Key::Center,
        }
    }
}

/// What is known of one button.
#[derive(Debug, Clone, Copy, PartialEq, Eq, Structural)]
pub struct ButtonState {
    /// Whether the button is held down.
    pub pressed: bool,
    /// How long the last finished press lasted, in milliseconds; 0 while
    /// the button is held down.
    pub press_time: u32,
    /// When the last edge was accepted, in milliseconds.
    pub last_accepted: u64,
}

/// Whether an edge at time `now` is accepted: the guard time has passed
/// since the last accepted edge. Time that runs backward accepts nothing.
pub open spec fn accepts_edge(b: ButtonState, now: u64) -> bool {
    now >= b.last_accepted && now - b.last_accepted >= GARD_TIME
}

/// The button after an accepted edge at time `now`: held down if it was
/// not, released if it was, with the length of the press counted from the
/// edge on which it went down, modulo 2^32.
pub open spec fn after_edge(b: ButtonState, now: u64) -> ButtonState {
    if b.pressed {
        ButtonState {
            pressed: false,
            press_time: ((now - b.last_accepted) % 0x1_0000_0000) as u32,
            last_accepted: now,
        }
    } else {
        ButtonState { pressed: true, press_time: 0, last_accepted: now }
    }
}

/// An event as it is queued: a button going down, or coming up after a
/// press of a certain length.
#[derive(Debug, Clone, Copy, PartialEq, Eq)]
pub struct ButtonEdgeEvent {
    pub event: KeyEvent,
    /// The length of the press in milliseconds, where the button comes up.
    pub press_duration_ms: Option<u32>,
}

/// The event of an accepted edge of `key` at time `now` in state `b`.
pub open spec fn edge_event(key: Key, b: ButtonState, now: u64) -> ButtonEdgeEvent {
    if b.pressed {
        ButtonEdgeEvent {
            event: up_event(key),
            press_duration_ms: Some(after_edge(b, now).press_time),
        }
    } else {
        ButtonEdgeEvent { event: down_event(key), press_duration_ms: None }
    }
}

/// What kind of event each of `events` is.
pub open spec fn event_kinds(events: Seq<ButtonEdgeEvent>) -> Seq<KeyEvent> {
    Seq::new(events.len(), |i: int| events[i].event)
}

/// A `KeySwitch`, as contracts see it.
pub struct KeySwitchView {
    pub up: ButtonState,
    pub down: ButtonState,
    pub left: ButtonState,
    pub right: ButtonState,
    pub center: ButtonState,
    /// The events that have not been read yet, oldest first.
    pub events: Seq<ButtonEdgeEvent>,
    /// Whether nobody is reading events.
    pub asleep: bool,
}

impl KeySwitchView {
    pub open spec fn button(self, key: Key) -> ButtonState {
        match key {
            Key::Up => self.up,
            Key::Down => self.down,
            Key::Left => self.left,
            Key::Right => self.right,
            Key::Center => self.center,
        }
    }

    pub open spec fn with_button(self, key: Key, b: ButtonState) -> KeySwitchView {
        match key {
            Key::Up => KeySwitchView { up: b, ..self },
            Key::Down => KeySwitchView { down: b, ..self },
            Key::Left => KeySwitchView { left: b, ..self },
            Key::Right => KeySwitchView { right: b, ..self },
            Key::Center => KeySwitchView { center: b, ..self },
        }
    }

    /// The state after an edge signal of `key` is considered at time `now`:
    /// an accepted edge changes the button and queues its event, any other
    /// is dropped without a trace.
    pub open spec fn after_signal(self, key: Key, now: u64) -> KeySwitchView {
        if accepts_edge(self.button(key), now) {
            KeySwitchView {
                events: self.events.push(edge_event(key, self.button(key), now)),
                ..self.with_button(key, after_edge(self.button(key), now))
            }
        } else {
            self
        }
    }

    /// The state after the signal of `key` is considered if it is pending.
    pub open spec fn after_pending(self, pending: PendingEdges, key: Key, now: u64) -> KeySwitchView {
        if pending.has(key) {
            self.after_signal(key, now)
        } else {
            self
        }
    }

    /// The state after a poll at time `now` with the signals `pending`.
    ///
    /// While nobody reads, the signals are dropped together with what is
    /// queued. Otherwise the buttons are considered in the order up, down,
    /// right, center, left.
    pub open spec fn after_tick(self, pending: PendingEdges, now: u64) -> KeySwitchView {
        if self.asleep {
            KeySwitchView { events: Seq::empty(), ..self }
        } else {
            self.after_pending(pending, Key::Up, now).after_pending(
                pending,
                Key::Down,
                now,
            ).after_pending(pending, Key::Right, now).after_pending(
                pending,
                Key::Center,
                now,
            ).after_pending(pending, Key::Left, now)
        }
    }

    /// The state after signals of `key` are considered at each of `times`
    /// in turn.
    pub open spec fn after_signals(self, key: Key, times: Seq<u64>) -> KeySwitchView
        decreases times.len(),
    {
        if times.len() == 0 {
            self
        } else {
            self.after_signals(key, times.drop_last()).after_signal(key, times.last())
        }
    }

    /// The state after a poll with each of `ticks` in turn.
    pub open spec fn after_ticks(self, ticks: Seq<(PendingEdges, u64)>) -> KeySwitchView
        decreases ticks.len(),
    {
        if ticks.len() == 0 {
            self
        } else {
            self.after_ticks(ticks.drop_last()).after_tick(ticks.last().0, ticks.last().1)
        }
    }
}

/// Whether each of `times` lies within the guard time after `start`.
pub open spec fn within_guard(start: u64, times: Seq<u64>) -> bool {
    forall|i: int| 0 <= i < times.len() ==> start <= #[trigger] times[i] < start + GARD_TIME
}

/// A poll with the signal of one button is that signal considered.
pub proof fn tick_of_one_signal(s: KeySwitchView, key: Key, pending: PendingEdges, now: u64)
    requires
        !s.asleep,
        forall|other: Key| pending.has(other) == (other == key),
    ensures
        s.after_tick(pending, now) == s.after_signal(key, now),
{
}

/// Signals within the guard time of the last accepted edge of a button
/// change nothing and queue nothing, however many they are.
pub proof fn bounce_is_dropped(s: KeySwitchView, key: Key, times: Seq<u64>)
    requires
        within_guard(s.button(key).last_accepted, times),
    ensures
        s.after_signals(key, times) == s,
    decreases times.len(),
{
    if times.len() > 0 {
        bounce_is_dropped(s, key, times.drop_last());
    }
}

/// One press gives one pair of events.
///
/// A released button whose edge is accepted at `pressed_at` goes down; the
/// bounce that follows within the guard time is dropped; the edge at
/// `released_at`, after the guard time, brings it up; the bounce that
/// follows that is dropped too. The queue has gained the event of the button
/// going down and the event of it coming up, in this order, and nothing
/// else; the length of the press is the time between the two edges.
pub proof fn one_press_one_pair(
    s: KeySwitchView,
    key: Key,
    pressed_at: u64,
    bounce_down: Seq<u64>,
    released_at: u64,
    bounce_up: Seq<u64>,
)
    requires
        !s.button(key).pressed,
        accepts_edge(s.button(key), pressed_at),
        within_guard(pressed_at, bounce_down),
        released_at >= pressed_at + GARD_TIME,
        within_guard(released_at, bounce_up),
    ensures
        s.after_signal(key, pressed_at).after_signals(key, bounce_down).after_signal(
            key,
            released_at,
        ).after_signals(key, bounce_up) == (KeySwitchView {
            events: s.events.push(
                ButtonEdgeEvent { event: down_event(key), press_duration_ms: None },
            ).push(
                ButtonEdgeEvent {
                    event: up_event(key),
                    press_duration_ms: Some(((released_at - pressed_at) % 0x1_0000_0000) as u32),
                },
            ),
            ..s.with_button(
                key,
                ButtonState {
                    pressed: false,
                    press_time: ((released_at - pressed_at) % 0x1_0000_0000) as u32,
                    last_accepted: released_at,
                },
            )
        }),
{
    let down = s.after_signal(key, pressed_at);
    bounce_is_dropped(down, key, bounce_down);
    let up = down.after_signal(key, released_at);
    bounce_is_dropped(up, key, bounce_up);
}

/// While nobody reads, polls queue nothing and leave the buttons as they
/// are.
pub proof fn asleep_queues_nothing(s: KeySwitchView, ticks: Seq<(PendingEdges, u64)>)
    requires
        s.asleep,
        s.events.len() == 0,
    ensures
        s.after_ticks(ticks) == s,
    decreases ticks.len(),
{
    if ticks.len() > 0 {
        asleep_queues_nothing(s, ticks.drop_last());
        assert(s.events =~= Seq::empty());
    }
}

/// An event is appended to the queue by a poll and never taken out or
/// moved: what was queued before a poll is the front of what is queued
/// after it, while somebody reads.
pub proof fn tick_appends(s: KeySwitchView, pending: PendingEdges, now: u64)
    requires
        !s.asleep,
    ensures
        s.events.is_prefix_of(s.after_tick(pending, now).events),
{
}

/// The events of `key` among `events`, in their order.
pub open spec fn events_of(events: Seq<ButtonEdgeEvent>, key: Key) -> Seq<ButtonEdgeEvent>
    decreases events.len(),
{
    if events.len() == 0 {
        Seq::empty()
    } else if key_of_event(events.last().event) == key {
        events_of(events.drop_last(), key).push(events.last())
    } else {
        events_of(events.drop_last(), key)
    }
}

/// Whether each of `ticks` comes within the guard time after `start`.
pub open spec fn polls_within_guard(start: u64, ticks: Seq<(PendingEdges, u64)>) -> bool {
    forall|i: int| 0 <= i < ticks.len() ==> start <= (#[trigger] ticks[i]).1 < start + GARD_TIME
}

/// What considering the signal of one button does to another button:
/// nothing, neither to its state nor to its events in the queue.
proof fn pending_of_other(s: KeySwitchView, pending: PendingEdges, other: Key, key: Key, now: u64)
    requires
        other != key,
    ensures
        s.after_pending(pending, other, now).button(key) == s.button(key),
        events_of(s.after_pending(pending, other, now).events, key) == events_of(s.events, key),
        s.after_pending(pending, other, now).asleep == s.asleep,
{
    let t = s.after_pending(pending, other, now);
    if t.events != s.events {
        assert(t.events.drop_last() =~= s.events);
    }
}

/// What considering the signal of a button does to that button: an
/// accepted edge changes its state and queues its event, anything else
/// leaves both as they are.
proof fn pending_of_same(s: KeySwitchView, pending: PendingEdges, key: Key, now: u64)
    ensures
        pending.has(key) && accepts_edge(s.button(key), now) ==> {
            &&& s.after_pending(pending, key, now).button(key) == after_edge(s.button(key), now)
            &&& events_of(s.after_pending(pending, key, now).events, key) == events_of(
                s.events,
                key,
            ).push(edge_event(key, s.button(key), now))
        },
        !(pending.has(key) && accepts_edge(s.button(key), now)) ==> s.after_pending(
            pending,
            key,
            now,
        ) == s,
        s.after_pending(pending, key, now).asleep == s.asleep,
{
    let t = s.after_pending(pending, key, now);
    if t.events != s.events {
        assert(t.events.drop_last() =~= s.events);
    }
}

/// What considering the signal of `at` does to the button `key`.
proof fn pending_on_button(s: KeySwitchView, pending: PendingEdges, at: Key, key: Key, now: u64)
    ensures
        s.after_pending(pending, at, now).asleep == s.asleep,
        at == key && pending.has(key) && accepts_edge(s.button(key), now) ==> {
            &&& s.after_pending(pending, at, now).button(key) == after_edge(s.button(key), now)
            &&& events_of(s.after_pending(pending, at, now).events, key) == events_of(
                s.events,
                key,
            ).push(edge_event(key, s.button(key), now))
        },
        !(at == key && pending.has(key) && accepts_edge(s.button(key), now)) ==> {
            &&& s.after_pending(pending, at, now).button(key) == s.button(key)
            &&& events_of(s.after_pending(pending, at, now).events, key) == events_of(
                s.events,
                key,
            )
        },
{
    if at == key {
        pending_of_same(s, pending, key, now);
    } else {
        pending_of_other(s, pending, at, key, now);
    }
}

/// What one poll does to one button, whatever the other buttons signal:
/// where its signal is pending and its edge is accepted, its state changes
/// and its event is queued behind the events it had; else its state and
/// its events in the queue are as before.
pub proof fn poll_on_button(s: KeySwitchView, key: Key, pending: PendingEdges, now: u64)
    requires
        !s.asleep,
    ensures
        !s.after_tick(pending, now).asleep,
        pending.has(key) && accepts_edge(s.button(key), now) ==> {
            &&& s.after_tick(pending, now).button(key) == after_edge(s.button(key), now)
            &&& events_of(s.after_tick(pending, now).events, key) == events_of(s.events, key).push(
                edge_event(key, s.button(key), now),
            )
        },
        !(pending.has(key) && accepts_edge(s.button(key), now)) ==> {
            &&& s.after_tick(pending, now).button(key) == s.button(key)
            &&& events_of(s.after_tick(pending, now).events, key) == events_of(s.events, key)
        },
{
    let a = s.after_pending(pending, Key::Up, now);
    let b = a.after_pending(pending, Key::Down, now);
    let c = b.after_pending(pending, Key::Right, now);
    let d = c.after_pending(pending, Key::Center, now);
    pending_on_button(s, pending, Key::Up, key, now);
    pending_on_button(a, pending, Key::Down, key, now);
    pending_on_button(b, pending, Key::Right, key, now);
    pending_on_button(c, pending, Key::Center, key, now);
    pending_on_button(d, pending, Key::Left, key, now);
}

/// Polls within the guard time of the last accepted edge of a button
/// queue no event of it and leave its state as it is, however many they
/// are and whatever the buttons signal.
pub proof fn bounce_polls_are_dropped(s: KeySwitchView, key: Key, ticks: Seq<(PendingEdges, u64)>)
    requires
        !s.asleep,
        polls_within_guard(s.button(key).last_accepted, ticks),
    ensures
        !s.after_ticks(ticks).asleep,
        s.after_ticks(ticks).button(key) == s.button(key),
        events_of(s.after_ticks(ticks).events, key) == events_of(s.events, key),
    decreases ticks.len(),
{
    if ticks.len() > 0 {
        let before = ticks.drop_last();
        let start = s.button(key).last_accepted;
        assert forall|i: int| 0 <= i < before.len() implies start <= (#[trigger] before[i]).1
            < start + GARD_TIME by {
            assert(before[i] == ticks[i]);
        }
        bounce_polls_are_dropped(s, key, before);
        poll_on_button(s.after_ticks(before), key, ticks.last().0, ticks.last().1);
    }
}

/// Polls only append to the queue: what was queued before them is the
/// front of what is queued after them, so no event is lost or moved.
pub proof fn polls_append(s: KeySwitchView, ticks: Seq<(PendingEdges, u64)>)
    requires
        !s.asleep,
    ensures
        !s.after_ticks(ticks).asleep,
        s.events.is_prefix_of(s.after_ticks(ticks).events),
    decreases ticks.len(),
{
    if ticks.len() > 0 {
        let before = s.after_ticks(ticks.drop_last());
        polls_append(s, ticks.drop_last());
        tick_appends(before, ticks.last().0, ticks.last().1);
    }
}

/// One press gives one pair of events, in polls.
///
/// Somebody reads, and the button is released. A poll finds its signal and
/// accepts the edge at `pressed.1`; polls within the guard time follow; a
/// poll finds its signal at `released.1`, after the guard time; polls
/// within the guard time follow. Whatever the polls in between find, and
/// whatever the other buttons do, the events of the button in the queue
/// are those it had, then one of it going down, then one of it coming up
/// with the length of the press. The button ends released, and what was
/// queued at the start is still the front of the queue.
pub proof fn one_press_one_pair_in_polls(
    s: KeySwitchView,
    key: Key,
    pressed: (PendingEdges, u64),
    bounce_down: Seq<(PendingEdges, u64)>,
    released: (PendingEdges, u64),
    bounce_up: Seq<(PendingEdges, u64)>,
)
    requires
        !s.asleep,
        !s.button(key).pressed,
        pressed.0.has(key),
        accepts_edge(s.button(key), pressed.1),
        polls_within_guard(pressed.1, bounce_down),
        released.0.has(key),
        released.1 >= pressed.1 + GARD_TIME,
        polls_within_guard(released.1, bounce_up),
    ensures
        ({
            let end = s.after_tick(pressed.0, pressed.1).after_ticks(bounce_down).after_tick(
                released.0,
                released.1,
            ).after_ticks(bounce_up);
            &&& events_of(end.events, key) == events_of(s.events, key).push(
                ButtonEdgeEvent { event: down_event(key), press_duration_ms: None },
            ).push(
                ButtonEdgeEvent {
                    event: up_event(key),
                    press_duration_ms: Some(((released.1 - pressed.1) % 0x1_0000_0000) as u32),
                },
            )
            &&& end.button(key) == (ButtonState {
                pressed: false,
                press_time: ((released.1 - pressed.1) % 0x1_0000_0000) as u32,
                last_accepted: released.1,
            })
            &&& s.events.is_prefix_of(end.events)
            &&& !end.asleep
        }),
{
    let a = s.after_tick(pressed.0, pressed.1);
    poll_on_button(s, key, pressed.0, pressed.1);
    tick_appends(s, pressed.0, pressed.1);
    let b = a.after_ticks(bounce_down);
    bounce_polls_are_dropped(a, key, bounce_down);
    polls_append(a, bounce_down);
    let c = b.after_tick(released.0, released.1);
    poll_on_button(b, key, released.0, released.1);
    tick_appends(b, released.0, released.1);
    bounce_polls_are_dropped(c, key, bounce_up);
    polls_append(c, bounce_up);
}

/// The buttons and the queue of their events.
#[derive(Debug)]
pub struct KeySwitch {
    up: ButtonState,
    down: ButtonState,
    left: ButtonState,
    right: ButtonState,
    center: ButtonState,
    key_event: Vec<ButtonEdgeEvent>,
    key_sleep: bool,
}

impl View for KeySwitch {
    type V = KeySwitchView;

    closed spec fn view(&self) -> KeySwitchView {
        KeySwitchView {
            up: self.up,
            down: self.down,
            left: self.left,
            right: self.right,
            center: self.center,
            events: self.key_event@,
            asleep: self.key_sleep,
        }
    }
}

/// Considers a signal of `key` at time `now`: the button afterwards, and
/// the event to queue if the edge is accepted.
fn consider(key: Key, b: ButtonState, now: u64) -> (r: (ButtonState, Option<ButtonEdgeEvent>))
    ensures
        accepts_edge(b, now) ==> r.0 == after_edge(b, now) && r.1 == Some(edge_event(key, b, now)),
        !accepts_edge(b, now) ==> r.0 == b && r.1 is None,
{
    if now < b.last_accepted || now - b.last_accepted < GARD_TIME {
        return (b, None);
    }
    if b.pressed {
        let held: u64 = (now - b.last_accepted) % 0x1_0000_0000;
        let event = match key {
            Key::Up => KeyEvent::UpKeyUp,
            Key::Down => KeyEvent::DownKeyUp,
            Key::Left => KeyEvent::LeftKeyUp,
            Key::Right => KeyEvent::RightKeyUp,
            Key::Center => KeyEvent::CenterKeyUp,
        };
        (
            ButtonState { pressed: false, press_time: held as u32, last_accepted: now },
            Some(ButtonEdgeEvent { event, press_duration_ms: Some(held as u32) }),
        )
    } else {
        let event = match key {
            Key::Up => KeyEvent::UpKeyDown,
            Key::Down => KeyEvent::DownKeyDown,
            Key::Left => KeyEvent::LeftKeyDown,
            Key::Right => KeyEvent::RightKeyDown,
            Key::Center => KeyEvent::CenterKeyDown,
        };
        (
            ButtonState { pressed: true, press_time: 0, last_accepted: now },
            Some(ButtonEdgeEvent { event, press_duration_ms: None }),
        )
    }
}

impl KeySwitch {
    /// All buttons released, nothing queued, somebody reading; the clock
    /// starts at 0.
    pub fn new() -> (r: KeySwitch)
        ensures
            r@.events == Seq::<ButtonEdgeEvent>::empty(),
            !r@.asleep,
            forall|key: Key|
                #[trigger] r@.button(key) == (ButtonState {
                    pressed: false,
                    press_time: 0,
                    last_accepted: 0,
                }),
    {
        let released = ButtonState { pressed: false, press_time: 0, last_accepted: 0 };
        KeySwitch {
            up: released,
            down: released,
            left: released,
            right: released,
            center: released,
            key_event: Vec::new(),
            key_sleep: false,
        }
    }

    /// The signal of `key` considered at time `now`.
    fn signal(&mut self, key: Key, now: u64)
        ensures
            final(self)@ == old(self)@.after_signal(key, now),
    {
        let before = match key {
            Key::Up => self.up,
            Key::Down => self.down,
            Key::Left => self.left,
            Key::Right => self.right,
            Key::Center => self.center,
        };
        let (after, event) = consider(key, before, now);
        match key {
            Key::Up => {
                self.up = after;
            },
            Key::Down => {
                self.down = after;
            },
            Key::Left => {
                self.left = after;
            },
            Key::Right => {
                self.right = after;
            },
            Key::Center => {
                self.center = after;
            },
        }
        match event {
            Some(event) => {
                self.key_event.push(event);
            },
            None => {},
        }
    }

    /// One poll: considers the signals `pending` at time `now`.
    pub fn poll_tick(&mut self, pending: PendingEdges, now: u64)
        ensures
            final(self)@ == old(self)@.after_tick(pending, now),
    {
        if self.key_sleep {
            self.key_event.clear();
            return;
        }
        if pending.up {
            self.signal(Key::Up, now);
        }
        if pending.down {
            self.signal(Key::Down, now);
        }
        if pending.right {
            self.signal(Key::Right, now);
        }
        if pending.center {
            self.signal(Key::Center, now);
        }
        if pending.left {
            self.signal(Key::Left, now);
        }
    }

    /// Whether `button` is held down.
    pub fn get_current_button_state(&self, button: Key) -> (r: bool)
        ensures
            r == self@.button(button).pressed,
    {
        match button {
            Key::Up => self.up.pressed,
            Key::Down => self.down.pressed,
            Key::Left => self.left.pressed,
            Key::Right => self.right.pressed,
            Key::Center => self.center.pressed,
        }
    }

    /// How long the last finished press of `button` lasted, in
    /// milliseconds.
    pub fn get_button_press_time(&self, button: Key) -> (r: u32)
        ensures
            r == self@.button(button).press_time,
    {
        match button {
            Key::Up => self.up.press_time,
            Key::Down => self.down.press_time,
            Key::Left => self.left.press_time,
            Key::Right => self.right.press_time,
            Key::Center => self.center.press_time,
        }
    }

    /// Drops what is queued.
    pub fn clear_all_button_event(&mut self)
        ensures
            final(self)@ == (KeySwitchView { events: Seq::empty(), ..old(self)@ }),
    {
        self.key_event.clear();
    }

    /// Takes what is queued, oldest event first, and leaves the queue
    /// empty. The events come without the lengths of the presses.
    pub fn get_key_event_and_clear(&mut self) -> (r: Vec<KeyEvent>)
        ensures
            r@ == event_kinds(old(self)@.events),
            final(self)@ == (KeySwitchView { events: Seq::empty(), ..old(self)@ }),
    {
        let mut taken: Vec<KeyEvent> = Vec::new();
        let mut i: usize = 0;
        while i < self.key_event.len()
            invariant
                i <= self.key_event.len(),
                *self == *old(self),
                taken@ =~= event_kinds(self.key_event@.take(i as int)),
            decreases self.key_event.len() - i,
        {
            taken.push(self.key_event[i].event);
            i += 1;
        }
        self.key_event.clear();
        taken
    }

    /// Takes what is queued, oldest event first, each with the length of
    /// the press where a button came up, and leaves the queue empty.
    pub fn drain_events(&mut self) -> (r: Vec<ButtonEdgeEvent>)
        ensures
            r@ == old(self)@.events,
            final(self)@ == (KeySwitchView { events: Seq::empty(), ..old(self)@ }),
    {
        let mut taken: Vec<ButtonEdgeEvent> = Vec::new();
        let mut i: usize = 0;
        while i < self.key_event.len()
            invariant
                i <= self.key_event.len(),
                *self == *old(self),
                taken@ =~= self.key_event@.take(i as int),
            decreases self.key_event.len() - i,
        {
            taken.push(self.key_event[i]);
            i += 1;
        }
        self.key_event.clear();
        taken
    }

    /// Says whether nobody is reading events. Going to sleep drops what is
    /// queued, so that nothing stale is read after waking.
    pub fn set_key_sleep(&mut self, sleep: bool)
        ensures
            final(self)@ == (KeySwitchView {
                asleep: sleep,
                events: if sleep {
                    Seq::empty()
                } else {
                    old(self)@.events
                },
                ..old(self)@
            }),
    {
        self.key_sleep = sleep;
        if sleep {
            self.key_event.clear();
        }
    }

    /// Whether nobody is reading events.
    pub fn get_key_sleep(&self) -> (r: bool)
        ensures
            r == self@.asleep,
    {
        self.key_sleep
    }
}

} // verus!
