use vstd::prelude::*;
use crate::keys::{Key, key_name, key_to_char, resolve};
use crate::modifiers::{
    ModifierState, caps_presses, lemma_transitions, shift_press_unreleased, transition, transitions,
};

verus! {

/// One logged input event. Pointer coordinates are IEEE 754 double bit
/// patterns: the logger carries them and never computes with them.
#[derive(Clone, Debug, PartialEq)]
pub enum InputEvent {
    KeyPress(String),
    KeyRelease(String),
    CharInput(String),
    ButtonPress(String),
    ButtonRelease(String),
    MouseMove { x: u64, y: u64 },
    Wheel { delta_x: i64, delta_y: i64 },
}

/// An `InputEvent` with its strings seen as character sequences.
pub enum EventView {
    KeyPress(Seq<char>),
    KeyRelease(Seq<char>),
    CharInput(Seq<char>),
    ButtonPress(Seq<char>),
    ButtonRelease(Seq<char>),
    MouseMove { x: u64, y: u64 },
    Wheel { delta_x: i64, delta_y: i64 },
}

impl View for InputEvent {
    type V = EventView;

    open spec fn view(&self) -> EventView {
        match self {
            InputEvent::KeyPress(s) => EventView::KeyPress(s@),
            InputEvent::KeyRelease(s) => EventView::KeyRelease(s@),
            InputEvent::CharInput(s) => EventView::CharInput(s@),
            InputEvent::ButtonPress(s) => EventView::ButtonPress(s@),
            InputEvent::ButtonRelease(s) => EventView::ButtonRelease(s@),
            InputEvent::MouseMove { x, y } => EventView::MouseMove { x: *x, y: *y },
            InputEvent::Wheel { delta_x, delta_y } => EventView::Wheel {
                delta_x: *delta_x,
                delta_y: *delta_y,
            },
        }
    }
}

pub open spec fn events_view(s: Seq<InputEvent>) -> Seq<EventView> {
    s.map_values(|e: InputEvent| e@)
}

/// A raw notification from the input hook.
#[derive(Clone, Debug)]
pub enum Notification {
    KeyPress(Key),
    KeyRelease(Key),
    /// A pointer button press, with the button's name.
    ButtonPress(String),
    /// A pointer button release, with the button's name.
    ButtonRelease(String),
    /// A pointer move to absolute coordinates, as IEEE 754 double bit patterns.
    MouseMove { x: u64, y: u64 },
    Wheel { delta_x: i64, delta_y: i64 },
}

/// The modifier state after a notification.
pub open spec fn notified(m: ModifierState, n: Notification) -> ModifierState {
    match n {
        Notification::KeyPress(k) => transition(m, k, true),
        Notification::KeyRelease(k) => transition(m, k, false),
        _ => m,
    }
}

/// The record of the notification itself.
pub open spec fn raw_event(n: Notification) -> EventView {
    match n {
        Notification::KeyPress(k) => EventView::KeyPress(key_name(k)),
        Notification::KeyRelease(k) => EventView::KeyRelease(key_name(k)),
        Notification::ButtonPress(b) => EventView::ButtonPress(b@),
        Notification::ButtonRelease(b) => EventView::ButtonRelease(b@),
        Notification::MouseMove { x, y } => EventView::MouseMove { x, y },
        Notification::Wheel { delta_x, delta_y } => EventView::Wheel { delta_x, delta_y },
    }
}

/// The events that a notification yields, in order: for a key press that
/// resolves to text under the updated modifiers, the character input first;
/// then always the record of the notification itself.
pub open spec fn derived_events(m: ModifierState, n: Notification) -> Seq<EventView> {
    let after = notified(m, n);
    match n {
        Notification::KeyPress(k) => match resolve(k, after.shift_held, after.caps_toggled) {
            Some(text) => seq![EventView::CharInput(text), raw_event(n)],
            None => seq![raw_event(n)],
        },
        _ => seq![raw_event(n)],
    }
}

/// Updates the modifier state from a notification and returns the events it
/// yields, in the order they are to be logged.
pub fn dispatch(modifiers: &mut ModifierState, n: &Notification) -> (r: Vec<InputEvent>)
    ensures
        *final(modifiers) == notified(*old(modifiers), *n),
        events_view(r@) == derived_events(*old(modifiers), *n),
{
    let mut r: Vec<InputEvent> = Vec::new();
    let raw: InputEvent = match n {
        Notification::KeyPress(k) => {
            modifiers.on_key_transition(k, true);
            let m: ModifierState = modifiers.snapshot();
            if let Some(text) = key_to_char(k, m.shift_held, m.caps_toggled) {
                r.push(InputEvent::CharInput(text));
            }
            InputEvent::KeyPress(k.name())
        },
        Notification::KeyRelease(k) => {
            modifiers.on_key_transition(k, false);
            InputEvent::KeyRelease(k.name())
        },
        Notification::ButtonPress(b) => InputEvent::ButtonPress(b.clone()),
        Notification::ButtonRelease(b) => InputEvent::ButtonRelease(b.clone()),
        Notification::MouseMove { x, y } => InputEvent::MouseMove { x: *x, y: *y },
        Notification::Wheel { delta_x, delta_y } => InputEvent::Wheel {
            delta_x: *delta_x,
            delta_y: *delta_y,
        },
    };
    r.push(raw);
    assert(events_view(r@) =~= derived_events(*old(modifiers), *n));
    r
}

/// The modifier state after dispatching the notifications `ns` in order.
pub open spec fn notified_all(m: ModifierState, ns: Seq<Notification>) -> ModifierState
    decreases ns.len(),
{
    if ns.len() == 0 {
        m
    } else {
        notified(notified_all(m, ns.drop_last()), ns.last())
    }
}

/// The key transitions among the notifications `ns`, in order.
pub open spec fn key_transitions(ns: Seq<Notification>) -> Seq<(Key, bool)>
    decreases ns.len(),
{
    if ns.len() == 0 {
        Seq::empty()
    } else {
        let before = key_transitions(ns.drop_last());
        match ns.last() {
            Notification::KeyPress(k) => before.push((k, true)),
            Notification::KeyRelease(k) => before.push((k, false)),
            _ => before,
        }
    }
}

/// Dispatching notifications changes the modifiers as their key transitions do.
pub proof fn lemma_notified_all(m: ModifierState, ns: Seq<Notification>)
    ensures
        notified_all(m, ns) == transitions(m, key_transitions(ns)),
    decreases ns.len(),
{
    if ns.len() > 0 {
        let pre = key_transitions(ns.drop_last());
        lemma_notified_all(m, ns.drop_last());
        match ns.last() {
            Notification::KeyPress(k) => {
                assert(pre.push((k, true)).drop_last() =~= pre);
            },
            Notification::KeyRelease(k) => {
                assert(pre.push((k, false)).drop_last() =~= pre);
            },
            _ => {},
        }
    }
}

/// After dispatching any notifications from the initial state, shift is held
/// exactly when some shift press among them has no shift release after it,
/// caps lock is on exactly when it was pressed an odd number of times, and a
/// press of the A key then logs `A` when exactly one of the two is on and `a`
/// otherwise, before the record of the press itself.
pub proof fn lemma_dispatch_sequence(ns: Seq<Notification>)
    ensures
        ({
            let m = notified_all(ModifierState { shift_held: false, caps_toggled: false }, ns);
            let kt = key_transitions(ns);
            let shift = shift_press_unreleased(kt);
            let caps = caps_presses(kt) % 2 == 1;
            &&& m.shift_held == shift
            &&& m.caps_toggled == caps
            &&& derived_events(m, Notification::KeyPress(Key::KeyA)) == seq![
                EventView::CharInput(seq![if shift != caps { 'A' } else { 'a' }]),
                EventView::KeyPress(key_name(Key::KeyA)),
            ]
        }),
{
    let init = ModifierState { shift_held: false, caps_toggled: false };
    lemma_notified_all(init, ns);
    lemma_transitions(key_transitions(ns));
}

/// A fatal condition: the run cannot keep its timestamped trail.
#[derive(Clone, Copy, Debug, PartialEq, Eq)]
pub enum FatalError {
    /// A timestamp lies outside the range of representable instants.
    TimestampOutOfRange,
}

/// The last second, counted from the Unix epoch, of the latest instant that
/// chrono represents (the end of year 262142).
pub const MAX_UTC_SECONDS: i64 = 8210266876799;

/// The first second, counted from the Unix epoch, of year 10000.
pub const YEAR_10000_SECONDS: i64 = 253402300800;

pub open spec fn is_digit(c: char) -> bool {
    '0' <= c <= '9'
}

/// The decimal digit of `d`, for `0 <= d < 10`.
pub open spec fn digit_char(d: int) -> char {
    if d == 0 {
        '0'
    } else if d == 1 {
        '1'
    } else if d == 2 {
        '2'
    } else if d == 3 {
        '3'
    } else if d == 4 {
        '4'
    } else if d == 5 {
        '5'
    } else if d == 6 {
        '6'
    } else if d == 7 {
        '7'
    } else if d == 8 {
        '8'
    } else {
        '9'
    }
}

/// `m`, for `0 <= m < 1000`, as three decimal digits.
pub open spec fn three_digits(m: int) -> Seq<char> {
    seq![digit_char(m / 100), digit_char(m / 10 % 10), digit_char(m % 10)]
}

/// The text ends with a dot, the milliseconds `m` in three digits, a space and
/// a UTC offset `+HH:MM` or `-HH:MM`.
pub open spec fn ends_with_millis_and_offset(s: Seq<char>, m: int) -> bool {
    let n = s.len() as int;
    &&& n >= 11
    &&& s[n - 11] == '.'
    &&& s.subrange(n - 10, n - 7) == three_digits(m)
    &&& s[n - 7] == ' '
    &&& (s[n - 6] == '+' || s[n - 6] == '-')
    &&& is_digit(s[n - 5])
    &&& is_digit(s[n - 4])
    &&& s[n - 3] == ':'
    &&& is_digit(s[n - 2])
    &&& is_digit(s[n - 1])
}

/// The character at position `i` of `YYYY-MM-DD HH:MM:SS.mmm +HH:MM`, where
/// the sign may also be `-`.
pub open spec fn fits_full_shape_at(i: int, c: char) -> bool {
    if i == 4 || i == 7 {
        c == '-'
    } else if i == 10 || i == 23 {
        c == ' '
    } else if i == 13 || i == 16 || i == 27 {
        c == ':'
    } else if i == 19 {
        c == '.'
    } else if i == 24 {
        c == '+' || c == '-'
    } else {
        is_digit(c)
    }
}

/// The text reads `YYYY-MM-DD HH:MM:SS.mmm ±HH:MM`.
pub open spec fn has_full_shape(s: Seq<char>) -> bool {
    &&& s.len() == 30
    &&& forall|i: int| 0 <= i < 30 ==> fits_full_shape_at(i, #[trigger] s[i])
}

/// What holds of the local rendering of an instant, whatever the time zone:
/// it ends with the milliseconds and the offset, and away from the five-digit
/// years it has the full fixed shape.
pub open spec fn renders_instant(s: Seq<char>, secs: int, millis: int) -> bool {
    &&& ends_with_millis_and_offset(s, millis)
    &&& (0 <= secs < YEAR_10000_SECONDS - 86400 ==> has_full_shape(s))
}

/// What holds of the rendering of an epoch-millisecond timestamp.
pub open spec fn renders_timestamp(s: Seq<char>, timestamp: u64) -> bool {
    renders_instant(s, (timestamp / 1000) as int, (timestamp % 1000) as int)
}

/// Relies on chrono's `DateTime::<Utc>::from_timestamp`, which for valid
/// nanoseconds is `Some` exactly when the seconds fall in the years that
/// chrono represents (up to its `MAX_YEAR`, 262142), then on
/// `DateTime::with_timezone(&Local)` and `format` for the rendering. The text
/// depends on the machine's time zone; what is stated of it is fixed by the
/// format items whatever the zone: `%.3f` writes a dot and three digits of
/// the nanoseconds, which an offset of whole seconds leaves as they are;
/// `%:z` writes a sign and `HH:MM`; `%Y` writes four digits for the years
/// 1000 to 9999, and a local date lies within a day of the UTC one.
#[verifier::external_body]
fn render_local(secs: i64, nanos: u32) -> (r: Option<String>)
    requires
        secs >= 0,
        nanos < 1_000_000_000,
    ensures
        r is Some <==> secs <= MAX_UTC_SECONDS,
        r is Some ==> renders_instant(r->0@, secs as int, (nanos / 1_000_000) as int),
{
    match chrono::DateTime::<chrono::Utc>::from_timestamp(secs, nanos) {
        Some(dt) => Some(
            dt.with_timezone(&chrono::Local).format("%Y-%m-%d %H:%M:%S%.3f %:z").to_string(),
        ),
        None => None,
    }
}

/// An input event with the epoch-millisecond instant it was observed at.
#[derive(Clone, Debug, PartialEq)]
pub struct TimedEvent {
    pub timestamp: u64,
    pub event: InputEvent,
}

impl TimedEvent {
    pub fn new(timestamp: u64, event: InputEvent) -> (r: TimedEvent)
        ensures
            r.timestamp == timestamp,
            r.event == event,
    {
        TimedEvent { timestamp, event }
    }

    /// Whole seconds and nanoseconds of the timestamp.
    pub fn split_timestamp(&self) -> (r: (i64, u32))
        ensures
            r.0 == self.timestamp / 1000,
            r.1 == (self.timestamp % 1000) * 1_000_000,
            r.1 < 1_000_000_000,
    {
        let secs: i64 = (self.timestamp / 1000) as i64;
        let millis: u32 = (self.timestamp % 1000) as u32;
        (secs, millis * 1_000_000)
    }

    /// The timestamp as local date and time with milliseconds and UTC offset,
    /// `YYYY-MM-DD HH:MM:SS.mmm +HH:MM`; an error for an instant past the
    /// representable range.
    pub fn format_timestamp(&self) -> (r: Result<String, FatalError>)
        ensures
            r is Ok <==> self.timestamp / 1000 <= MAX_UTC_SECONDS,
            r is Ok ==> renders_timestamp(r->Ok_0@, self.timestamp),
            r is Err ==> r->Err_0 == FatalError::TimestampOutOfRange,
    {
        let (secs, nanos) = self.split_timestamp();
        assert(nanos / 1_000_000 == self.timestamp % 1000) by (nonlinear_arith)
            requires
                nanos == (self.timestamp % 1000) * 1_000_000,
        ;
        match render_local(secs, nanos) {
            Some(text) => Ok(text),
            None => Err(FatalError::TimestampOutOfRange),
        }
    }
}

} // verus!
