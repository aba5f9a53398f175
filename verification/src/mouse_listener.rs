//! The mouse listener: which input events cycle clients, and in which
//! direction.
//!
//! Events are decided step by step: the caller finds out what a step asks for
//! and hands the answer back.

use crate::config::{Config, MouseCycleMode};
use crate::cycle::{contains_id, CycleDirection, CycleRun, EveWindow};
use crate::evdev_input::{event_kind, EventKind, REL_WHEEL};
use crate::linux_input_state::{modifier_held, ModifierState};
use vstd::prelude::*;

verus! {

/// At least this many nanoseconds lie between two wheel steps. Drivers may
/// send several wheel events for one detent.
pub const WHEEL_DEBOUNCE_NS: u128 = 80_000_000;

/// The value of a key event for a press.
pub const PRESSED: i32 = 1;

/// Why the listener does not start.
#[derive(Clone, Copy, Debug, PartialEq, Eq, Structural)]
pub enum ListenerError {
    /// The cycle mode is `Never`.
    CyclingDisabled,
}

/// What can go wrong while the listener runs.
#[derive(Clone, Copy, Debug, PartialEq, Eq, Structural)]
pub enum ListenerFailure {
    /// There is no mouse to listen to.
    FindDevice,
    /// The events of the mouse could not be read.
    ReadEvents,
    /// The focus could not be moved.
    Cycle(CycleDirection),
}

/// Whether the listener ends with this failure. It goes on after a change of
/// focus that could not be made.
pub fn ends_listener(failure: ListenerFailure) -> (ends: bool)
    ensures
        ends == !(failure is Cycle),
{
    match failure {
        ListenerFailure::FindDevice | ListenerFailure::ReadEvents => true,
        ListenerFailure::Cycle(_) => false,
    }
}

/// What a running listener was started with.
#[derive(Debug)]
pub struct ListenerSettings {
    pub events: EventFilter,
    pub mouse_device_name: Option<String>,
    pub mouse_device_path: Option<String>,
    pub minimize_inactive: bool,
}

/// The part of the settings that decides about events, and the time of the
/// last wheel step, in nanoseconds since the listener started.
#[derive(Clone, Copy, Debug, PartialEq, Eq, Structural)]
pub struct EventFilter {
    pub mode: MouseCycleMode,
    pub forward_button: u16,
    pub backward_button: u16,
    pub wheel_enabled: bool,
    pub wheel_modifier: u16,
    pub last_wheel: Option<u128>,
}

/// The part of an event that the listener acts on: a press of a cycle button,
/// or the distance that the wheel was turned.
#[derive(Clone, Copy, Debug, PartialEq, Eq, Structural)]
pub enum MouseInput {
    Button(CycleDirection),
    Wheel(i32),
}

/// What the listener needs or does next.
#[derive(Clone, Copy, Debug, PartialEq, Eq, Structural)]
pub enum MouseStep {
    Ignore,
    /// Find out whether a client has the focus; answer with
    /// `foreground_answer`.
    AskForeground(MouseInput),
    /// Read the clock; answer with `clock_answer`.
    AskClock { delta: i32 },
    Cycle(CycleDirection),
}

/// The step of the wheel: up is forward, and no movement does nothing.
pub open spec fn wheel_step(delta: int) -> MouseStep {
    if delta > 0 {
        MouseStep::Cycle(CycleDirection::Forward)
    } else if delta < 0 {
        MouseStep::Cycle(CycleDirection::Backward)
    } else {
        MouseStep::Ignore
    }
}

impl EventFilter {
    /// The input that a raw event carries for this listener, if any. Only
    /// presses of the two buttons count, not releases; the wheel counts when
    /// it is enabled and the mode is not `Never`.
    pub open spec fn input_of(self, event_type: u16, code: u16, value: i32) -> Option<MouseInput> {
        match crate::evdev_input::kind_of(event_type, code) {
            EventKind::Key(key) => if value == PRESSED && key == self.forward_button {
                Some(MouseInput::Button(CycleDirection::Forward))
            } else if value == PRESSED && key == self.backward_button {
                Some(MouseInput::Button(CycleDirection::Backward))
            } else {
                None
            },
            EventKind::RelAxis(axis) => if self.wheel_enabled && axis == REL_WHEEL && self.mode
                != MouseCycleMode::Never {
                Some(MouseInput::Wheel(value))
            } else {
                None
            },
            EventKind::Other => None,
        }
    }

    /// The step once the focus is no obstacle.
    pub open spec fn past_focus(self, input: MouseInput, modifiers: ModifierState) -> MouseStep {
        match input {
            MouseInput::Button(direction) => MouseStep::Cycle(direction),
            MouseInput::Wheel(delta) => if modifiers.held(self.wheel_modifier) {
                MouseStep::AskClock { delta }
            } else {
                MouseStep::Ignore
            },
        }
    }

    pub open spec fn first_step(
        self,
        event_type: u16,
        code: u16,
        value: i32,
        modifiers: ModifierState,
    ) -> MouseStep {
        match self.input_of(event_type, code, value) {
            None => MouseStep::Ignore,
            Some(input) => if self.mode == MouseCycleMode::OnlyWhenEveFocused {
                MouseStep::AskForeground(input)
            } else {
                self.past_focus(input, modifiers)
            },
        }
    }

    pub open spec fn after_foreground(
        self,
        input: MouseInput,
        eve_focused: bool,
        modifiers: ModifierState,
    ) -> MouseStep {
        if eve_focused {
            self.past_focus(input, modifiers)
        } else {
            MouseStep::Ignore
        }
    }

    /// Less than the debounce time has passed since the last wheel step.
    pub open spec fn debounced(self, now: u128) -> bool {
        self.last_wheel is Some && now - self.last_wheel->0 < WHEEL_DEBOUNCE_NS
    }

    pub open spec fn after_clock(self, delta: i32, now: u128) -> (EventFilter, MouseStep) {
        if self.debounced(now) {
            (self, MouseStep::Ignore)
        } else {
            (EventFilter { last_wheel: Some(now), ..self }, wheel_step(delta as int))
        }
    }

    /// The whole course of one event when the questions that are asked are
    /// answered with `eve_focused` and `now`.
    pub open spec fn run(
        self,
        event_type: u16,
        code: u16,
        value: i32,
        modifiers: ModifierState,
        eve_focused: bool,
        now: u128,
    ) -> (EventFilter, MouseStep) {
        let start = self.first_step(event_type, code, value, modifiers);
        let known_focus = match start {
            MouseStep::AskForeground(input) => self.after_foreground(input, eve_focused, modifiers),
            _ => start,
        };
        match known_focus {
            MouseStep::AskClock { delta } => self.after_clock(delta, now),
            _ => (self, known_focus),
        }
    }

    fn go_on(&self, input: MouseInput, modifiers: &ModifierState) -> (step: MouseStep)
        ensures
            step == self.past_focus(input, *modifiers),
    {
        match input {
            MouseInput::Button(direction) => MouseStep::Cycle(direction),
            MouseInput::Wheel(delta) => if modifier_held(modifiers, self.wheel_modifier) {
                MouseStep::AskClock { delta }
            } else {
                MouseStep::Ignore
            },
        }
    }

    /// Starts on a raw input event, given by its type, code and value.
    pub fn on_event(&self, event_type: u16, code: u16, value: i32, modifiers: &ModifierState) -> (step:
        MouseStep)
        ensures
            step == self.first_step(event_type, code, value, *modifiers),
    {
        let input = match event_kind(event_type, code, value) {
            EventKind::Key(key) => {
                if value != PRESSED {
                    return MouseStep::Ignore;
                }
                if key == self.forward_button {
                    MouseInput::Button(CycleDirection::Forward)
                } else if key == self.backward_button {
                    MouseInput::Button(CycleDirection::Backward)
                } else {
                    return MouseStep::Ignore;
                }
            },
            EventKind::RelAxis(axis) => {
                if !self.wheel_enabled || axis != REL_WHEEL || self.mode == MouseCycleMode::Never {
                    return MouseStep::Ignore;
                }
                MouseInput::Wheel(value)
            },
            EventKind::Other => {
                return MouseStep::Ignore;
            },
        };
        if self.mode == MouseCycleMode::OnlyWhenEveFocused {
            return MouseStep::AskForeground(input);
        }
        self.go_on(input, modifiers)
    }

    /// Goes on once it is known whether a client has the focus.
    pub fn foreground_answer(
        &self,
        input: MouseInput,
        eve_focused: bool,
        modifiers: &ModifierState,
    ) -> (step: MouseStep)
        ensures
            step == self.after_foreground(input, eve_focused, *modifiers),
    {
        if eve_focused {
            self.go_on(input, modifiers)
        } else {
            MouseStep::Ignore
        }
    }

    /// Ends a wheel event, `now` nanoseconds after the listener started.
    pub fn clock_answer(&mut self, delta: i32, now: u128) -> (step: MouseStep)
        ensures
            (*final(self), step) == old(self).after_clock(delta, now),
    {
        if let Some(last) = self.last_wheel {
            if now < last || now - last < WHEEL_DEBOUNCE_NS {
                return MouseStep::Ignore;
            }
        }
        self.last_wheel = Some(now);
        if delta > 0 {
            MouseStep::Cycle(CycleDirection::Forward)
        } else if delta < 0 {
            MouseStep::Cycle(CycleDirection::Backward)
        } else {
            MouseStep::Ignore
        }
    }
}

/// Text of an optional string.
pub open spec fn text_of(s: Option<String>) -> Option<Seq<char>> {
    match s {
        Some(s) => Some(s@),
        None => None,
    }
}

fn copy_text(s: &Option<String>) -> (r: Option<String>)
    ensures
        text_of(r) == text_of(*s),
{
    match s {
        Some(s) => Some(s.clone()),
        None => None,
    }
}

/// Listens to the mouse for a configuration.
pub struct MouseListener {
    pub config: Config,
}

impl MouseListener {
    pub fn new(config: Config) -> (listener: MouseListener)
        ensures
            listener.config == config,
    {
        MouseListener { config }
    }

    /// What to start the listener with. It does not start in mode `Never`.
    pub fn settings(&self) -> (settings: Result<ListenerSettings, ListenerError>)
        ensures
            self.config.mouse_cycle_mode == MouseCycleMode::Never <==> settings is Err,
            settings matches Err(e) ==> e == ListenerError::CyclingDisabled,
            settings matches Ok(s) ==> {
                &&& s.events == (EventFilter {
                    mode: self.config.mouse_cycle_mode,
                    forward_button: self.config.forward_button,
                    backward_button: self.config.backward_button,
                    wheel_enabled: self.config.enable_wheel_cycle,
                    wheel_modifier: self.config.wheel_cycle_modifier,
                    last_wheel: None,
                })
                &&& text_of(s.mouse_device_name) == text_of(self.config.mouse_device_name)
                &&& text_of(s.mouse_device_path) == text_of(self.config.mouse_device_path)
                &&& s.minimize_inactive == self.config.minimize_inactive
            },
    {
        if self.config.mouse_cycle_mode == MouseCycleMode::Never {
            return Err(ListenerError::CyclingDisabled);
        }
        Ok(
            ListenerSettings {
                events: EventFilter {
                    mode: self.config.mouse_cycle_mode,
                    forward_button: self.config.forward_button,
                    backward_button: self.config.backward_button,
                    wheel_enabled: self.config.enable_wheel_cycle,
                    wheel_modifier: self.config.wheel_cycle_modifier,
                    last_wheel: None,
                },
                mouse_device_name: copy_text(&self.config.mouse_device_name),
                mouse_device_path: copy_text(&self.config.mouse_device_path),
                minimize_inactive: self.config.minimize_inactive,
            },
        )
    }

    /// Whether the active window is one of the clients. Either may be unknown;
    /// then it is not.
    pub fn foreground_is_eve(active: Option<u32>, windows: Option<&Vec<EveWindow>>) -> (r: bool)
        ensures
            r == (active is Some && windows is Some && crate::cycle::has_id(
                windows->0@,
                active->0,
            )),
    {
        match (active, windows) {
            (Some(id), Some(windows)) => contains_id(windows, id),
            _ => false,
        }
    }

    /// Starts a step forward. The mouse listener announces nothing.
    pub fn cycle_forward(minimize_inactive: bool) -> (run: CycleRun)
        ensures
            run.target == crate::cycle::CycleTarget::Neighbor(CycleDirection::Forward),
            run.minimize_inactive == minimize_inactive,
            !run.announces,
            run.step == crate::cycle::CycleStep::AskActive,
    {
        CycleRun::to_neighbor(CycleDirection::Forward, minimize_inactive, false)
    }

    /// Starts a step backward. The mouse listener announces nothing.
    pub fn cycle_backward(minimize_inactive: bool) -> (run: CycleRun)
        ensures
            run.target == crate::cycle::CycleTarget::Neighbor(CycleDirection::Backward),
            run.minimize_inactive == minimize_inactive,
            !run.announces,
            run.step == crate::cycle::CycleStep::AskActive,
    {
        CycleRun::to_neighbor(CycleDirection::Backward, minimize_inactive, false)
    }
}

/// One event from start to end: a press of a cycle button cycles unless the
/// mode asks for a focused client and there is none. The wheel does so too
/// when moreover its modifier is held and the debounce time has passed. Any
/// other event does nothing.
pub proof fn law_course_of_an_event(
    filter: EventFilter,
    event_type: u16,
    code: u16,
    value: i32,
    modifiers: ModifierState,
    eve_focused: bool,
    now: u128,
)
    ensures
        filter.run(event_type, code, value, modifiers, eve_focused, now) == ({
            let focus_ok = filter.mode != MouseCycleMode::OnlyWhenEveFocused || eve_focused;
            match filter.input_of(event_type, code, value) {
                Some(MouseInput::Button(direction)) if focus_ok => (
                    filter,
                    MouseStep::Cycle(direction),
                ),
                Some(MouseInput::Wheel(delta)) if focus_ok && modifiers.held(filter.wheel_modifier)
                    && !filter.debounced(now) => (
                    EventFilter { last_wheel: Some(now), ..filter },
                    wheel_step(delta as int),
                ),
                _ => (filter, MouseStep::Ignore),
            }
        }),
{
}

/// A raw input event, with the modifiers held at the time and the answers to
/// the questions that it may raise.
pub struct AnsweredEvent {
    pub event_type: u16,
    pub code: u16,
    pub value: i32,
    pub modifiers: ModifierState,
    pub eve_focused: bool,
    pub now: u128,
}

impl EventFilter {
    /// The course of one event, as `run` gives it.
    pub open spec fn run_event(self, event: AnsweredEvent) -> (EventFilter, MouseStep) {
        self.run(
            event.event_type,
            event.code,
            event.value,
            event.modifiers,
            event.eve_focused,
            event.now,
        )
    }

    /// The state after `events`.
    pub open spec fn after_events(self, events: Seq<AnsweredEvent>) -> EventFilter
        decreases events.len(),
    {
        if events.len() == 0 {
            self
        } else {
            self.after_events(events.drop_last()).run_event(events.last()).0
        }
    }

    /// Event `i` of `events` is a turn of the wheel that cycles.
    pub open spec fn wheel_cycles(self, events: Seq<AnsweredEvent>, i: int) -> bool {
        let before = self.after_events(events.take(i));
        let event = events[i];
        &&& 0 <= i < events.len()
        &&& before.input_of(event.event_type, event.code, event.value) matches Some(
            MouseInput::Wheel(_),
        )
        &&& before.run_event(event).1 is Cycle
    }
}

proof fn lemma_last_wheel_grows(filter: EventFilter, events: Seq<AnsweredEvent>, i: int)
    requires
        0 <= i <= events.len(),
        filter.after_events(events.take(i)).last_wheel is Some,
    ensures
        filter.after_events(events).last_wheel is Some,
        filter.after_events(events.take(i)).last_wheel->0 <= filter.after_events(
            events,
        ).last_wheel->0,
    decreases events.len() - i,
{
    if i < events.len() {
        assert(events.take(i + 1).drop_last() =~= events.take(i));
        lemma_last_wheel_grows(filter, events, i + 1);
    } else {
        assert(events.take(i) =~= events);
    }
}

/// However many events lie between them, two turns of the wheel that cycle
/// lie at least the debounce time apart.
pub proof fn law_wheel_steps_are_spaced(
    filter: EventFilter,
    events: Seq<AnsweredEvent>,
    i: int,
    j: int,
)
    requires
        i < j,
        filter.wheel_cycles(events, i),
        filter.wheel_cycles(events, j),
    ensures
        events[j].now >= events[i].now + WHEEL_DEBOUNCE_NS,
{
    let upto = events.take(j);
    assert(upto.take(i + 1) =~= events.take(i + 1));
    assert(events.take(i + 1).drop_last() =~= events.take(i));
    lemma_last_wheel_grows(filter, upto, i + 1);
}

/// A press of a cycle button cycles: forward for the forward button and else
/// backward for the backward button. In the mode that asks for a focused client
/// it does so when there is one and else does nothing. Releases, repeats and
/// other keys do nothing.
pub proof fn law_button_press(
    filter: EventFilter,
    code: u16,
    value: i32,
    modifiers: ModifierState,
    eve_focused: bool,
)
    ensures
        ({
            let first = filter.first_step(1, code, value, modifiers);
            let direction = if code == filter.forward_button {
                CycleDirection::Forward
            } else {
                CycleDirection::Backward
            };
            if value != 1 || (code != filter.forward_button && code != filter.backward_button) {
                first == MouseStep::Ignore
            } else if filter.mode == MouseCycleMode::OnlyWhenEveFocused {
                first matches MouseStep::AskForeground(input) && filter.after_foreground(
                    input,
                    eve_focused,
                    modifiers,
                ) == if eve_focused {
                    MouseStep::Cycle(direction)
                } else {
                    MouseStep::Ignore
                }
            } else {
                first == MouseStep::Cycle(direction)
            }
        }),
{
}

/// A turn of the wheel, which is a movement along axis 8, comes to the clock
/// with its distance when the wheel is on, the mode is not `Never`, its modifier
/// is held and, in the mode that asks for it, a client has the focus. In every
/// other case it does nothing, as does a movement along any other axis.
pub proof fn law_wheel_turn(
    filter: EventFilter,
    code: u16,
    value: i32,
    modifiers: ModifierState,
    eve_focused: bool,
)
    ensures
        ({
            let first = filter.first_step(2, code, value, modifiers);
            let held = (filter.wheel_modifier == 0x10 && modifiers.shift) || (filter.wheel_modifier
                == 0x11 && modifiers.ctrl) || (filter.wheel_modifier == 0x12 && modifiers.alt);
            if code != 8 || !filter.wheel_enabled || filter.mode == MouseCycleMode::Never {
                first == MouseStep::Ignore
            } else if filter.mode == MouseCycleMode::OnlyWhenEveFocused {
                first matches MouseStep::AskForeground(input) && filter.after_foreground(
                    input,
                    eve_focused,
                    modifiers,
                ) == if eve_focused && held {
                    MouseStep::AskClock { delta: value }
                } else {
                    MouseStep::Ignore
                }
            } else {
                first == if held {
                    MouseStep::AskClock { delta: value }
                } else {
                    MouseStep::Ignore
                }
            }
        }),
{
}

/// Events that are neither of keys nor of relative axes do nothing.
pub proof fn law_other_events_do_nothing(
    filter: EventFilter,
    event_type: u16,
    code: u16,
    value: i32,
    modifiers: ModifierState,
)
    requires
        event_type != 1,
        event_type != 2,
    ensures
        filter.first_step(event_type, code, value, modifiers) == MouseStep::Ignore,
{
}

/// A turn of the wheel counts when it is the first, or when 80 milliseconds or
/// more have passed since the last that counted, however many: it then cycles
/// forward when turned up and backward when turned down, and its time is noted.
/// Before that it does nothing and changes nothing.
pub proof fn law_wheel_cycles_once_due(filter: EventFilter, delta: i32, now: u128)
    ensures
        filter.last_wheel is None || now >= filter.last_wheel->0 + 80_000_000 ==> {
            let (after, step) = filter.after_clock(delta, now);
            &&& after == (EventFilter {
                mode: filter.mode,
                forward_button: filter.forward_button,
                backward_button: filter.backward_button,
                wheel_enabled: filter.wheel_enabled,
                wheel_modifier: filter.wheel_modifier,
                last_wheel: Some(now),
            })
            &&& delta > 0 ==> step == MouseStep::Cycle(CycleDirection::Forward)
            &&& delta < 0 ==> step == MouseStep::Cycle(CycleDirection::Backward)
            &&& delta == 0 ==> step == MouseStep::Ignore
        },
        filter.last_wheel is Some && now < filter.last_wheel->0 + 80_000_000 ==> filter.after_clock(
            delta,
            now,
        ) == (filter, MouseStep::Ignore),
{
}

/// The text of an optional string is the text of the string, where there is
/// one.
pub proof fn law_text_of_optional_strings(s: String)
    ensures
        text_of(Some(s)) == Some(s@),
        text_of(None) is None,
{
}

} // verus!
