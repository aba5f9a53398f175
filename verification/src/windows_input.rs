//! The low-level mouse hook.
//!
//! The hook sees every mouse event first and posts messages to the listener
//! thread. It is written as a chain of decisions: the caller makes the system
//! call that a step asks for and hands the answer back.

use crate::bits::{high_word, high_word_signed, low_bits, sign_bit};
use crate::config::{Config, MouseCycleMode};
use crate::keys::VK_SHIFT;
use vstd::prelude::*;

verus! {

pub const WM_XBUTTONDOWN: u32 = 0x020B;

pub const WM_MOUSEWHEEL: u32 = 0x020A;

pub const WM_USER: u32 = 0x0400;

pub const WM_USER_FORWARD: u32 = WM_USER + 1;

pub const WM_USER_BACKWARD: u32 = WM_USER + 2;

/// At least this many milliseconds lie between two wheel steps. Drivers may
/// send several wheel events for one detent.
pub const WHEEL_DEBOUNCE_MS: u64 = 80;

/// What the hook needs to know of the listener: which buttons cycle, and the
/// thread to post to.
#[derive(Clone, Copy, Debug, PartialEq, Eq, Structural)]
pub struct HookContext {
    pub forward_button: u16,
    pub backward_button: u16,
    pub listener_thread_id: u32,
}

/// The state of the mouse hook. All but `context` can be changed while the
/// hook is installed.
#[derive(Clone, Copy, Debug, PartialEq, Eq, Structural)]
pub struct MouseHook {
    pub mode: MouseCycleMode,
    pub wheel_enabled: bool,
    /// The virtual key that has to be held for the wheel to cycle.
    pub wheel_modifier: u16,
    /// When the wheel last cycled, in milliseconds.
    pub last_fire_ms: u64,
    pub context: Option<HookContext>,
}

/// A message for the queue of a thread.
#[derive(Clone, Copy, Debug, PartialEq, Eq, Structural)]
pub struct ThreadMessage {
    pub thread_id: u32,
    pub message: u32,
}

/// The part of a mouse event that the hook acts on: the number of the side
/// button, or the distance that the wheel was turned.
#[derive(Clone, Copy, Debug, PartialEq, Eq, Structural)]
pub enum HookInput {
    XButton(u16),
    Wheel(i16),
}

/// What becomes of a mouse event: the message to post, if any, and whether
/// the event is kept from the focused application.
#[derive(Clone, Copy, Debug, PartialEq, Eq, Structural)]
pub struct HookVerdict {
    pub post: Option<ThreadMessage>,
    pub swallow: bool,
}

/// What the hook needs next.
#[derive(Clone, Copy, Debug, PartialEq, Eq, Structural)]
pub enum HookStep {
    /// Whether a client has the focus; answer with `foreground_answer`.
    AskForeground(HookInput),
    /// The state of the key `vk`; answer with `key_answer`.
    AskKey { vk: u16, delta: i16 },
    /// The time; answer with `clock_answer`.
    AskClock { delta: i16 },
    Finish(HookVerdict),
}

/// The event goes on to the application and nothing is posted.
pub open spec fn pass_on() -> HookVerdict {
    HookVerdict { post: None, swallow: false }
}

/// The message that a side button posts.
pub open spec fn button_post(context: Option<HookContext>, button: u16) -> Option<ThreadMessage> {
    match context {
        None => None,
        Some(ctx) => if button == ctx.forward_button {
            Some(ThreadMessage { thread_id: ctx.listener_thread_id, message: WM_USER_FORWARD })
        } else if button == ctx.backward_button {
            Some(ThreadMessage { thread_id: ctx.listener_thread_id, message: WM_USER_BACKWARD })
        } else {
            None
        },
    }
}

/// The message that a turn of the wheel posts: up is forward.
pub open spec fn wheel_post(context: Option<HookContext>, delta: int) -> Option<ThreadMessage> {
    match context {
        None => None,
        Some(ctx) => Some(
            ThreadMessage {
                thread_id: ctx.listener_thread_id,
                message: if delta > 0 {
                    WM_USER_FORWARD
                } else {
                    WM_USER_BACKWARD
                },
            },
        ),
    }
}

/// Less than the debounce time has passed since `last`. A clock that was set
/// back counts as no time.
pub open spec fn debounced(last: u64, now: u64) -> bool {
    now - last < WHEEL_DEBOUNCE_MS
}

impl MouseHook {
    /// The step that follows once the cycle mode admits the event.
    pub open spec fn dispatched(self, input: HookInput) -> HookStep {
        match input {
            HookInput::XButton(button) => HookStep::Finish(
                HookVerdict { post: button_post(self.context, button), swallow: false },
            ),
            HookInput::Wheel(delta) => HookStep::AskKey { vk: self.wheel_modifier, delta },
        }
    }

    /// The step that follows once the event is known to be one to act on.
    pub open spec fn gated(self, input: HookInput) -> HookStep {
        match self.mode {
            MouseCycleMode::Never => HookStep::Finish(pass_on()),
            MouseCycleMode::OnlyWhenEveFocused => HookStep::AskForeground(input),
            MouseCycleMode::Always => self.dispatched(input),
        }
    }

    /// The input that an event carries for this hook, if any.
    pub open spec fn input_of(self, code: i32, wparam: usize, mouse_data: u32) -> Option<HookInput> {
        let event = wparam as int % 0x1_0000_0000;
        if code < 0 {
            None
        } else if event == WM_XBUTTONDOWN {
            Some(HookInput::XButton((mouse_data / 0x1_0000) as u16))
        } else if event == WM_MOUSEWHEEL && self.wheel_enabled {
            Some(HookInput::Wheel(crate::bits::signed_word(mouse_data as int / 0x1_0000) as i16))
        } else {
            None
        }
    }

    pub open spec fn first_step(self, code: i32, wparam: usize, mouse_data: u32) -> HookStep {
        match self.input_of(code, wparam, mouse_data) {
            None => HookStep::Finish(pass_on()),
            Some(input) => self.gated(input),
        }
    }

    pub open spec fn after_foreground(self, input: HookInput, eve_focused: bool) -> HookStep {
        if eve_focused {
            self.dispatched(input)
        } else {
            HookStep::Finish(pass_on())
        }
    }

    pub open spec fn after_key(self, delta: i16, key_state: i16) -> HookStep {
        if key_state < 0 {
            HookStep::AskClock { delta }
        } else {
            HookStep::Finish(pass_on())
        }
    }

    pub open spec fn after_clock(self, delta: i16, now_ms: u64) -> (MouseHook, HookVerdict) {
        if debounced(self.last_fire_ms, now_ms) {
            (self, HookVerdict { post: None, swallow: true })
        } else {
            (
                MouseHook { last_fire_ms: now_ms, ..self },
                HookVerdict { post: wheel_post(self.context, delta as int), swallow: true },
            )
        }
    }

    /// The whole course of one event when the questions that are asked are
    /// answered with `eve_focused`, `key_state` and `now_ms`.
    pub open spec fn run(
        self,
        code: i32,
        wparam: usize,
        mouse_data: u32,
        eve_focused: bool,
        key_state: i16,
        now_ms: u64,
    ) -> (MouseHook, HookVerdict) {
        let start = self.first_step(code, wparam, mouse_data);
        let known_focus = match start {
            HookStep::AskForeground(input) => self.after_foreground(input, eve_focused),
            _ => start,
        };
        let known_key = match known_focus {
            HookStep::AskKey { vk, delta } => self.after_key(delta, key_state),
            _ => known_focus,
        };
        match known_key {
            HookStep::AskClock { delta } => self.after_clock(delta, now_ms),
            HookStep::Finish(verdict) => (self, verdict),
            _ => (self, pass_on()),
        }
    }

    /// The state before anything was configured.
    pub fn new() -> (hook: MouseHook)
        ensures
            hook == (MouseHook {
                mode: MouseCycleMode::Never,
                wheel_enabled: false,
                wheel_modifier: VK_SHIFT,
                last_fire_ms: 0,
                context: None,
            }),
    {
        MouseHook {
            mode: MouseCycleMode::Never,
            wheel_enabled: false,
            wheel_modifier: VK_SHIFT,
            last_fire_ms: 0,
            context: None,
        }
    }

    /// Takes over the settings when a listener starts. The context stays that
    /// of the first listener.
    pub fn configure(&mut self, config: &Config, listener_thread_id: u32)
        ensures
            *final(self) == (MouseHook {
                mode: config.mouse_cycle_mode,
                wheel_enabled: config.enable_wheel_cycle,
                wheel_modifier: config.wheel_cycle_modifier,
                last_fire_ms: old(self).last_fire_ms,
                context: match old(self).context {
                    Some(ctx) => Some(ctx),
                    None => Some(
                        HookContext {
                            forward_button: config.forward_button,
                            backward_button: config.backward_button,
                            listener_thread_id,
                        },
                    ),
                },
            }),
    {
        if self.context.is_none() {
            self.context = Some(
                HookContext {
                    forward_button: config.forward_button,
                    backward_button: config.backward_button,
                    listener_thread_id,
                },
            );
        }
        self.mode = config.mouse_cycle_mode;
        self.wheel_enabled = config.enable_wheel_cycle;
        self.wheel_modifier = config.wheel_cycle_modifier;
    }

    fn dispatch(&self, input: HookInput) -> (step: HookStep)
        ensures
            step == self.dispatched(input),
    {
        match input {
            HookInput::XButton(button) => {
                let post = match self.context {
                    None => None,
                    Some(ctx) => if button == ctx.forward_button {
                        Some(
                            ThreadMessage {
                                thread_id: ctx.listener_thread_id,
                                message: WM_USER_FORWARD,
                            },
                        )
                    } else if button == ctx.backward_button {
                        Some(
                            ThreadMessage {
                                thread_id: ctx.listener_thread_id,
                                message: WM_USER_BACKWARD,
                            },
                        )
                    } else {
                        None
                    },
                };
                HookStep::Finish(HookVerdict { post, swallow: false })
            },
            HookInput::Wheel(delta) => HookStep::AskKey { vk: self.wheel_modifier, delta },
        }
    }

    /// Starts on a mouse event. `code` and `wparam` are those of the hook
    /// call; `mouse_data` is the field of that name in the event record, and
    /// may be anything when `code` is negative.
    pub fn mouse_hook_proc(&self, code: i32, wparam: usize, mouse_data: u32) -> (step: HookStep)
        ensures
            step == self.first_step(code, wparam, mouse_data),
    {
        if code < 0 {
            return HookStep::Finish(HookVerdict { post: None, swallow: false });
        }
        let event: u32 = low_bits(wparam);
        let input = if event == WM_XBUTTONDOWN {
            HookInput::XButton(high_word(mouse_data))
        } else if event == WM_MOUSEWHEEL && self.wheel_enabled {
            HookInput::Wheel(high_word_signed(mouse_data))
        } else {
            return HookStep::Finish(HookVerdict { post: None, swallow: false });
        };
        match self.mode {
            MouseCycleMode::Never => HookStep::Finish(HookVerdict { post: None, swallow: false }),
            MouseCycleMode::OnlyWhenEveFocused => HookStep::AskForeground(input),
            MouseCycleMode::Always => self.dispatch(input),
        }
    }

    /// Goes on once it is known whether a client has the focus.
    pub fn foreground_answer(&self, input: HookInput, eve_focused: bool) -> (step: HookStep)
        ensures
            step == self.after_foreground(input, eve_focused),
    {
        if eve_focused {
            self.dispatch(input)
        } else {
            HookStep::Finish(HookVerdict { post: None, swallow: false })
        }
    }

    /// Goes on once the state of the modifier key is known. The sign bit says
    /// that the key is down.
    pub fn key_answer(&self, delta: i16, key_state: i16) -> (step: HookStep)
        ensures
            step == self.after_key(delta, key_state),
    {
        if sign_bit(key_state) {
            HookStep::AskClock { delta }
        } else {
            HookStep::Finish(HookVerdict { post: None, swallow: false })
        }
    }

    /// Ends a wheel event. Within the debounce time the event is still kept
    /// from the application, so that it does not scroll meanwhile.
    pub fn clock_answer(&mut self, delta: i16, now_ms: u64) -> (verdict: HookVerdict)
        ensures
            (*final(self), verdict) == old(self).after_clock(delta, now_ms),
    {
        if now_ms.saturating_sub(self.last_fire_ms) < WHEEL_DEBOUNCE_MS {
            return HookVerdict { post: None, swallow: true };
        }
        self.last_fire_ms = now_ms;
        let post = match self.context {
            None => None,
            Some(ctx) => Some(
                ThreadMessage {
                    thread_id: ctx.listener_thread_id,
                    message: if delta > 0 {
                        WM_USER_FORWARD
                    } else {
                        WM_USER_BACKWARD
                    },
                },
            ),
        };
        HookVerdict { post, swallow: true }
    }
}

/// Changes when mouse input may cycle.
pub fn set_mouse_cycle_mode(hook: &mut MouseHook, mode: MouseCycleMode)
    ensures
        *final(hook) == (MouseHook { mode, ..*old(hook) }),
{
    hook.mode = mode;
}

/// Switches cycling by the wheel on or off.
pub fn set_wheel_cycle_enabled(hook: &mut MouseHook, enabled: bool)
    ensures
        *final(hook) == (MouseHook { wheel_enabled: enabled, ..*old(hook) }),
{
    hook.wheel_enabled = enabled;
}

/// Changes the key that has to be held for the wheel to cycle.
pub fn set_wheel_cycle_modifier(hook: &mut MouseHook, vk: u16)
    ensures
        *final(hook) == (MouseHook { wheel_modifier: vk, ..*old(hook) }),
{
    hook.wheel_modifier = vk;
}

/// One event from start to end: a side button posts its message when the
/// cycle mode admits it, and always goes on to the application. The wheel acts
/// when the mode admits it and the modifier is down; it is then kept from the
/// application, and posts unless the debounce time has not passed yet. Any
/// other event goes on and changes nothing.
pub proof fn law_course_of_an_event(
    hook: MouseHook,
    code: i32,
    wparam: usize,
    mouse_data: u32,
    eve_focused: bool,
    key_state: i16,
    now_ms: u64,
)
    ensures
        hook.run(code, wparam, mouse_data, eve_focused, key_state, now_ms) == match hook.input_of(
            code,
            wparam,
            mouse_data,
        ) {
            None => (hook, pass_on()),
            Some(HookInput::XButton(button)) => (
                hook,
                HookVerdict {
                    post: if hook.mode.admits(eve_focused) {
                        button_post(hook.context, button)
                    } else {
                        None
                    },
                    swallow: false,
                },
            ),
            Some(HookInput::Wheel(delta)) => if !hook.mode.admits(eve_focused) || key_state >= 0 {
                (hook, pass_on())
            } else if debounced(hook.last_fire_ms, now_ms) {
                (hook, HookVerdict { post: None, swallow: true })
            } else {
                (
                    MouseHook { last_fire_ms: now_ms, ..hook },
                    HookVerdict { post: wheel_post(hook.context, delta as int), swallow: true },
                )
            },
        },
{
}

/// In mode `Never` no event posts anything, is swallowed or leaves a trace.
pub proof fn law_never_mode_is_inert(
    hook: MouseHook,
    code: i32,
    wparam: usize,
    mouse_data: u32,
    eve_focused: bool,
    key_state: i16,
    now_ms: u64,
)
    requires
        hook.mode == MouseCycleMode::Never,
    ensures
        hook.run(code, wparam, mouse_data, eve_focused, key_state, now_ms) == (hook, pass_on()),
{
}

/// A mouse event with the answers to the questions that it may raise.
pub struct AnsweredEvent {
    pub code: i32,
    pub wparam: usize,
    pub mouse_data: u32,
    pub eve_focused: bool,
    pub key_state: i16,
    pub now_ms: u64,
}

impl MouseHook {
    /// The course of one event, as `run` gives it.
    pub open spec fn run_event(self, event: AnsweredEvent) -> (MouseHook, HookVerdict) {
        self.run(
            event.code,
            event.wparam,
            event.mouse_data,
            event.eve_focused,
            event.key_state,
            event.now_ms,
        )
    }

    /// The state after `events`.
    pub open spec fn after_events(self, events: Seq<AnsweredEvent>) -> MouseHook
        decreases events.len(),
    {
        if events.len() == 0 {
            self
        } else {
            self.after_events(events.drop_last()).run_event(events.last()).0
        }
    }

    /// Event `i` of `events` is a turn of the wheel that posts.
    pub open spec fn wheel_posts(self, events: Seq<AnsweredEvent>, i: int) -> bool {
        let verdict = self.after_events(events.take(i)).run_event(events[i]).1;
        0 <= i < events.len() && verdict.swallow && verdict.post is Some
    }
}

proof fn lemma_last_fire_grows(hook: MouseHook, events: Seq<AnsweredEvent>, i: int)
    requires
        0 <= i <= events.len(),
    ensures
        hook.after_events(events.take(i)).last_fire_ms <= hook.after_events(events).last_fire_ms,
    decreases events.len() - i,
{
    if i < events.len() {
        lemma_last_fire_grows(hook, events, i + 1);
        assert(events.take(i + 1).drop_last() =~= events.take(i));
    } else {
        assert(events.take(i) =~= events);
    }
}

/// However many events lie between them, two turns of the wheel that post lie
/// at least the debounce time apart.
pub proof fn law_wheel_steps_are_spaced(
    hook: MouseHook,
    events: Seq<AnsweredEvent>,
    i: int,
    j: int,
)
    requires
        i < j,
        hook.wheel_posts(events, i),
        hook.wheel_posts(events, j),
    ensures
        events[j].now_ms >= events[i].now_ms + WHEEL_DEBOUNCE_MS,
{
    let upto = events.take(j);
    assert(upto.take(i + 1) =~= events.take(i + 1));
    assert(events.take(i + 1).drop_last() =~= events.take(i));
    lemma_last_fire_grows(hook, upto, i + 1);
}

/// A press of a side button goes on to the application in any case. In mode
/// `Never` it posts nothing; in mode `Always` it posts forward for the forward
/// button and else backward for the backward button, to the listener; in the
/// remaining mode it does so when a client has the focus and posts nothing
/// otherwise.
pub proof fn law_side_button(
    hook: MouseHook,
    code: i32,
    wparam: usize,
    mouse_data: u32,
    eve_focused: bool,
)
    requires
        code >= 0,
        wparam as int % 0x1_0000_0000 == 0x020B,
    ensures
        ({
            let button = mouse_data as int / 0x1_0000;
            let first = hook.first_step(code, wparam, mouse_data);
            let nothing = HookStep::Finish(HookVerdict { post: None, swallow: false });
            let posted = HookStep::Finish(
                HookVerdict {
                    post: match hook.context {
                        None => None,
                        Some(c) => if button == c.forward_button as int {
                            Some(ThreadMessage { thread_id: c.listener_thread_id, message: 0x0401 })
                        } else if button == c.backward_button as int {
                            Some(ThreadMessage { thread_id: c.listener_thread_id, message: 0x0402 })
                        } else {
                            None
                        },
                    },
                    swallow: false,
                },
            );
            match hook.mode {
                MouseCycleMode::Never => first == nothing,
                MouseCycleMode::Always => first == posted,
                MouseCycleMode::OnlyWhenEveFocused => first matches HookStep::AskForeground(input)
                    && hook.after_foreground(input, eve_focused) == if eve_focused {
                    posted
                } else {
                    nothing
                },
            }
        }),
{
}

/// A turn of the wheel goes on untouched where the wheel is off or the mode
/// does not admit it. Otherwise the modifier key is asked for, with the distance
/// turned, which is the signed high half of the event's data.
pub proof fn law_wheel_turn(
    hook: MouseHook,
    code: i32,
    wparam: usize,
    mouse_data: u32,
    eve_focused: bool,
)
    requires
        code >= 0,
        wparam as int % 0x1_0000_0000 == 0x020A,
    ensures
        ({
            let first = hook.first_step(code, wparam, mouse_data);
            let nothing = HookStep::Finish(HookVerdict { post: None, swallow: false });
            let high = mouse_data as int / 0x1_0000;
            if !hook.wheel_enabled || hook.mode == MouseCycleMode::Never {
                first == nothing
            } else {
                let known = if hook.mode == MouseCycleMode::OnlyWhenEveFocused {
                    hook.after_foreground(first->AskForeground_0, eve_focused)
                } else {
                    first
                };
                &&& hook.mode == MouseCycleMode::OnlyWhenEveFocused ==> first is AskForeground
                &&& hook.mode == MouseCycleMode::OnlyWhenEveFocused && !eve_focused ==> known == nothing
                &&& hook.mode == MouseCycleMode::Always || eve_focused ==> {
                    &&& known matches HookStep::AskKey { vk, delta }
                    &&& vk == hook.wheel_modifier
                    &&& delta as int == high || delta as int == high - 0x1_0000
                }
            }
        }),
{
}

/// Every other event goes on untouched, and so does every event of a negative
/// code.
pub proof fn law_other_events_go_on(hook: MouseHook, code: i32, wparam: usize, mouse_data: u32)
    requires
        code < 0 || (wparam as int % 0x1_0000_0000 != 0x020A && wparam as int % 0x1_0000_0000
            != 0x020B),
    ensures
        hook.first_step(code, wparam, mouse_data) == HookStep::Finish(
            HookVerdict { post: None, swallow: false },
        ),
{
}

/// The wheel does nothing unless its modifier key is down, which the sign of
/// the key state says.
pub proof fn law_wheel_needs_its_modifier(hook: MouseHook, delta: i16, key_state: i16)
    ensures
        key_state < 0 ==> hook.after_key(delta, key_state) == (HookStep::AskClock { delta }),
        key_state >= 0 ==> hook.after_key(delta, key_state) == HookStep::Finish(
            HookVerdict { post: None, swallow: false },
        ),
{
}

/// Once the modifier is known to be down, a turn of the wheel is always kept
/// from the application. When 80 milliseconds or more have passed since the
/// last one that counted, however many, it counts: it posts to the listener,
/// forward when turned up and else backward, and its time is noted. Before
/// that it posts nothing and changes nothing.
pub proof fn law_wheel_posts_once_due(hook: MouseHook, delta: i16, now_ms: u64)
    ensures
        hook.after_clock(delta, now_ms).1.swallow,
        now_ms >= hook.last_fire_ms + 80 ==> {
            let (after, verdict) = hook.after_clock(delta, now_ms);
            &&& after.last_fire_ms == now_ms
            &&& after.mode == hook.mode
            &&& after.wheel_enabled == hook.wheel_enabled
            &&& after.wheel_modifier == hook.wheel_modifier
            &&& after.context == hook.context
            &&& hook.context is None ==> verdict.post is None
            &&& hook.context matches Some(c) ==> {
                &&& verdict.post is Some
                &&& verdict.post->0.thread_id == c.listener_thread_id
                &&& delta > 0 ==> verdict.post->0.message == 0x0401
                &&& delta <= 0 ==> verdict.post->0.message == 0x0402
            }
        },
        now_ms < hook.last_fire_ms + 80 ==> {
            &&& hook.after_clock(delta, now_ms).0 == hook
            &&& hook.after_clock(delta, now_ms).1.post is None
        },
{
}

/// The wheel cycles: with the wheel on, a listener to post to, a mode that
/// admits the event and the modifier down, a turn of the wheel from event to
/// verdict posts as soon as 80 milliseconds have passed since the last one that
/// counted, and is then the last one that counted.
pub proof fn law_wheel_cycles_when_due(
    hook: MouseHook,
    code: i32,
    wparam: usize,
    mouse_data: u32,
    eve_focused: bool,
    key_state: i16,
    now_ms: u64,
)
    requires
        code >= 0,
        wparam as int % 0x1_0000_0000 == 0x020A,
        hook.wheel_enabled,
        hook.context is Some,
        hook.mode == MouseCycleMode::Always || (hook.mode == MouseCycleMode::OnlyWhenEveFocused
            && eve_focused),
        key_state < 0,
        now_ms >= hook.last_fire_ms + 80,
    ensures
        ({
            let (after, verdict) = hook.run(
                code,
                wparam,
                mouse_data,
                eve_focused,
                key_state,
                now_ms,
            );
            let turned_up = 0 < mouse_data as int / 0x1_0000 < 0x8000;
            &&& verdict.swallow
            &&& verdict.post == Some(
                ThreadMessage {
                    thread_id: hook.context->0.listener_thread_id,
                    message: if turned_up {
                        0x0401
                    } else {
                        0x0402
                    },
                },
            )
            &&& after.last_fire_ms == now_ms
        }),
{
}

} // verus!
