//! Global hotkeys: which ones to register for a configuration, and what the
//! listener thread does with the messages that reach it.

use crate::bits::low_bits_signed;
use crate::config::{CharacterHotkey, Config};
use crate::cycle::{CycleDirection, CycleRun};
use crate::keys::{
    VK_CONTROL, VK_LCONTROL, VK_LMENU, VK_LSHIFT, VK_MENU, VK_RCONTROL, VK_RMENU, VK_RSHIFT, VK_SHIFT,
};
use crate::windows_input::{ThreadMessage, WM_USER, WM_USER_BACKWARD, WM_USER_FORWARD};
use std::collections::HashMap;
use vstd::prelude::*;

verus! {

pub const HOTKEY_FORWARD_ID: i32 = 1001;

pub const HOTKEY_BACKWARD_ID: i32 = 1002;

/// Toggles the visibility of the previews.
pub const HOTKEY_PREVIEW_TOGGLE_ID: i32 = 1003;

/// The ids of the character hotkeys start here, one for each bound character
/// in the order in which the configuration lists them.
pub const HOTKEY_CHARACTER_BASE: i32 = 2000;

pub const WM_HOTKEY: u32 = 0x0312;

pub const WM_USER_PAUSE: u32 = WM_USER + 3;

pub const WM_USER_RESUME: u32 = WM_USER + 4;

pub const MOD_ALT: u32 = 1;

pub const MOD_CONTROL: u32 = 2;

pub const MOD_SHIFT: u32 = 4;

/// The hotkey modifier that a virtual key stands for, zero for a key that is
/// no modifier.
pub open spec fn modifier_bits(vk: u16) -> u32 {
    if vk == VK_SHIFT || vk == VK_LSHIFT || vk == VK_RSHIFT {
        MOD_SHIFT
    } else if vk == VK_CONTROL || vk == VK_LCONTROL || vk == VK_RCONTROL {
        MOD_CONTROL
    } else if vk == VK_MENU || vk == VK_LMENU || vk == VK_RMENU {
        MOD_ALT
    } else {
        0
    }
}

/// The modifier of an optional key, zero for none.
pub open spec fn optional_modifier_bits(vk: Option<u16>) -> u32 {
    match vk {
        Some(vk) => modifier_bits(vk),
        None => 0,
    }
}

/// One hotkey to register. `character` names the character that it jumps to.
#[derive(Debug)]
pub struct HotkeyRegistration {
    pub id: i32,
    pub modifiers: u32,
    pub vk: u32,
    pub character: Option<String>,
}

/// A registration with its name as a sequence of characters.
pub struct RegistrationView {
    pub id: i32,
    pub modifiers: u32,
    pub vk: u32,
    pub character: Option<Seq<char>>,
}

impl View for HotkeyRegistration {
    type V = RegistrationView;

    open spec fn view(&self) -> RegistrationView {
        RegistrationView {
            id: self.id,
            modifiers: self.modifiers,
            vk: self.vk,
            character: match self.character {
                Some(name) => Some(name@),
                None => None,
            },
        }
    }
}

pub open spec fn views(plan: Seq<HotkeyRegistration>) -> Seq<RegistrationView> {
    plan.map_values(|r: HotkeyRegistration| r@)
}

/// The cycle hotkeys: forward without a modifier; backward under its own key
/// without one, or under the same key with the configured modifier, where
/// there is a usable one.
pub open spec fn cycle_registrations(config: Config) -> Seq<RegistrationView> {
    let forward = RegistrationView {
        id: HOTKEY_FORWARD_ID,
        modifiers: 0,
        vk: config.forward_key as u32,
        character: None,
    };
    let modifiers = if config.forward_key == config.backward_key {
        optional_modifier_bits(config.modifier_key)
    } else {
        0
    };
    let backward = RegistrationView {
        id: HOTKEY_BACKWARD_ID,
        modifiers,
        vk: config.backward_key as u32,
        character: None,
    };
    if !config.enable_keyboard_buttons {
        seq![]
    } else if config.forward_key != config.backward_key || modifiers != 0 {
        seq![forward, backward]
    } else {
        seq![forward]
    }
}

/// The hotkey that toggles the previews, unless its key is zero.
pub open spec fn toggle_registrations(config: Config) -> Seq<RegistrationView> {
    if config.preview_toggle_key != 0 {
        seq![
            RegistrationView {
                id: HOTKEY_PREVIEW_TOGGLE_ID,
                modifiers: optional_modifier_bits(config.preview_toggle_modifier),
                vk: config.preview_toggle_key as u32,
                character: None,
            },
        ]
    } else {
        seq![]
    }
}

/// The character has a hotkey with a captured key.
pub open spec fn is_bound(hotkeys: Map<Seq<char>, CharacterHotkey>, name: Seq<char>) -> bool {
    hotkeys.contains_key(name) && hotkeys[name].vk != 0
}

/// The hotkeys of the listed characters that are bound, numbered in order.
pub open spec fn character_registrations(
    names: Seq<String>,
    hotkeys: Map<Seq<char>, CharacterHotkey>,
) -> Seq<RegistrationView>
    decreases names.len(),
{
    if names.len() == 0 {
        seq![]
    } else {
        let before = character_registrations(names.drop_last(), hotkeys);
        let name = names.last()@;
        if is_bound(hotkeys, name) {
            before.push(
                RegistrationView {
                    id: (HOTKEY_CHARACTER_BASE + before.len()) as i32,
                    modifiers: optional_modifier_bits(hotkeys[name].modifier),
                    vk: hotkeys[name].vk as u32,
                    character: Some(name),
                },
            )
        } else {
            before
        }
    }
}

/// All hotkeys of a configuration.
pub open spec fn registrations(config: Config) -> Seq<RegistrationView> {
    cycle_registrations(config) + toggle_registrations(config) + character_registrations(
        config.characters@,
        config.character_hotkeys@,
    )
}

/// The ids of all character hotkeys are 32-bit numbers.
pub open spec fn ids_fit(config: Config) -> bool {
    HOTKEY_CHARACTER_BASE + character_registrations(
        config.characters@,
        config.character_hotkeys@,
    ).len() <= i32::MAX
}

pub fn vk_to_modifier(vk: u16) -> (modifiers: u32)
    ensures
        modifiers == modifier_bits(vk),
{
    if vk == VK_SHIFT || vk == VK_LSHIFT || vk == VK_RSHIFT {
        MOD_SHIFT
    } else if vk == VK_CONTROL || vk == VK_LCONTROL || vk == VK_RCONTROL {
        MOD_CONTROL
    } else if vk == VK_MENU || vk == VK_LMENU || vk == VK_RMENU {
        MOD_ALT
    } else {
        0
    }
}

fn optional_modifier(vk: Option<u16>) -> (modifiers: u32)
    ensures
        modifiers == optional_modifier_bits(vk),
{
    match vk {
        Some(vk) => vk_to_modifier(vk),
        None => 0,
    }
}

/// The hotkeys to register for a configuration, in order. The caller
/// registers them one by one; a key that another application owns fails, and
/// the others still count. The outcomes go to `record_registrations`.
pub fn register_hotkeys(config: &Config) -> (plan: Vec<HotkeyRegistration>)
    requires
        ids_fit(*config),
    ensures
        views(plan@) == registrations(*config),
{
    let mut plan: Vec<HotkeyRegistration> = Vec::new();
    if config.enable_keyboard_buttons {
        plan.push(
            HotkeyRegistration {
                id: HOTKEY_FORWARD_ID,
                modifiers: 0,
                vk: config.forward_key as u32,
                character: None,
            },
        );
        let modifiers: u32 = if config.forward_key == config.backward_key {
            optional_modifier(config.modifier_key)
        } else {
            0
        };
        if config.forward_key != config.backward_key || modifiers != 0 {
            plan.push(
                HotkeyRegistration {
                    id: HOTKEY_BACKWARD_ID,
                    modifiers,
                    vk: config.backward_key as u32,
                    character: None,
                },
            );
        }
    }
    assert(views(plan@) =~= cycle_registrations(*config));
    if config.preview_toggle_key != 0 {
        plan.push(
            HotkeyRegistration {
                id: HOTKEY_PREVIEW_TOGGLE_ID,
                modifiers: optional_modifier(config.preview_toggle_modifier),
                vk: config.preview_toggle_key as u32,
                character: None,
            },
        );
    }
    let ghost fixed = cycle_registrations(*config) + toggle_registrations(*config);
    assert(views(plan@) =~= fixed);
    let mut next_id: i32 = HOTKEY_CHARACTER_BASE;
    let n: usize = config.characters.len();
    assert(config.characters@.take(0) =~= Seq::<String>::empty());
    for k in 0..n
        invariant
            n == config.characters.len(),
            ids_fit(*config),
            views(plan@) =~= fixed + character_registrations(
                config.characters@.take(k as int),
                config.character_hotkeys@,
            ),
            next_id == HOTKEY_CHARACTER_BASE + character_registrations(
                config.characters@.take(k as int),
                config.character_hotkeys@,
            ).len(),
            next_id <= i32::MAX,
    {
        let ghost upto = config.characters@.take(k as int + 1);
        let ghost before = plan@;
        proof {
            assert(upto.drop_last() =~= config.characters@.take(k as int));
            lemma_registrations_keep(config.characters@, config.character_hotkeys@, k as int + 1);
        }
        if let Some(hotkey) = config.character_hotkeys.get(&config.characters[k]) {
            if hotkey.vk != 0 {
                plan.push(
                    HotkeyRegistration {
                        id: next_id,
                        modifiers: optional_modifier(hotkey.modifier),
                        vk: hotkey.vk as u32,
                        character: Some(config.characters[k].clone()),
                    },
                );
                next_id = next_id + 1;
                assert(views(plan@) =~= views(before).push(plan@.last()@));
            }
        }
    }
    assert(config.characters@.take(n as int) =~= config.characters@);
    plan
}

/// Whether there is an id for every character hotkey of the configuration.
pub fn is_in_id_range(config: &Config) -> (fits: bool)
    ensures
        fits == ids_fit(*config),
{
    let n: usize = config.characters.len();
    let mut bound: usize = 0;
    assert(config.characters@.take(0) =~= Seq::<String>::empty());
    for k in 0..n
        invariant
            n == config.characters.len(),
            bound <= k,
            bound == character_registrations(
                config.characters@.take(k as int),
                config.character_hotkeys@,
            ).len(),
    {
        assert(config.characters@.take(k as int + 1).drop_last() =~= config.characters@.take(
            k as int,
        ));
        if let Some(hotkey) = config.character_hotkeys.get(&config.characters[k]) {
            if hotkey.vk != 0 {
                bound = bound + 1;
            }
        }
    }
    assert(config.characters@.take(n as int) =~= config.characters@);
    bound <= (i32::MAX - HOTKEY_CHARACTER_BASE) as usize
}

/// The names under which character hotkeys were registered, by id.
pub open spec fn recorded(plan: Seq<RegistrationView>, succeeded: Seq<bool>) -> Map<i32, Seq<char>>
    decreases plan.len(),
{
    if plan.len() == 0 {
        Map::empty()
    } else {
        let before = recorded(plan.drop_last(), succeeded);
        match plan.last().character {
            Some(name) if succeeded[plan.len() - 1] => before.insert(plan.last().id, name),
            _ => before,
        }
    }
}

/// The listener thread: its id, zero while it does not run; whether it acts
/// on hotkeys; and the character behind each registered character hotkey.
#[derive(Debug)]
pub struct HotkeyListener {
    pub thread_id: u32,
    pub paused: bool,
    pub characters: HashMap<i32, String>,
}

/// What the listener does about a message.
#[derive(Debug)]
pub enum ListenerAction {
    Ignore,
    /// Unregister these hotkeys.
    Unregister(Vec<i32>),
    /// Unregister these hotkeys, then read the configuration anew and register
    /// its hotkeys.
    Rebind(Vec<i32>),
    /// Show or hide the previews.
    TogglePreview,
    Cycle(CycleDirection),
    SwitchTo(String),
}

/// An action without the hotkeys to unregister.
pub enum ActionView {
    Ignore,
    Unregister,
    Rebind,
    TogglePreview,
    Cycle(CycleDirection),
    SwitchTo(Seq<char>),
}

impl View for ListenerAction {
    type V = ActionView;

    open spec fn view(&self) -> ActionView {
        match *self {
            ListenerAction::Ignore => ActionView::Ignore,
            ListenerAction::Unregister(_) => ActionView::Unregister,
            ListenerAction::Rebind(_) => ActionView::Rebind,
            ListenerAction::TogglePreview => ActionView::TogglePreview,
            ListenerAction::Cycle(direction) => ActionView::Cycle(direction),
            ListenerAction::SwitchTo(name) => ActionView::SwitchTo(name@),
        }
    }
}

/// What a message means to a listener.
pub open spec fn action_on(
    paused: bool,
    characters: Map<i32, Seq<char>>,
    message: u32,
    wparam: usize,
) -> ActionView {
    let hotkey = crate::bits::signed_low_bits(wparam as int);
    if message == WM_USER_PAUSE {
        ActionView::Unregister
    } else if message == WM_USER_RESUME {
        ActionView::Rebind
    } else if paused {
        ActionView::Ignore
    } else if message == WM_USER_FORWARD {
        ActionView::Cycle(CycleDirection::Forward)
    } else if message == WM_USER_BACKWARD {
        ActionView::Cycle(CycleDirection::Backward)
    } else if message != WM_HOTKEY {
        ActionView::Ignore
    } else if hotkey == HOTKEY_PREVIEW_TOGGLE_ID {
        ActionView::TogglePreview
    } else if hotkey == HOTKEY_FORWARD_ID {
        ActionView::Cycle(CycleDirection::Forward)
    } else if hotkey == HOTKEY_BACKWARD_ID {
        ActionView::Cycle(CycleDirection::Backward)
    } else if hotkey >= HOTKEY_CHARACTER_BASE && characters.contains_key(hotkey as i32) {
        ActionView::SwitchTo(characters[hotkey as i32])
    } else {
        ActionView::Ignore
    }
}

/// `ids` are the three fixed hotkeys, then the hotkeys of `characters`, each
/// once and in any order.
pub open spec fn lists_all(ids: Seq<i32>, characters: Map<i32, Seq<char>>) -> bool {
    &&& ids.len() >= 3
    &&& ids.take(3) =~= seq![HOTKEY_FORWARD_ID, HOTKEY_BACKWARD_ID, HOTKEY_PREVIEW_TOGGLE_ID]
    &&& ids.skip(3).no_duplicates()
    &&& ids.skip(3).to_set() == characters.dom()
}

impl HotkeyListener {
    /// The characters by the ids of their hotkeys.
    pub open spec fn names(self) -> Map<i32, Seq<char>> {
        self.characters@.map_values(|name: String| name@)
    }

    /// A listener that does not run yet.
    pub fn new() -> (listener: HotkeyListener)
        ensures
            listener.thread_id == 0,
            !listener.paused,
            listener.names() == Map::<i32, Seq<char>>::empty(),
    {
        let listener = HotkeyListener { thread_id: 0, paused: false, characters: HashMap::new() };
        assert(listener.names() =~= Map::<i32, Seq<char>>::empty());
        listener
    }

    /// Notes the outcome of the start in thread `thread_id`: the listener runs
    /// only when the mouse hook could be installed.
    pub fn start(&mut self, thread_id: u32, hook_installed: bool)
        ensures
            final(self).thread_id == if hook_installed {
                thread_id
            } else {
                0
            },
            final(self).paused == old(self).paused,
            final(self).names() == old(self).names(),
    {
        self.thread_id = if hook_installed {
            thread_id
        } else {
            0
        };
    }

    /// Notes that the listener has ended.
    pub fn stop(&mut self)
        ensures
            final(self).thread_id == 0,
            final(self).paused == old(self).paused,
            final(self).names() == old(self).names(),
    {
        self.thread_id = 0;
    }

    /// Replaces the known character hotkeys by those of `plan` whose
    /// registration succeeded.
    pub fn record_registrations(&mut self, plan: &Vec<HotkeyRegistration>, succeeded: &Vec<bool>)
        requires
            plan.len() == succeeded.len(),
        ensures
            final(self).names() == recorded(views(plan@), succeeded@),
            final(self).thread_id == old(self).thread_id,
            final(self).paused == old(self).paused,
    {
        broadcast use vstd::std_specs::hash::group_hash_axioms;

        self.characters.clear();
        let n: usize = plan.len();
        let ghost all = views(plan@);
        assert(self.names() =~= recorded(all.take(0), succeeded@));
        for k in 0..n
            invariant
                n == plan.len(),
                plan.len() == succeeded.len(),
                all == views(plan@),
                self.names() == recorded(all.take(k as int), succeeded@),
                self.thread_id == old(self).thread_id,
                self.paused == old(self).paused,
        {
            let ghost before = self.characters@;
            assert(all.take(k as int + 1).drop_last() =~= all.take(k as int));
            if succeeded[k] {
                if let Some(name) = &plan[k].character {
                    self.characters.insert(plan[k].id, name.clone());
                    assert(self.characters@.map_values(|name: String| name@) =~= before.map_values(
                        |name: String| name@,
                    ).insert(plan[k as int].id, name@));
                }
            }
        }
        assert(all.take(n as int) =~= all);
    }

    /// Takes a message from the queue of the listener thread. Messages to
    /// pause and resume always count; a paused listener ignores all others.
    pub fn on_message(&mut self, message: u32, wparam: usize) -> (action: ListenerAction)
        ensures
            action@ == action_on(old(self).paused, old(self).names(), message, wparam),
            action matches ListenerAction::Unregister(ids) ==> lists_all(ids@, old(self).names()),
            action matches ListenerAction::Rebind(ids) ==> lists_all(ids@, old(self).names()),
            final(self).thread_id == old(self).thread_id,
            final(self).paused == if message == WM_USER_PAUSE {
                true
            } else if message == WM_USER_RESUME {
                false
            } else {
                old(self).paused
            },
            final(self).names() == if message == WM_USER_PAUSE || message == WM_USER_RESUME {
                Map::<i32, Seq<char>>::empty()
            } else {
                old(self).names()
            },
    {
        broadcast use vstd::std_specs::hash::group_hash_axioms;

        if message == WM_USER_PAUSE {
            self.paused = true;
            return ListenerAction::Unregister(self.unregister_hotkeys());
        }
        if message == WM_USER_RESUME {
            self.paused = false;
            return ListenerAction::Rebind(self.unregister_hotkeys());
        }
        if self.paused {
            return ListenerAction::Ignore;
        }
        if message == WM_USER_FORWARD {
            return ListenerAction::Cycle(CycleDirection::Forward);
        }
        if message == WM_USER_BACKWARD {
            return ListenerAction::Cycle(CycleDirection::Backward);
        }
        if message != WM_HOTKEY {
            return ListenerAction::Ignore;
        }
        let id: i32 = low_bits_signed(wparam);
        if id == HOTKEY_PREVIEW_TOGGLE_ID {
            return ListenerAction::TogglePreview;
        }
        if id == HOTKEY_FORWARD_ID {
            return ListenerAction::Cycle(CycleDirection::Forward);
        }
        if id == HOTKEY_BACKWARD_ID {
            return ListenerAction::Cycle(CycleDirection::Backward);
        }
        if id >= HOTKEY_CHARACTER_BASE {
            if let Some(name) = self.characters.get(&id) {
                return ListenerAction::SwitchTo(name.clone());
            }
        }
        ListenerAction::Ignore
    }

    /// Forgets all character hotkeys and lists every hotkey to unregister.
    pub fn unregister_hotkeys(&mut self) -> (ids: Vec<i32>)
        ensures
            lists_all(ids@, old(self).names()),
            final(self).names() == Map::<i32, Seq<char>>::empty(),
            final(self).thread_id == old(self).thread_id,
            final(self).paused == old(self).paused,
    {
        broadcast use vstd::std_specs::hash::group_hash_axioms;

        let mut ids: Vec<i32> = Vec::new();
        ids.push(HOTKEY_FORWARD_ID);
        ids.push(HOTKEY_BACKWARD_ID);
        ids.push(HOTKEY_PREVIEW_TOGGLE_ID);
        let ghost fixed = ids@;
        let keys = self.characters.keys();
        let ghost listed = vstd::std_specs::iter::IteratorSpec::remaining(&keys).unref();
        for id in iter: keys
            invariant
                iter.seq().unref() == listed,
                ids@ == fixed + listed.take(iter.index()),
        {
            ids.push(*id);
            assert(ids@ =~= fixed + listed.take(iter.index() + 1));
        }
        proof {
            assert(ids@ =~= fixed + listed);
            assert(ids@.take(3) =~= fixed);
            assert(ids@.skip(3) =~= listed);
            assert(self.names().dom() =~= self.characters@.dom());
        }
        self.characters.clear();
        assert(self.names() =~= Map::<i32, Seq<char>>::empty());
        ids
    }
}

/// Whether the message loop goes on after a request for the next message
/// returned `got`: zero is the message to quit, and less than zero an error;
/// both end the loop.
pub fn message_loop_goes_on(got: i32) -> (go_on: bool)
    ensures
        go_on == (got > 0),
{
    got > 0
}

/// The message that makes a running listener stop acting on hotkeys, so that
/// the keys reach the focused window. There is none while no listener runs.
pub fn pause_hotkeys(listener: &HotkeyListener) -> (post: Option<ThreadMessage>)
    ensures
        post == if listener.thread_id == 0 {
            None
        } else {
            Some(ThreadMessage { thread_id: listener.thread_id, message: WM_USER_PAUSE })
        },
{
    if listener.thread_id == 0 {
        return None;
    }
    Some(ThreadMessage { thread_id: listener.thread_id, message: WM_USER_PAUSE })
}

/// The message that makes a running listener act on hotkeys again, with the
/// hotkeys of the latest configuration. There is none while no listener runs.
pub fn resume_hotkeys(listener: &HotkeyListener) -> (post: Option<ThreadMessage>)
    ensures
        post == if listener.thread_id == 0 {
            None
        } else {
            Some(ThreadMessage { thread_id: listener.thread_id, message: WM_USER_RESUME })
        },
{
    if listener.thread_id == 0 {
        return None;
    }
    Some(ThreadMessage { thread_id: listener.thread_id, message: WM_USER_RESUME })
}

/// Whether the client that loses the focus is to be minimized. `config` is the
/// latest configuration, `None` when it cannot be read; then it is not.
pub fn minimize_inactive_lookup(config: Option<&Config>) -> (minimize: bool)
    ensures
        minimize == match config {
            Some(config) => config.minimize_inactive,
            None => false,
        },
{
    match config {
        Some(config) => config.minimize_inactive,
        None => false,
    }
}

/// Starts a step that a hotkey or a side button asked for.
pub fn perform_cycle(direction: CycleDirection, minimize_inactive: bool) -> (run: CycleRun)
    ensures
        run.target == crate::cycle::CycleTarget::Neighbor(direction),
        run.minimize_inactive == minimize_inactive,
        run.announces,
        run.step == crate::cycle::CycleStep::AskActive,
{
    CycleRun::to_neighbor(direction, minimize_inactive, true)
}

/// The ids of a plan are distinct.
pub open spec fn ids_distinct(plan: Seq<RegistrationView>) -> bool {
    forall|i: int, j: int|
        0 <= i < j < plan.len() ==> (#[trigger] plan[i]).id != (#[trigger] plan[j]).id
}

proof fn lemma_character_ids(names: Seq<String>, hotkeys: Map<Seq<char>, CharacterHotkey>)
    requires
        HOTKEY_CHARACTER_BASE + character_registrations(names, hotkeys).len() <= i32::MAX,
    ensures
        forall|i: int|
            0 <= i < character_registrations(names, hotkeys).len() ==> {
                let r = #[trigger] character_registrations(names, hotkeys)[i];
                r.id == HOTKEY_CHARACTER_BASE + i && r.character is Some
            },
    decreases names.len(),
{
    if names.len() > 0 {
        lemma_character_ids(names.drop_last(), hotkeys);
    }
}

/// No two hotkeys of a configuration share an id, and the ids of the
/// character hotkeys, and only these, lie at or above the base.
pub proof fn law_hotkey_ids_are_distinct(config: Config)
    requires
        ids_fit(config),
    ensures
        ids_distinct(registrations(config)),
        forall|i: int|
            0 <= i < registrations(config).len() ==> ((
            #[trigger] registrations(config)[i]).character is Some <==> registrations(config)[i].id
                >= HOTKEY_CHARACTER_BASE),
{
    let fixed = cycle_registrations(config) + toggle_registrations(config);
    let own = character_registrations(config.characters@, config.character_hotkeys@);
    lemma_character_ids(config.characters@, config.character_hotkeys@);
    let all = registrations(config);
    assert(all =~= fixed + own);
    assert forall|i: int| 0 <= i < all.len() implies if i < fixed.len() {
        (#[trigger] all[i]).id < HOTKEY_CHARACTER_BASE && all[i].character is None
    } else {
        all[i].id == HOTKEY_CHARACTER_BASE + (i - fixed.len()) && all[i].character is Some
    } by {
        if i >= fixed.len() {
            assert(all[i] == own[i - fixed.len()]);
        }
    }
}

proof fn lemma_recorded_dom(plan: Seq<RegistrationView>, succeeded: Seq<bool>, id: i32)
    requires
        recorded(plan, succeeded).contains_key(id),
    ensures
        exists|i: int|
            0 <= i < plan.len() && (#[trigger] plan[i]).id == id && plan[i].character == Some(
                recorded(plan, succeeded)[id],
            ) && succeeded[i],
    decreases plan.len(),
{
    if plan.len() > 0 {
        let front = plan.drop_last();
        let last = plan.len() - 1;
        if plan[last].character is Some && succeeded[last] && plan[last].id == id {
            assert(plan[last].id == id);
        } else {
            lemma_recorded_dom(front, succeeded, id);
            let i = choose|i: int|
                0 <= i < front.len() && (#[trigger] front[i]).id == id && front[i].character == Some(
                    recorded(front, succeeded)[id],
                ) && succeeded[i];
            assert(plan[i].id == id);
        }
    }
}

/// In a plan with distinct ids, an id is on record exactly when the
/// registration of a character hotkey with that id succeeded, and then with
/// the name of that character.
pub proof fn law_record_matches_plan(plan: Seq<RegistrationView>, succeeded: Seq<bool>, i: int)
    requires
        plan.len() == succeeded.len(),
        ids_distinct(plan),
        0 <= i < plan.len(),
    ensures
        recorded(plan, succeeded).contains_key(plan[i].id) <==> plan[i].character is Some
            && succeeded[i],
        plan[i].character is Some && succeeded[i] ==> recorded(plan, succeeded)[plan[i].id]
            == plan[i].character->0,
{
    if plan[i].character is Some && succeeded[i] {
        lemma_recorded_keeps(plan, succeeded, i);
    }
    if recorded(plan, succeeded).contains_key(plan[i].id) {
        lemma_recorded_dom(plan, succeeded, plan[i].id);
    }
}

proof fn lemma_recorded_keeps(plan: Seq<RegistrationView>, succeeded: Seq<bool>, i: int)
    requires
        ids_distinct(plan),
        0 <= i < plan.len(),
        plan[i].character is Some,
        succeeded[i],
    ensures
        recorded(plan, succeeded).contains_key(plan[i].id),
        recorded(plan, succeeded)[plan[i].id] == plan[i].character->0,
    decreases plan.len(),
{
    if i < plan.len() - 1 {
        let front = plan.drop_last();
        assert(ids_distinct(front)) by {
            assert forall|a: int, b: int| 0 <= a < b < front.len() implies (
            #[trigger] front[a]).id != (#[trigger] front[b]).id by {
                assert(front[a] == plan[a] && front[b] == plan[b]);
            }
        }
        lemma_recorded_keeps(front, succeeded, i);
        assert(plan[i].id != plan[plan.len() - 1].id);
    }
}

/// Pressing a registered character hotkey switches to its character: once
/// the hotkeys of a configuration are registered and recorded, the message
/// with the id of a character hotkey that could be registered leads to the
/// name that the configuration bound it to, and one that could not be
/// registered leads nowhere.
pub proof fn law_character_hotkey_switches(
    config: Config,
    succeeded: Seq<bool>,
    i: int,
    wparam: usize,
)
    requires
        ids_fit(config),
        succeeded.len() == registrations(config).len(),
        0 <= i < registrations(config).len(),
        registrations(config)[i].character is Some,
        wparam == registrations(config)[i].id,
    ensures
        action_on(false, recorded(registrations(config), succeeded), WM_HOTKEY, wparam)
            == if succeeded[i] {
            ActionView::SwitchTo(registrations(config)[i].character->0)
        } else {
            ActionView::Ignore
        },
{
    law_hotkey_ids_are_distinct(config);
    law_record_matches_plan(registrations(config), succeeded, i);
}

/// Unregistering undoes registering: the hotkeys that a listener lists for
/// unregistration hold every hotkey of the configuration that could be
/// registered.
pub proof fn law_unregister_undoes_register(config: Config, succeeded: Seq<bool>, ids: Seq<i32>)
    requires
        ids_fit(config),
        succeeded.len() == registrations(config).len(),
        lists_all(ids, recorded(registrations(config), succeeded)),
    ensures
        forall|i: int|
            0 <= i < succeeded.len() && succeeded[i] ==> ids.contains(
                (#[trigger] registrations(config)[i]).id,
            ),
{
    law_hotkey_ids_are_distinct(config);
    assert forall|i: int| 0 <= i < succeeded.len() && succeeded[i] implies ids.contains(
        (#[trigger] registrations(config)[i]).id,
    ) by {
        let r = registrations(config)[i];
        if r.character is Some {
            law_record_matches_plan(registrations(config), succeeded, i);
            assert(ids.skip(3).to_set().contains(r.id));
            let k = choose|k: int| 0 <= k < ids.skip(3).len() && ids.skip(3)[k] == r.id;
            assert(ids[k + 3] == r.id);
        } else {
            let fixed = cycle_registrations(config) + toggle_registrations(config);
            let own = character_registrations(config.characters@, config.character_hotkeys@);
            lemma_character_ids(config.characters@, config.character_hotkeys@);
            assert(registrations(config) =~= fixed + own);
            if i >= fixed.len() {
                assert(r == own[i - fixed.len()]);
            }
            assert(r.id == HOTKEY_FORWARD_ID || r.id == HOTKEY_BACKWARD_ID || r.id
                == HOTKEY_PREVIEW_TOGGLE_ID);
            assert(ids[0] == ids.take(3)[0] && ids[1] == ids.take(3)[1] && ids[2] == ids.take(3)[2]);
        }
    }
}

/// A paused listener acts on nothing but the messages to pause and resume.
pub proof fn law_paused_listener_is_idle(
    characters: Map<i32, Seq<char>>,
    message: u32,
    wparam: usize,
)
    requires
        message != WM_USER_PAUSE,
        message != WM_USER_RESUME,
    ensures
        action_on(true, characters, message, wparam) == ActionView::Ignore,
{
}

/// Shift, control and alt, whether of either side or of a given one, stand for
/// the modifiers 4, 2 and 1; every other key, and none, for no modifier.
pub proof fn law_modifiers_of_keys(vk: u16)
    ensures
        modifier_bits(vk) == 4 <==> vk == 0x10 || vk == 0xA0 || vk == 0xA1,
        modifier_bits(vk) == 2 <==> vk == 0x11 || vk == 0xA2 || vk == 0xA3,
        modifier_bits(vk) == 1 <==> vk == 0x12 || vk == 0xA4 || vk == 0xA5,
        modifier_bits(vk) == 0 || modifier_bits(vk) == 1 || modifier_bits(vk) == 2 || modifier_bits(vk)
            == 4,
        optional_modifier_bits(Some(vk)) == modifier_bits(vk),
        optional_modifier_bits(None) == 0,
{
}

/// Some entry of the plan has this id.
pub open spec fn plan_has(plan: Seq<RegistrationView>, id: int) -> bool {
    exists|i: int| 0 <= i < plan.len() && (#[trigger] plan[i]).id == id
}

/// The parts of a plan: the fixed hotkeys, at most three, and after them those
/// of the characters.
proof fn lemma_plan_parts(config: Config)
    requires
        ids_fit(config),
    ensures
        ({
            let fixed = cycle_registrations(config) + toggle_registrations(config);
            let own = character_registrations(config.characters@, config.character_hotkeys@);
            &&& registrations(config) =~= fixed + own
            &&& fixed.len() <= 3
            &&& forall|i: int|
                0 <= i < own.len() ==> (#[trigger] own[i]).id == HOTKEY_CHARACTER_BASE + i
                    && own[i].character is Some
        }),
{
    lemma_character_ids(config.characters@, config.character_hotkeys@);
}

/// The forward hotkey is registered exactly when the cycle hotkeys are on,
/// under the forward key and without a modifier.
pub proof fn law_forward_hotkey(config: Config, i: int)
    requires
        ids_fit(config),
    ensures
        plan_has(registrations(config), 1001) <==> config.enable_keyboard_buttons,
        0 <= i < registrations(config).len() && registrations(config)[i].id == 1001 ==> {
            let r = registrations(config)[i];
            r.vk == config.forward_key && r.modifiers == 0 && r.character is None
        },
{
    lemma_plan_parts(config);
    let plan = registrations(config);
    let fixed = cycle_registrations(config) + toggle_registrations(config);
    assert forall|j: int| fixed.len() <= j < plan.len() implies (#[trigger] plan[j]).id >= 2000 by {
        let own = character_registrations(config.characters@, config.character_hotkeys@);
        assert(plan[j] == own[j - fixed.len()]);
    }
    if config.enable_keyboard_buttons {
        assert(plan[0].id == 1001);
    }
}

/// The backward hotkey is registered exactly when the cycle hotkeys are on and
/// it can be told from the forward one: by its key, or by a modifier that is
/// one. It has the backward key, and the modifier only where it needs it.
pub proof fn law_backward_hotkey(config: Config, i: int)
    requires
        ids_fit(config),
    ensures
        plan_has(registrations(config), 1002) <==> config.enable_keyboard_buttons && (
        config.forward_key != config.backward_key || (config.modifier_key matches Some(vk) && (0x10
            <= vk <= 0x12 || 0xA0 <= vk <= 0xA5))),
        0 <= i < registrations(config).len() && registrations(config)[i].id == 1002 ==> {
            let r = registrations(config)[i];
            &&& r.vk == config.backward_key
            &&& r.character is None
            &&& config.forward_key != config.backward_key ==> r.modifiers == 0
            &&& config.forward_key == config.backward_key ==> r.modifiers == modifier_bits(
                config.modifier_key->0,
            )
        },
{
    lemma_plan_parts(config);
    let plan = registrations(config);
    let fixed = cycle_registrations(config) + toggle_registrations(config);
    assert forall|j: int| fixed.len() <= j < plan.len() implies (#[trigger] plan[j]).id >= 2000 by {
        let own = character_registrations(config.characters@, config.character_hotkeys@);
        assert(plan[j] == own[j - fixed.len()]);
    }
    if cycle_registrations(config).len() == 2 {
        assert(plan[1].id == 1002);
    }
}

/// The hotkey that toggles the previews is registered exactly when it has a
/// key, whether or not the cycle hotkeys are on, under that key and with its
/// own modifier.
pub proof fn law_toggle_hotkey(config: Config, i: int)
    requires
        ids_fit(config),
    ensures
        plan_has(registrations(config), 1003) <==> config.preview_toggle_key != 0,
        0 <= i < registrations(config).len() && registrations(config)[i].id == 1003 ==> {
            let r = registrations(config)[i];
            &&& r.vk == config.preview_toggle_key
            &&& r.character is None
            &&& config.preview_toggle_modifier is None ==> r.modifiers == 0
            &&& config.preview_toggle_modifier matches Some(vk) ==> r.modifiers == modifier_bits(vk)
        },
{
    lemma_plan_parts(config);
    let plan = registrations(config);
    let fixed = cycle_registrations(config) + toggle_registrations(config);
    assert forall|j: int| fixed.len() <= j < plan.len() implies (#[trigger] plan[j]).id >= 2000 by {
        let own = character_registrations(config.characters@, config.character_hotkeys@);
        assert(plan[j] == own[j - fixed.len()]);
    }
    if config.preview_toggle_key != 0 {
        assert(plan[fixed.len() - 1].id == 1003);
    }
}

/// The hotkey that toggles the previews depends on its own settings alone: in
/// two configurations that agree on its key and modifier, both plans hold it or
/// neither does, and with the same key and modifier.
pub proof fn law_toggle_hotkey_is_independent(a: Config, b: Config, i: int, j: int)
    requires
        ids_fit(a),
        ids_fit(b),
        a.preview_toggle_key == b.preview_toggle_key,
        a.preview_toggle_modifier == b.preview_toggle_modifier,
    ensures
        plan_has(registrations(a), 1003) == plan_has(registrations(b), 1003),
        0 <= i < registrations(a).len() && 0 <= j < registrations(b).len() && registrations(a)[i].id
            == 1003 && registrations(b)[j].id == 1003 ==> registrations(a)[i] == registrations(b)[j],
{
    law_toggle_hotkey(a, i);
    law_toggle_hotkey(b, j);
}

/// The plan is in the order of the ids, and holds no ids but those of the three
/// fixed hotkeys and the numbers from 2000 on without a gap, one for each
/// character hotkey.
pub proof fn law_plan_is_ordered(config: Config, i: int, j: int)
    requires
        ids_fit(config),
        0 <= i < j < registrations(config).len(),
    ensures
        registrations(config)[i].id < registrations(config)[j].id,
        registrations(config)[i].id < 2000 ==> 1001 <= registrations(config)[i].id <= 1003,
        registrations(config)[i].id >= 2000 ==> registrations(config)[j].id
            == registrations(config)[i].id + (j - i),
        registrations(config)[i].id < 2000 && registrations(config)[j].id >= 2000 && j == i + 1
            ==> registrations(config)[j].id == 2000,
{
    lemma_plan_parts(config);
    let plan = registrations(config);
    let fixed = cycle_registrations(config) + toggle_registrations(config);
    let own = character_registrations(config.characters@, config.character_hotkeys@);
    assert(i >= fixed.len() ==> plan[i] == own[i - fixed.len()]);
    assert(j >= fixed.len() ==> plan[j] == own[j - fixed.len()]);
}

/// The character hotkeys come last in the plan, and are those of the listed
/// characters alone.
pub proof fn law_character_hotkeys_come_last(config: Config)
    requires
        ids_fit(config),
    ensures
        ({
            let plan = registrations(config);
            let own = character_registrations(config.characters@, config.character_hotkeys@);
            &&& own.len() <= plan.len()
            &&& plan.skip(plan.len() - own.len()) =~= own
            &&& forall|i: int|
                0 <= i < plan.len() - own.len() ==> (#[trigger] plan[i]).character is None
        }),
{
    lemma_plan_parts(config);
}

/// Every listed character with a hotkey whose key was captured gets a
/// registration: with the next free id, the key and modifier of its hotkey, and
/// its name.
pub proof fn law_bound_character_gets_a_hotkey(
    names: Seq<String>,
    hotkeys: Map<Seq<char>, CharacterHotkey>,
    k: int,
)
    requires
        0 <= k < names.len(),
        hotkeys.contains_key(names[k]@),
        hotkeys[names[k]@].vk != 0,
        names.len() <= 0x7fff_ffff - 2000,
    ensures
        ({
            let place = character_registrations(names.take(k), hotkeys).len();
            let all = character_registrations(names, hotkeys);
            let hotkey = hotkeys[names[k]@];
            &&& place <= k
            &&& place < all.len()
            &&& all[place as int].id == 2000 + place
            &&& all[place as int].vk == hotkey.vk
            &&& all[place as int].modifiers == match hotkey.modifier {
                Some(vk) => modifier_bits(vk),
                None => 0,
            }
            &&& all[place as int].character == Some(names[k]@)
        }),
{
    lemma_at_most_one_each(names.take(k), hotkeys);
    assert(names.take(k + 1).drop_last() =~= names.take(k));
    lemma_registrations_keep(names, hotkeys, k + 1);
}

/// No other character gets one: every registration is that of a listed
/// character with a hotkey whose key was captured, in the order of the list and
/// only once for each listing.
pub proof fn law_only_bound_characters_get_hotkeys(
    names: Seq<String>,
    hotkeys: Map<Seq<char>, CharacterHotkey>,
    p: int,
)
    requires
        0 <= p < character_registrations(names, hotkeys).len(),
    ensures
        exists|k: int|
            0 <= k < names.len() && hotkeys.contains_key((#[trigger] names[k])@) && hotkeys[names[k]@].vk
                != 0 && character_registrations(names.take(k), hotkeys).len() == p
                && character_registrations(names, hotkeys)[p].character == Some(names[k]@),
    decreases names.len(),
{
    let front = names.drop_last();
    let last = names.len() - 1;
    assert(names.take(last) =~= front);
    if p < character_registrations(front, hotkeys).len() {
        law_only_bound_characters_get_hotkeys(front, hotkeys, p);
        let k = choose|k: int|
            0 <= k < front.len() && hotkeys.contains_key((#[trigger] front[k])@)
                && hotkeys[front[k]@].vk != 0 && character_registrations(front.take(k), hotkeys).len()
                == p && character_registrations(front, hotkeys)[p].character == Some(front[k]@);
        assert(front.take(k) =~= names.take(k));
        assert(names[k] == front[k]);
    } else {
        assert(names[last] == names.last());
    }
}

proof fn lemma_at_most_one_each(names: Seq<String>, hotkeys: Map<Seq<char>, CharacterHotkey>)
    ensures
        character_registrations(names, hotkeys).len() <= names.len(),
    decreases names.len(),
{
    if names.len() > 0 {
        lemma_at_most_one_each(names.drop_last(), hotkeys);
    }
}

proof fn lemma_registrations_keep(
    names: Seq<String>,
    hotkeys: Map<Seq<char>, CharacterHotkey>,
    n: int,
)
    requires
        0 <= n <= names.len(),
    ensures
        character_registrations(names.take(n), hotkeys).len() <= character_registrations(
            names,
            hotkeys,
        ).len(),
        forall|i: int|
            0 <= i < character_registrations(names.take(n), hotkeys).len()
                ==> character_registrations(names, hotkeys)[i] == character_registrations(
                names.take(n),
                hotkeys,
            )[i],
    decreases names.len() - n,
{
    if n < names.len() {
        lemma_registrations_keep(names, hotkeys, n + 1);
        assert(names.take(n + 1).drop_last() =~= names.take(n));
    } else {
        assert(names.take(n) =~= names);
    }
}

/// There are ids for every list of characters that is no longer than the range
/// of ids, and in any case exactly when its bound characters fit in that range.
pub proof fn law_ids_suffice(config: Config)
    ensures
        config.characters@.len() <= 0x7fff_ffff - 2000 ==> ids_fit(config),
        ids_fit(config) <==> character_registrations(
            config.characters@,
            config.character_hotkeys@,
        ).len() <= 0x7fff_ffff - 2000,
{
    lemma_at_most_one_each(config.characters@, config.character_hotkeys@);
}

/// The record holds an id exactly when a character hotkey with that id was
/// registered, under the name of the last such one.
pub proof fn law_record_holds_what_succeeded(
    plan: Seq<RegistrationView>,
    succeeded: Seq<bool>,
    id: i32,
)
    requires
        plan.len() == succeeded.len(),
    ensures
        recorded(plan, succeeded).contains_key(id) <==> exists|i: int|
            0 <= i < plan.len() && (#[trigger] plan[i]).id == id && plan[i].character is Some
                && succeeded[i],
        recorded(plan, succeeded).contains_key(id) ==> exists|i: int|
            0 <= i < plan.len() && (#[trigger] plan[i]).id == id && succeeded[i]
                && plan[i].character == Some(recorded(plan, succeeded)[id]) && forall|j: int|
                i < j < plan.len() && (#[trigger] plan[j]).id == id && plan[j].character is Some
                    ==> !succeeded[j],
{
    lemma_record_of_front(plan, succeeded, plan.len() as int, id);
    assert(plan.take(plan.len() as int) =~= plan);
}

proof fn lemma_record_of_front(
    plan: Seq<RegistrationView>,
    succeeded: Seq<bool>,
    n: int,
    id: i32,
)
    requires
        0 <= n <= plan.len(),
        plan.len() == succeeded.len(),
    ensures
        recorded(plan.take(n), succeeded).contains_key(id) <==> exists|i: int|
            0 <= i < n && (#[trigger] plan[i]).id == id && plan[i].character is Some && succeeded[i],
        recorded(plan.take(n), succeeded).contains_key(id) ==> exists|i: int|
            0 <= i < n && (#[trigger] plan[i]).id == id && succeeded[i] && plan[i].character == Some(
                recorded(plan.take(n), succeeded)[id],
            ) && forall|j: int|
                i < j < n && (#[trigger] plan[j]).id == id && plan[j].character is Some
                    ==> !succeeded[j],
    decreases n,
{
    if n > 0 {
        lemma_record_of_front(plan, succeeded, n - 1, id);
        let front = plan.take(n - 1);
        let upto = plan.take(n);
        assert(upto.drop_last() =~= front);
        assert(upto.last() == plan[n - 1]);
        if plan[n - 1].character is Some && succeeded[n - 1] && plan[n - 1].id == id {
            assert(recorded(upto, succeeded)[id] == plan[n - 1].character->0);
        } else if recorded(front, succeeded).contains_key(id) {
            let i = choose|i: int|
                0 <= i < n - 1 && (#[trigger] plan[i]).id == id && succeeded[i] && plan[i].character
                    == Some(recorded(front, succeeded)[id]) && forall|j: int|
                    i < j < n - 1 && (#[trigger] plan[j]).id == id && plan[j].character is Some
                        ==> !succeeded[j];
            assert(recorded(upto, succeeded)[id] == recorded(front, succeeded)[id]);
            assert(plan[i].id == id);
        }
    }
}

/// What messages mean: 0x403 and 0x404 pause and resume the listener at any
/// time. All others are ignored while it is paused. Otherwise 0x401 and 0x402
/// step forward and backward, and 0x312 reports a hotkey by the low 32 bits of
/// its parameter: 1001 steps forward, 1002 backward, 1003 toggles the previews,
/// and an id from 2000 on jumps to the character that it was registered for.
/// Nothing else means anything.
pub proof fn law_meaning_of_messages(
    paused: bool,
    characters: Map<i32, Seq<char>>,
    message: u32,
    wparam: usize,
    id: i32,
)
    requires
        (wparam as int - id as int) % 0x1_0000_0000 == 0,
    ensures
        ({
            let action = action_on(paused, characters, message, wparam);
            let awake = !paused && message != 0x0403 && message != 0x0404;
            let hotkey = awake && message == 0x0312;
            &&& action is Unregister <==> message == 0x0403
            &&& action is Rebind <==> message == 0x0404
            &&& action == ActionView::Cycle(CycleDirection::Forward) <==> (awake && message == 0x0401)
                || (hotkey && id == 1001)
            &&& action == ActionView::Cycle(CycleDirection::Backward) <==> (awake && message == 0x0402)
                || (hotkey && id == 1002)
            &&& action is TogglePreview <==> hotkey && id == 1003
            &&& action is SwitchTo <==> hotkey && id >= 2000 && characters.contains_key(id)
            &&& action matches ActionView::SwitchTo(name) ==> name == characters[id]
        }),
{
    crate::bits::law_signed_reading_is_congruent(wparam as int, id as int);
}

/// The hotkeys listed for unregistration are the three fixed ones and those of
/// the characters on record, and no others; the latter are listed once each.
pub proof fn law_unregistered_hotkeys(ids: Seq<i32>, characters: Map<i32, Seq<char>>, id: i32)
    requires
        lists_all(ids, characters),
    ensures
        ids.contains(id) <==> id == 1001 || id == 1002 || id == 1003 || characters.contains_key(id),
        ids[0] == 1001,
        ids[1] == 1002,
        ids[2] == 1003,
        ids.len() == 3 + characters.dom().len(),
{
    let own = ids.skip(3);
    let fixed = ids.take(3);
    assert(ids =~= fixed + own);
    assert(fixed[0] == ids[0] && fixed[1] == ids[1] && fixed[2] == ids[2]);
    own.unique_seq_to_set();
    if ids.contains(id) {
        let k = choose|k: int| 0 <= k < ids.len() && ids[k] == id;
        if k >= 3 {
            assert(own[k - 3] == id);
            assert(own.to_set().contains(id));
        }
    }
    if characters.contains_key(id) {
        assert(own.to_set().contains(id));
        let k = choose|k: int| 0 <= k < own.len() && own[k] == id;
        assert(ids[k + 3] == id);
    }
}

/// The view of a registration shows its fields, and the views of a plan stand in
/// the order of the plan.
pub proof fn law_registration_views(plan: Seq<HotkeyRegistration>, i: int)
    requires
        0 <= i < plan.len(),
    ensures
        views(plan).len() == plan.len(),
        views(plan)[i].id == plan[i].id,
        views(plan)[i].modifiers == plan[i].modifiers,
        views(plan)[i].vk == plan[i].vk,
        plan[i].character is None ==> views(plan)[i].character is None,
        plan[i].character matches Some(name) ==> views(plan)[i].character == Some(name@),
{
}

/// A listener knows the names that it keeps, each under its id.
pub proof fn law_names_of_a_listener(listener: HotkeyListener, id: i32)
    ensures
        listener.names().contains_key(id) <==> listener.characters@.contains_key(id),
        listener.characters@.contains_key(id) ==> listener.names()[id] == listener.characters@[id]@,
{
}

/// The view of an action tells the actions apart, with the direction or the name
/// that they carry.
pub proof fn law_action_views(action: ListenerAction)
    ensures
        action is Ignore <==> action@ is Ignore,
        action is Unregister <==> action@ is Unregister,
        action is Rebind <==> action@ is Rebind,
        action is TogglePreview <==> action@ is TogglePreview,
        action is Cycle <==> action@ is Cycle,
        action is SwitchTo <==> action@ is SwitchTo,
        action matches ListenerAction::Cycle(direction) ==> action@ == ActionView::Cycle(direction),
        action matches ListenerAction::SwitchTo(name) ==> action@ == ActionView::SwitchTo(name@),
{
}

} // verus!
