//! The settings that the listeners and the window manager read.

use vstd::prelude::*;

verus! {

/// When mouse buttons and the wheel may cycle clients.
#[derive(Clone, Copy, Debug, PartialEq, Eq, Structural)]
pub enum MouseCycleMode {
    Never,
    Always,
    OnlyWhenEveFocused,
}

impl MouseCycleMode {
    /// Whether mouse input may cycle now, given whether a client has the
    /// focus.
    pub open spec fn admits(self, eve_focused: bool) -> bool {
        match self {
            MouseCycleMode::Never => false,
            MouseCycleMode::Always => true,
            MouseCycleMode::OnlyWhenEveFocused => eve_focused,
        }
    }
}

/// A key that jumps straight to one character. A `vk` of zero is a
/// placeholder: a modifier was picked but no key was captured yet.
#[derive(Clone, Copy, Debug, PartialEq, Eq, Structural)]
pub struct CharacterHotkey {
    pub vk: u16,
    pub modifier: Option<u16>,
}

/// The hotkeys of the characters, at most one for each name.
pub struct CharacterHotkeys {
    entries: Vec<(String, CharacterHotkey)>,
}

/// The names of the entries are distinct.
spec fn names_distinct(entries: Seq<(String, CharacterHotkey)>) -> bool {
    forall|i: int, j: int|
        0 <= i < j < entries.len() ==> (#[trigger] entries[i]).0@ != (#[trigger] entries[j]).0@
}

spec fn names(entries: Seq<(String, CharacterHotkey)>, i: int, name: Seq<char>) -> bool {
    0 <= i < entries.len() && entries[i].0@ == name
}

spec fn entries_map(entries: Seq<(String, CharacterHotkey)>) -> Map<Seq<char>, CharacterHotkey> {
    Map::new(
        |name: Seq<char>| exists|i: int| names(entries, i, name),
        |name: Seq<char>| entries[choose|i: int| names(entries, i, name)].1,
    )
}

impl View for CharacterHotkeys {
    type V = Map<Seq<char>, CharacterHotkey>;

    closed spec fn view(&self) -> Map<Seq<char>, CharacterHotkey> {
        entries_map(self.entries@)
    }
}

impl CharacterHotkeys {
    #[verifier::type_invariant]
    spec fn well_formed(self) -> bool {
        names_distinct(self.entries@)
    }

    /// No hotkeys.
    pub fn new() -> (hotkeys: CharacterHotkeys)
        ensures
            hotkeys@ == Map::<Seq<char>, CharacterHotkey>::empty(),
    {
        let entries: Vec<(String, CharacterHotkey)> = Vec::new();
        assert(entries_map(entries@) =~= Map::<Seq<char>, CharacterHotkey>::empty());
        CharacterHotkeys { entries }
    }

    /// The hotkey of the character called `name`.
    pub fn get(&self, name: &String) -> (hotkey: Option<CharacterHotkey>)
        ensures
            hotkey == if self@.contains_key(name@) {
                Some(self@[name@])
            } else {
                None
            },
    {
        proof {
            use_type_invariant(self);
        }
        let n: usize = self.entries.len();
        for k in 0..n
            invariant
                n == self.entries.len(),
                names_distinct(self.entries@),
                forall|i: int| 0 <= i < k ==> !names(self.entries@, i, name@),
        {
            if self.entries[k].0 == *name {
                assert(names(self.entries@, k as int, name@));
                return Some(self.entries[k].1);
            }
        }
        None
    }

    /// Binds `hotkey` to the character called `name`, in place of an earlier
    /// binding.
    pub fn insert(&mut self, name: String, hotkey: CharacterHotkey)
        ensures
            final(self)@ == old(self)@.insert(name@, hotkey),
    {
        proof {
            use_type_invariant(&*self);
        }
        let mut entries: Vec<(String, CharacterHotkey)> = Vec::new();
        std::mem::swap(&mut entries, &mut self.entries);
        let ghost before = entries@;
        let n: usize = entries.len();
        let mut at: usize = n;
        for k in 0..n
            invariant
                n == entries.len(),
                entries@ == before,
                at == n ==> forall|i: int| 0 <= i < k ==> !names(before, i, name@),
                at != n ==> at < n && names(before, at as int, name@),
        {
            if entries[k].0 == name {
                at = k;
            }
        }
        if at < n {
            entries.set(at, (name, hotkey));
        } else {
            entries.push((name, hotkey));
        }
        proof {
            let after = entries@;
            assert(names(after, at as int, name@));
            assert forall|other: Seq<char>, i: int| other != name@ implies names(before, i, other)
                == names(after, i, other) by {}
            assert forall|other: Seq<char>| #[trigger]
                entries_map(before).insert(name@, hotkey).contains_key(other) == entries_map(
                after,
            ).contains_key(other) by {
                if other != name@ && entries_map(before).contains_key(other) {
                    let i = choose|i: int| names(before, i, other);
                    assert(names(after, i, other));
                }
                if other != name@ && entries_map(after).contains_key(other) {
                    let i = choose|i: int| names(after, i, other);
                    assert(names(before, i, other));
                }
            }
            assert(names_distinct(after)) by {
                assert forall|i: int, j: int| 0 <= i < j < after.len() implies (
                #[trigger] after[i]).0@ != (#[trigger] after[j]).0@ by {
                    if i != at && j != at {
                        assert(before[i] == after[i] && before[j] == after[j]);
                    } else {
                        let other = if i == at { j } else { i };
                        assert(before[other] == after[other]);
                        assert(!names(before, other, name@)) by {
                            if at < n {
                                assert(before[at as int].0@ == name@);
                            }
                        }
                    }
                }
            }
            assert forall|other: Seq<char>|
                entries_map(after).contains_key(other) implies #[trigger] entries_map(before).insert(
                name@,
                hotkey,
            )[other] == entries_map(after)[other] by {
                let i = choose|i: int| names(after, i, other);
                if other == name@ {
                    assert(i == at);
                } else {
                    assert(names(before, i, other));
                    let m = choose|m: int| names(before, m, other);
                    assert(i == m);
                }
            }
            assert(entries_map(after) =~= entries_map(before).insert(name@, hotkey));
        }
        self.entries = entries;
    }
}

/// Everything that can be configured.
pub struct Config {
    pub display_width: u32,
    pub display_height: u32,
    pub panel_height: u32,
    pub eve_width: u32,
    pub forward_button: u16,
    pub backward_button: u16,
    pub mouse_cycle_mode: MouseCycleMode,
    pub enable_wheel_cycle: bool,
    pub wheel_cycle_modifier: u16,
    pub mouse_device_name: Option<String>,
    pub mouse_device_path: Option<String>,
    pub enable_keyboard_buttons: bool,
    pub forward_key: u16,
    pub backward_key: u16,
    pub modifier_key: Option<u16>,
    pub preview_toggle_key: u16,
    pub preview_toggle_modifier: Option<u16>,
    pub characters: Vec<String>,
    pub character_hotkeys: CharacterHotkeys,
    pub minimize_inactive: bool,
}

} // verus!
