//! Client windows on the desktop: which windows are clients, where they are
//! stacked, and how one is brought to the foreground.
//!
//! Window handles are plain numbers here, zero for no window. A handle is
//! named by its low 32 bits, its id.

use crate::bits::{low_bits, reinterpret_signed};
use crate::config::Config;
use crate::cycle::EveWindow;
use crate::text::{contains, starts_with, trim_start_matches};
use vstd::prelude::*;

verus! {

/// The title of every client starts with this.
pub const CLIENT_PREFIX: &'static str = "EVE - ";

/// The title of the launcher, which is no client, holds this.
pub const LAUNCHER_MARK: &'static str = "Launcher";

/// The title is that of a client.
pub open spec fn is_client_title(title: Seq<char>) -> bool {
    CLIENT_PREFIX@.is_prefix_of(title) && !crate::text::has_part(title, LAUNCHER_MARK@)
}

/// The title without the client prefix.
pub open spec fn character_of(title: Seq<char>) -> Seq<char> {
    crate::text::without_prefixes(title, CLIENT_PREFIX@)
}

/// The id of a window handle.
pub open spec fn id_of(hwnd: int) -> int {
    hwnd % 0x1_0000_0000
}

pub fn hwnd_to_id(hwnd: usize) -> (id: u32)
    ensures
        id == id_of(hwnd as int),
{
    low_bits(hwnd)
}

pub fn id_to_hwnd(id: u32) -> (hwnd: usize)
    ensures
        hwnd == id,
{
    id as usize
}

/// Ids name handles: the handle of an id has that id, and a handle that fits
/// in 32 bits is the handle of its id.
pub proof fn law_ids_name_handles(id: u32, hwnd: usize)
    ensures
        id_of(id as int) == id,
        hwnd < 0x1_0000_0000 ==> id_of(hwnd as int) == hwnd,
{
}

fn client_title(title: &str) -> (r: bool)
    ensures
        r == is_client_title(title@),
{
    starts_with(title, CLIENT_PREFIX) && !contains(title, LAUNCHER_MARK)
}

/// Whether the foreground window is a client. `title` is its title, `None`
/// when there is no foreground window.
pub fn is_foreground_eve(title: Option<&str>) -> (r: bool)
    ensures
        r == match title {
            Some(title) => is_client_title(title@),
            None => false,
        },
{
    match title {
        Some(title) => client_title(title),
        None => false,
    }
}

/// The size of the buffer for a title of `len` code units, with room for the
/// zero at the end. There is nothing to read when `len` is not positive.
pub fn title_buffer_len(len: i32) -> (size: Option<usize>)
    ensures
        size == if len <= 0 {
            None
        } else {
            Some((len + 1) as usize)
        },
{
    if len <= 0 {
        return None;
    }
    Some(len as usize + 1)
}

/// The title in a buffer into which `copied` code units were read.
pub fn read_window_title(buffer: &Vec<u16>, copied: i32) -> (title: String)
    requires
        copied <= buffer.len(),
    ensures
        copied <= 0 ==> title@ == Seq::<char>::empty(),
        copied > 0 ==> title@ == crate::wide::utf16_lossy(buffer@.take(copied as int)),
        forall|text: Seq<char>|
            copied > 0 && buffer@.take(copied as int) == #[trigger] crate::wide::utf16(text) ==> title@
                == text,
{
    if copied <= 0 {
        return String::new();
    }
    let filled = vstd::slice::slice_subrange(buffer.as_slice(), 0, copied as usize);
    assert(filled@ =~= buffer@.take(copied as int));
    proof {
        assert forall|text: Seq<char>| filled@ == #[trigger] crate::wide::utf16(
            text,
        ) implies crate::wide::utf16_lossy(filled@) == text by {
            crate::wide::law_decoding_undoes_encoding(text);
        }
    }
    String::from_utf16_lossy(filled)
}

/// One window of the desktop, as a listing or a search sees it.
pub struct DesktopWindow {
    pub hwnd: usize,
    pub visible: bool,
    pub title: Seq<char>,
}

/// The window is a visible client.
pub open spec fn is_client(window: DesktopWindow) -> bool {
    window.visible && is_client_title(window.title)
}

/// A client with its id and the name of its character.
pub struct ClientEntry {
    pub id: u32,
    pub name: Seq<char>,
}

/// The entry of a client window.
pub open spec fn entry_of(window: DesktopWindow) -> ClientEntry {
    ClientEntry { id: id_of(window.hwnd as int) as u32, name: character_of(window.title) }
}

/// The entries of listed clients.
pub open spec fn entries(windows: Seq<EveWindow>) -> Seq<ClientEntry> {
    windows.map_values(|w: EveWindow| ClientEntry { id: w.id, name: w.title@ })
}

/// A listing after one more window.
pub open spec fn after_look(listed: Seq<ClientEntry>, window: DesktopWindow) -> Seq<ClientEntry> {
    if is_client(window) {
        listed.push(entry_of(window))
    } else {
        listed
    }
}

/// Looks at one window of the desktop and appends it to `windows` if it is a
/// visible client. `title` may be anything for a window that is not visible.
pub fn enum_collect_eve(windows: &mut Vec<EveWindow>, hwnd: usize, visible: bool, title: &str)
    ensures
        entries(final(windows)@) == after_look(
            entries(old(windows)@),
            DesktopWindow { hwnd, visible, title: title@ },
        ),
        final(windows)@.take(old(windows).len() as int) == old(windows)@,
{
    if visible && client_title(title) {
        windows.push(
            EveWindow { id: hwnd_to_id(hwnd), title: trim_start_matches(title, CLIENT_PREFIX) },
        );
        assert(entries(windows@) =~= entries(old(windows)@).push(
            entry_of(DesktopWindow { hwnd, visible, title: title@ }),
        ));
    }
    assert(windows@.take(old(windows).len() as int) =~= old(windows)@);
}

/// What a listing holds after looking at `windows` in order.
pub open spec fn clients_of(windows: Seq<DesktopWindow>) -> Seq<ClientEntry>
    decreases windows.len(),
{
    if windows.len() == 0 {
        seq![]
    } else {
        after_look(clients_of(windows.drop_last()), windows.last())
    }
}

/// The place of the client at `i` in a listing of `windows`.
pub open spec fn place_of(windows: Seq<DesktopWindow>, i: int) -> int {
    clients_of(windows.take(i)).len() as int
}

proof fn lemma_listing_grows(windows: Seq<DesktopWindow>, i: int)
    requires
        0 <= i <= windows.len(),
    ensures
        place_of(windows, i) <= clients_of(windows).len(),
        forall|k: int|
            0 <= k < place_of(windows, i) ==> clients_of(windows)[k] == clients_of(
                windows.take(i),
            )[k],
    decreases windows.len() - i,
{
    if i < windows.len() {
        assert(windows.take(i + 1).drop_last() =~= windows.take(i));
        lemma_listing_grows(windows, i + 1);
    } else {
        assert(windows.take(i) =~= windows);
    }
}

/// "Launcher" occurs in the title, which then is not that of a client.
proof fn lemma_launcher_mark(title: Seq<char>)
    ensures
        crate::text::has_part(title, LAUNCHER_MARK@) <==> exists|at: int|
            0 <= at <= title.len() - 8 && #[trigger] title.subrange(at, at + 8) == "Launcher"@,
{
    reveal_strlit("Launcher");
    if crate::text::has_part(title, LAUNCHER_MARK@) {
        let at = choose|at: int|
            0 <= at <= title.len() - LAUNCHER_MARK@.len() && #[trigger] title.subrange(
                at,
                at + LAUNCHER_MARK@.len(),
            ) == LAUNCHER_MARK@;
        assert(title.subrange(at, at + 8) == "Launcher"@);
    }
    if exists|at: int|
        0 <= at <= title.len() - 8 && #[trigger] title.subrange(at, at + 8) == "Launcher"@ {
        let at = choose|at: int|
            0 <= at <= title.len() - 8 && #[trigger] title.subrange(at, at + 8) == "Launcher"@;
        assert(title.subrange(at, at + LAUNCHER_MARK@.len()) == LAUNCHER_MARK@);
    }
}

/// A window is a client exactly when its title is "EVE - " followed by any text
/// and "Launcher" occurs nowhere in it.
pub proof fn law_titles_of_clients(title: Seq<char>)
    ensures
        is_client_title(title) <==> (exists|name: Seq<char>| title == #[trigger] ("EVE - "@ + name))
            && !(exists|at: int|
            0 <= at <= title.len() - 8 && #[trigger] title.subrange(at, at + 8) == "Launcher"@),
{
    reveal_strlit("EVE - ");
    lemma_launcher_mark(title);
    if "EVE - "@.is_prefix_of(title) {
        assert(title =~= "EVE - "@ + title.skip(6));
    }
    if exists|name: Seq<char>| title == #[trigger] ("EVE - "@ + name) {
        let name = choose|name: Seq<char>| title == #[trigger] ("EVE - "@ + name);
        assert(title.subrange(0, 6) =~= "EVE - "@);
    }
}

/// The name of a client's character is what remains of the title without the
/// copies of "EVE - " that it starts with.
pub proof fn law_name_is_what_follows(text: Seq<char>)
    ensures
        character_of("EVE - "@ + text) == character_of(text),
        !"EVE - "@.is_prefix_of(text) ==> character_of(text) == text,
{
    reveal_strlit("EVE - ");
    crate::text::law_trimming_takes_copies_off(text, "EVE - "@);
}

/// One visible window more with the title "EVE - " and any name, without
/// "Launcher" in it, adds one entry at the end of a listing: the low 32 bits of
/// its handle and that name.
pub proof fn law_client_is_added(listed: Seq<ClientEntry>, hwnd: usize, name: Seq<char>)
    requires
        !"EVE - "@.is_prefix_of(name),
        forall|at: int|
            0 <= at <= ("EVE - "@ + name).len() - 8 ==> #[trigger] ("EVE - "@ + name).subrange(
                at,
                at + 8,
            ) != "Launcher"@,
    ensures
        ({
            let window = DesktopWindow { hwnd, visible: true, title: "EVE - "@ + name };
            let after = after_look(listed, window);
            &&& after.len() == listed.len() + 1
            &&& after.drop_last() =~= listed
            &&& after.last().id == hwnd as int % 0x1_0000_0000
            &&& after.last().name == name
        }),
{
    let title = "EVE - "@ + name;
    law_titles_of_clients(title);
    law_name_is_what_follows(name);
    assert(title == "EVE - "@ + name);
}

/// A window that is hidden, has a title without "EVE - " in front, or has
/// "Launcher" in its title adds nothing to a listing.
pub proof fn law_other_windows_add_nothing(listed: Seq<ClientEntry>, window: DesktopWindow, at: int)
    requires
        !window.visible || !"EVE - "@.is_prefix_of(window.title) || (0 <= at <= window.title.len() - 8
            && window.title.subrange(at, at + 8) == "Launcher"@),
    ensures
        after_look(listed, window) == listed,
{
    lemma_launcher_mark(window.title);
}

/// A listing of the desktop holds every visible window whose title starts with
/// "EVE - " and has no "Launcher" in it, with the low 32 bits of its handle and
/// the name of its character.
pub proof fn law_listing_holds_every_client(windows: Seq<DesktopWindow>, i: int)
    requires
        0 <= i < windows.len(),
        windows[i].visible,
        "EVE - "@.is_prefix_of(windows[i].title),
        forall|at: int|
            0 <= at <= windows[i].title.len() - 8 ==> #[trigger] windows[i].title.subrange(at, at + 8)
                != "Launcher"@,
    ensures
        0 <= place_of(windows, i) < clients_of(windows).len(),
        clients_of(windows)[place_of(windows, i)].id == windows[i].hwnd as int % 0x1_0000_0000,
        clients_of(windows)[place_of(windows, i)].name == character_of(windows[i].title),
{
    lemma_launcher_mark(windows[i].title);
    assert(windows.take(i + 1).drop_last() =~= windows.take(i));
    lemma_listing_grows(windows, i + 1);
}

/// A listing of the desktop holds nothing but such windows: each of its entries
/// is that of one, at the place of that window.
pub proof fn law_listing_holds_only_clients(windows: Seq<DesktopWindow>, k: int)
    requires
        0 <= k < clients_of(windows).len(),
    ensures
        exists|i: int|
            0 <= i < windows.len() && (#[trigger] windows[i]).visible && "EVE - "@.is_prefix_of(
                windows[i].title,
            ) && (forall|at: int|
                0 <= at <= windows[i].title.len() - 8 ==> #[trigger] windows[i].title.subrange(
                    at,
                    at + 8,
                ) != "Launcher"@) && place_of(windows, i) == k && clients_of(windows)[k].id
                == windows[i].hwnd as int % 0x1_0000_0000 && clients_of(windows)[k].name
                == character_of(windows[i].title),
{
    lemma_listing_holds_only_clients(windows, k);
    let i = choose|i: int|
        0 <= i < windows.len() && is_client(#[trigger] windows[i]) && place_of(windows, i) == k
            && clients_of(windows)[k] == entry_of(windows[i]);
    lemma_launcher_mark(windows[i].title);
    assert(windows[i].visible);
}

proof fn lemma_listing_holds_only_clients(windows: Seq<DesktopWindow>, k: int)
    requires
        0 <= k < clients_of(windows).len(),
    ensures
        exists|i: int|
            0 <= i < windows.len() && is_client(#[trigger] windows[i]) && place_of(windows, i) == k
                && clients_of(windows)[k] == entry_of(windows[i]),
    decreases windows.len(),
{
    let front = windows.drop_last();
    let last = windows.len() - 1;
    assert(windows.take(last) =~= front);
    if k < clients_of(front).len() {
        lemma_listing_holds_only_clients(front, k);
        let i = choose|i: int|
            0 <= i < front.len() && is_client(#[trigger] front[i]) && place_of(front, i) == k
                && clients_of(front)[k] == entry_of(front[i]);
        assert(front.take(i) =~= windows.take(i));
        assert(is_client(windows[i]));
    } else {
        assert(is_client(windows[last]));
    }
}

/// A listing keeps the order of the desktop: of two clients the one that comes
/// first is listed first, each at a place of its own.
pub proof fn law_listing_keeps_the_order(windows: Seq<DesktopWindow>, i: int, j: int)
    requires
        0 <= i < j < windows.len(),
        windows[i].visible,
        "EVE - "@.is_prefix_of(windows[i].title),
        forall|at: int|
            0 <= at <= windows[i].title.len() - 8 ==> #[trigger] windows[i].title.subrange(at, at + 8)
                != "Launcher"@,
    ensures
        place_of(windows, i) < place_of(windows, j),
{
    let upto = windows.take(j);
    assert(upto.take(i) =~= windows.take(i));
    assert(upto[i] == windows[i]);
    law_listing_holds_every_client(upto, i);
}

/// The window is visible and has this title.
pub open spec fn bears(window: DesktopWindow, title: Seq<char>) -> bool {
    window.visible && window.title == title
}

/// What a search for `title` that had found `found` knows after `window`.
pub open spec fn after_visit(
    found: Option<u32>,
    title: Seq<char>,
    window: DesktopWindow,
) -> Option<u32> {
    if found is None && bears(window, title) {
        Some(id_of(window.hwnd as int) as u32)
    } else {
        found
    }
}

/// A search of the desktop for the first visible window with a given title.
#[derive(Debug)]
pub struct TitleSearch {
    pub needle: String,
    pub found: Option<u32>,
}

impl TitleSearch {
    pub fn new(title: &str) -> (search: TitleSearch)
        ensures
            search.needle@ == title@,
            search.found is None,
    {
        TitleSearch { needle: title.to_owned(), found: None }
    }

    /// Looks at one window and says whether to go on to the next one. `title`
    /// may be anything for a window that is not visible, and once the search
    /// has found a window.
    pub fn visit(&mut self, hwnd: usize, visible: bool, title: &String) -> (go_on: bool)
        ensures
            final(self).needle@ == old(self).needle@,
            final(self).found == after_visit(
                old(self).found,
                old(self).needle@,
                DesktopWindow { hwnd, visible, title: title@ },
            ),
            go_on == (final(self).found is None),
    {
        if self.found.is_some() {
            return false;
        }
        if !visible {
            return true;
        }
        if *title == self.needle {
            self.found = Some(hwnd_to_id(hwnd));
            return false;
        }
        true
    }
}

/// What a search for `title` has found after looking at `windows` in order.
pub open spec fn found_in(title: Seq<char>, windows: Seq<DesktopWindow>) -> Option<u32>
    decreases windows.len(),
{
    if windows.len() == 0 {
        None
    } else {
        after_visit(found_in(title, windows.drop_last()), title, windows.last())
    }
}

/// A search finds the first visible window with the title: it finds nothing
/// exactly when there is none, and otherwise the low 32 bits of the handle of
/// the one that no other one precedes.
pub proof fn law_search_finds_the_first(title: Seq<char>, windows: Seq<DesktopWindow>)
    ensures
        match found_in(title, windows) {
            None => forall|i: int|
                0 <= i < windows.len() ==> !((#[trigger] windows[i]).visible && windows[i].title
                    == title),
            Some(id) => exists|i: int|
                0 <= i < windows.len() && (#[trigger] windows[i]).visible && windows[i].title == title
                    && id == windows[i].hwnd as int % 0x1_0000_0000 && forall|j: int|
                    0 <= j < i ==> !((#[trigger] windows[j]).visible && windows[j].title == title),
        },
{
    lemma_search_finds_the_first(title, windows);
    match found_in(title, windows) {
        None => {
            assert forall|i: int| 0 <= i < windows.len() implies !((#[trigger] windows[i]).visible
                && windows[i].title == title) by {
                assert(!bears(windows[i], title));
            }
        },
        Some(id) => {
            let i = choose|i: int|
                0 <= i < windows.len() && bears(#[trigger] windows[i], title) && id == id_of(
                    windows[i].hwnd as int,
                ) && forall|j: int| 0 <= j < i ==> !bears(#[trigger] windows[j], title);
            assert forall|j: int| 0 <= j < i implies !((#[trigger] windows[j]).visible
                && windows[j].title == title) by {
                assert(!bears(windows[j], title));
            }
            assert(windows[i].visible);
        },
    }
}

proof fn lemma_search_finds_the_first(title: Seq<char>, windows: Seq<DesktopWindow>)
    ensures
        match found_in(title, windows) {
            None => forall|i: int| 0 <= i < windows.len() ==> !bears(#[trigger] windows[i], title),
            Some(id) => exists|i: int|
                0 <= i < windows.len() && bears(#[trigger] windows[i], title) && id == id_of(
                    windows[i].hwnd as int,
                ) && forall|j: int| 0 <= j < i ==> !bears(#[trigger] windows[j], title),
        },
    decreases windows.len(),
{
    if windows.len() > 0 {
        let front = windows.drop_last();
        lemma_search_finds_the_first(title, front);
        match found_in(title, front) {
            None => {
                assert forall|i: int| 0 <= i < front.len() implies !bears(
                    #[trigger] windows[i],
                    title,
                ) by {
                    assert(front[i] == windows[i]);
                }
                assert(windows[windows.len() - 1] == windows.last());
            },
            Some(id) => {
                let i = choose|i: int|
                    0 <= i < front.len() && bears(#[trigger] front[i], title) && id == id_of(
                        front[i].hwnd as int,
                    ) && forall|j: int| 0 <= j < i ==> !bears(#[trigger] front[j], title);
                assert(bears(windows[i], title));
                assert forall|j: int| 0 <= j < i implies !bears(#[trigger] windows[j], title) by {
                    assert(front[j] == windows[j]);
                }
            },
        }
    }
}

/// The title of a client is the prefix and the name of its character.
pub proof fn law_title_gives_character(name: Seq<char>)
    requires
        !CLIENT_PREFIX@.is_prefix_of(name),
    ensures
        character_of(CLIENT_PREFIX@ + name) == name,
{
    reveal_strlit("EVE - ");
    reveal_with_fuel(crate::text::without_prefixes, 2);
    let title = CLIENT_PREFIX@ + name;
    assert(title.subrange(0, CLIENT_PREFIX@.len() as int) =~= CLIENT_PREFIX@);
    assert(title.skip(CLIENT_PREFIX@.len() as int) =~= name);
}

/// Where a window is to be placed.
#[derive(Clone, Copy, Debug, PartialEq, Eq, Structural)]
pub struct Placement {
    pub hwnd: usize,
    pub x: i32,
    pub y: i32,
    pub width: i32,
    pub height: i32,
}

/// The place of the stacked clients: centered across, at the top, and as high
/// as the display without the panel. Sizes beyond the signed range wrap.
pub open spec fn stacked_at(config: Config, hwnd: usize) -> Placement {
    Placement {
        hwnd,
        x: ((config.display_width - config.eve_width) / 2) as i32,
        y: 0,
        width: crate::bits::signed_low_bits(config.eve_width as int) as i32,
        height: crate::bits::signed_low_bits(config.display_height - config.panel_height) as i32,
    }
}

/// Why the window manager could not do its work.
#[derive(Clone, Copy, Debug, PartialEq, Eq, Structural)]
pub enum ManagerError {
    /// The windows of the desktop could not be listed.
    EnumWindowsFailed,
}

/// The window manager. It keeps no state of its own.
#[derive(Clone, Copy, Debug, PartialEq, Eq, Structural)]
pub struct WindowsManager;

impl WindowsManager {
    pub fn new() -> (manager: Result<WindowsManager, ManagerError>)
        ensures
            manager == Ok::<WindowsManager, ManagerError>(WindowsManager),
    {
        Ok(WindowsManager)
    }

    /// The clients, given what `enum_collect_eve` collected and whether the
    /// listing of the desktop went through.
    pub fn get_eve_windows(&self, listed: bool, collected: Vec<EveWindow>) -> (windows: Result<
        Vec<EveWindow>,
        ManagerError,
    >)
        ensures
            windows == if listed {
                Ok(collected)
            } else {
                Err(ManagerError::EnumWindowsFailed)
            },
    {
        if listed {
            Ok(collected)
        } else {
            Err(ManagerError::EnumWindowsFailed)
        }
    }

    /// The id of the active window, given the handle of the foreground window.
    pub fn get_active_window(&self, foreground: usize) -> (id: u32)
        ensures
            id == id_of(foreground as int),
    {
        hwnd_to_id(foreground)
    }

    /// The place of every client when they are stacked, in order.
    pub fn stack_windows(&self, windows: &Vec<EveWindow>, config: &Config) -> (places: Vec<Placement>)
        requires
            config.eve_width <= config.display_width,
            config.panel_height <= config.display_height,
        ensures
            places@ == windows@.map_values(|w: EveWindow| stacked_at(*config, w.id as usize)),
    {
        let x: i32 = reinterpret_signed((config.display_width - config.eve_width) / 2);
        let width: i32 = reinterpret_signed(config.eve_width);
        let height: i32 = reinterpret_signed(config.display_height - config.panel_height);
        let mut places: Vec<Placement> = Vec::new();
        let n: usize = windows.len();
        for k in 0..n
            invariant
                n == windows.len(),
                x == stacked_at(*config, 0).x,
                width == stacked_at(*config, 0).width,
                height == stacked_at(*config, 0).height,
                places@ == windows@.take(k as int).map_values(
                    |w: EveWindow| stacked_at(*config, w.id as usize),
                ),
        {
            places.push(Placement { hwnd: id_to_hwnd(windows[k].id), x, y: 0, width, height });
            assert(places@ =~= windows@.take(k as int + 1).map_values(
                |w: EveWindow| stacked_at(*config, w.id as usize),
            ));
        }
        assert(windows@.take(n as int) =~= windows@);
        places
    }
}

/// The first visible window with the title is what a search finds; what it has
/// found it keeps.
pub proof fn law_visits_of_a_search(
    found: Option<u32>,
    title: Seq<char>,
    window: DesktopWindow,
)
    ensures
        found is Some ==> after_visit(found, title, window) == found,
        found is None && window.visible && window.title == title ==> (after_visit(
            found,
            title,
            window,
        ) matches Some(id) && id == window.hwnd as int % 0x1_0000_0000),
        found is None && !(window.visible && window.title == title) ==> after_visit(
            found,
            title,
            window,
        ) is None,
{
}

/// Stacked clients all stand in one place: in the middle of the display across,
/// at its top, as wide as configured and as high as the display without the
/// panel.
pub proof fn law_place_of_stacked_clients(config: Config, hwnd: usize)
    requires
        config.eve_width <= config.display_width,
        config.panel_height <= config.display_height,
    ensures
        ({
            let p = stacked_at(config, hwnd);
            let spare = config.display_width - config.eve_width;
            let height = config.display_height - config.panel_height;
            &&& p.hwnd == hwnd
            &&& p.y == 0
            &&& p.x + p.x == spare || p.x + p.x + 1 == spare
            &&& (config.eve_width - p.width) % 0x1_0000_0000 == 0
            &&& (height - p.height) % 0x1_0000_0000 == 0
        }),
{
    crate::bits::law_signed_reading_is_congruent(config.eve_width as int, 0);
    crate::bits::law_signed_reading_is_congruent(config.display_height - config.panel_height, 0);
}

/// The entries of a listing show the ids and titles of its windows, in order.
pub proof fn law_entries_show_the_windows(windows: Seq<EveWindow>, i: int)
    requires
        0 <= i < windows.len(),
    ensures
        entries(windows).len() == windows.len(),
        entries(windows)[i].id == windows[i].id,
        entries(windows)[i].name == windows[i].title@,
{
}

/// The id of a window is the rest of its handle by 2^32.
pub proof fn law_ids_are_low_bits(hwnd: int)
    ensures
        0 <= id_of(hwnd) < 0x1_0000_0000,
        (hwnd - id_of(hwnd)) % 0x1_0000_0000 == 0,
{
}

} // verus!
