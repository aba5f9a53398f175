//! The search for the mouse device: first by the configured name, then by
//! the configured path, and last by its side buttons.
//!
//! `DeviceSearch` says what to do next; the caller does it and reports what
//! came of it.

use crate::mouse_listener::text_of;
use crate::text::starts_with;
use vstd::prelude::*;

verus! {

/// The files of input devices start with this.
pub const DEVICE_FILE_PREFIX: &'static str = "event";

/// What the search looks for.
#[derive(Clone, Copy, Debug, PartialEq, Eq, Structural)]
pub enum SearchPass {
    ByName,
    ByPath,
    BySideButtons,
}

/// Why there is no device.
#[derive(Clone, Copy, Debug, PartialEq, Eq, Structural)]
pub enum SearchError {
    /// The device directory could not be read.
    DirectoryUnreadable,
    /// An entry of the device directory could not be read.
    EntryUnreadable,
    /// No device has side buttons.
    NoMouseDevice,
}

/// What is due.
#[derive(Clone, Copy, Debug, PartialEq, Eq, Structural)]
pub enum SearchStep {
    /// Open the device directory, from its start.
    ListDevices,
    /// Read the next entry of the directory.
    NextEntry,
    /// Open the device of the entry read last.
    OpenEntry,
    /// Open the device at the configured path.
    OpenPath,
    /// Use the device opened last.
    UseDevice,
    /// Give up.
    Fail(SearchError),
}

/// A device that was opened: its name, where it has one, and whether it has
/// side buttons.
#[derive(Debug)]
pub struct DeviceInfo {
    pub name: Option<String>,
    pub side_buttons: bool,
}

/// What came of a step.
#[derive(Debug)]
pub enum SearchReply {
    /// The directory was opened, or could not be.
    Listed(bool),
    /// The next entry, by its file name where that is text.
    Entry(Option<String>),
    /// The next entry could not be read.
    EntryFailed,
    /// There are no more entries.
    EndOfList,
    Opened(DeviceInfo),
    OpenFailed,
}

/// A reply with its texts as sequences of characters.
pub enum ReplyView {
    Listed(bool),
    Entry(Option<Seq<char>>),
    EntryFailed,
    EndOfList,
    Opened { name: Option<Seq<char>>, side_buttons: bool },
    OpenFailed,
}

impl View for SearchReply {
    type V = ReplyView;

    open spec fn view(&self) -> ReplyView {
        match *self {
            SearchReply::Listed(ok) => ReplyView::Listed(ok),
            SearchReply::Entry(file) => ReplyView::Entry(text_of(file)),
            SearchReply::EntryFailed => ReplyView::EntryFailed,
            SearchReply::EndOfList => ReplyView::EndOfList,
            SearchReply::Opened(device) => ReplyView::Opened {
                name: text_of(device.name),
                side_buttons: device.side_buttons,
            },
            SearchReply::OpenFailed => ReplyView::OpenFailed,
        }
    }
}

/// The search for a device. `step` is due.
#[derive(Debug)]
pub struct DeviceSearch {
    pub name: Option<String>,
    pub path: Option<String>,
    pub pass: SearchPass,
    pub step: SearchStep,
}

/// A search with its texts as sequences of characters.
pub struct SearchView {
    pub name: Option<Seq<char>>,
    pub path: Option<Seq<char>>,
    pub pass: SearchPass,
    pub step: SearchStep,
}

impl View for DeviceSearch {
    type V = SearchView;

    open spec fn view(&self) -> SearchView {
        SearchView {
            name: text_of(self.name),
            path: text_of(self.path),
            pass: self.pass,
            step: self.step,
        }
    }
}

/// The file name is that of an input device.
pub open spec fn is_device_file(file: Option<Seq<char>>) -> bool {
    file is Some && DEVICE_FILE_PREFIX@.is_prefix_of(file->0)
}

impl SearchStep {
    /// The reply is one that the step can have.
    pub open spec fn takes(self, reply: ReplyView) -> bool {
        match self {
            SearchStep::ListDevices => reply is Listed,
            SearchStep::NextEntry => reply is Entry || reply is EntryFailed || reply is EndOfList,
            SearchStep::OpenEntry | SearchStep::OpenPath => reply is Opened || reply is OpenFailed,
            SearchStep::UseDevice | SearchStep::Fail(_) => false,
        }
    }
}

impl SearchView {
    /// The step belongs to the pass: the path is opened in the pass by path,
    /// and the directory is read in the other two.
    pub open spec fn well_formed(self) -> bool {
        match self.step {
            SearchStep::ListDevices | SearchStep::NextEntry | SearchStep::OpenEntry => self.pass
                != SearchPass::ByPath,
            SearchStep::OpenPath => self.pass == SearchPass::ByPath && self.path is Some,
            SearchStep::UseDevice | SearchStep::Fail(_) => true,
        }
    }

    /// The last pass, from its start.
    pub open spec fn at_side_buttons(self) -> SearchView {
        SearchView { pass: SearchPass::BySideButtons, step: SearchStep::ListDevices, ..self }
    }

    /// The search once the pass by name is over.
    pub open spec fn past_name(self) -> SearchView {
        if self.path is Some {
            SearchView { pass: SearchPass::ByPath, step: SearchStep::OpenPath, ..self }
        } else {
            self.at_side_buttons()
        }
    }

    /// A search for a device by an optional name and an optional path.
    pub open spec fn begun(name: Option<Seq<char>>, path: Option<Seq<char>>) -> SearchView {
        let search = SearchView {
            name,
            path,
            pass: SearchPass::ByName,
            step: SearchStep::ListDevices,
        };
        if name is Some {
            search
        } else {
            search.past_name()
        }
    }

    /// A device is the one that the pass looks for.
    pub open spec fn wants(self, name: Option<Seq<char>>, side_buttons: bool) -> bool {
        match self.pass {
            SearchPass::ByName => name is Some && name == self.name,
            SearchPass::ByPath => true,
            SearchPass::BySideButtons => side_buttons,
        }
    }

    /// The search after a reply.
    pub open spec fn next(self, reply: ReplyView) -> SearchView {
        match reply {
            ReplyView::Listed(ok) => SearchView {
                step: if ok {
                    SearchStep::NextEntry
                } else {
                    SearchStep::Fail(SearchError::DirectoryUnreadable)
                },
                ..self
            },
            ReplyView::Entry(file) => SearchView {
                step: if is_device_file(file) {
                    SearchStep::OpenEntry
                } else {
                    SearchStep::NextEntry
                },
                ..self
            },
            ReplyView::EntryFailed => SearchView {
                step: SearchStep::Fail(SearchError::EntryUnreadable),
                ..self
            },
            ReplyView::EndOfList => if self.pass == SearchPass::ByName {
                self.past_name()
            } else {
                SearchView { step: SearchStep::Fail(SearchError::NoMouseDevice), ..self }
            },
            ReplyView::Opened { name, side_buttons } => SearchView {
                step: if self.wants(name, side_buttons) {
                    SearchStep::UseDevice
                } else {
                    SearchStep::NextEntry
                },
                ..self
            },
            ReplyView::OpenFailed => if self.pass == SearchPass::ByPath {
                self.at_side_buttons()
            } else {
                SearchView { step: SearchStep::NextEntry, ..self }
            },
        }
    }
}

impl DeviceSearch {
    /// Starts the search for the device with the configured name or path,
    /// where there is one.
    pub fn find_mouse_device(name: Option<String>, path: Option<String>) -> (search: DeviceSearch)
        ensures
            search@ == SearchView::begun(text_of(name), text_of(path)),
            search@.well_formed(),
    {
        let by_name: bool = name.is_some();
        let mut search = DeviceSearch {
            name,
            path,
            pass: SearchPass::ByName,
            step: SearchStep::ListDevices,
        };
        if !by_name {
            search.leave_name_pass();
        }
        search
    }

    fn leave_name_pass(&mut self)
        ensures
            final(self)@ == old(self)@.past_name(),
    {
        if self.path.is_some() {
            self.pass = SearchPass::ByPath;
            self.step = SearchStep::OpenPath;
        } else {
            self.pass = SearchPass::BySideButtons;
            self.step = SearchStep::ListDevices;
        }
    }

    fn is_wanted(&self, device: &DeviceInfo) -> (r: bool)
        ensures
            r == self@.wants(text_of(device.name), device.side_buttons),
    {
        match self.pass {
            SearchPass::ByName => match (&device.name, &self.name) {
                (Some(found), Some(sought)) => *found == *sought,
                _ => false,
            },
            SearchPass::ByPath => true,
            SearchPass::BySideButtons => device.side_buttons,
        }
    }

    /// Takes the reply to the step that is due.
    pub fn advance(&mut self, reply: &SearchReply)
        requires
            old(self).step.takes(reply@),
        ensures
            final(self)@ == old(self)@.next(reply@),
            old(self)@.well_formed() ==> final(self)@.well_formed(),
    {
        match reply {
            SearchReply::Listed(ok) => {
                self.step = if *ok {
                    SearchStep::NextEntry
                } else {
                    SearchStep::Fail(SearchError::DirectoryUnreadable)
                };
            },
            SearchReply::Entry(file) => {
                let is_device = match file {
                    Some(file) => starts_with(file.as_str(), DEVICE_FILE_PREFIX),
                    None => false,
                };
                self.step = if is_device {
                    SearchStep::OpenEntry
                } else {
                    SearchStep::NextEntry
                };
            },
            SearchReply::EntryFailed => {
                self.step = SearchStep::Fail(SearchError::EntryUnreadable);
            },
            SearchReply::EndOfList => {
                if self.pass == SearchPass::ByName {
                    self.leave_name_pass();
                } else {
                    self.step = SearchStep::Fail(SearchError::NoMouseDevice);
                }
            },
            SearchReply::Opened(device) => {
                self.step = if self.is_wanted(device) {
                    SearchStep::UseDevice
                } else {
                    SearchStep::NextEntry
                };
            },
            SearchReply::OpenFailed => {
                if self.pass == SearchPass::ByPath {
                    self.pass = SearchPass::BySideButtons;
                    self.step = SearchStep::ListDevices;
                } else {
                    self.step = SearchStep::NextEntry;
                }
            },
        }
    }
}

/// A device: its name, where it has one, and whether it has side buttons.
pub struct DeviceModel {
    pub name: Option<Seq<char>>,
    pub side_buttons: bool,
}

/// An entry of the device directory: its file name, where that is text, and
/// its device, where it can be opened.
pub struct EntryModel {
    pub file: Option<Seq<char>>,
    pub device: Option<DeviceModel>,
}

impl EntryModel {
    /// The entry is a device that can be opened.
    pub open spec fn usable(self) -> bool {
        is_device_file(self.file) && self.device is Some
    }

    pub open spec fn named(self, name: Seq<char>) -> bool {
        self.usable() && self.device->0.name == Some(name)
    }

    pub open spec fn with_side_buttons(self) -> bool {
        self.usable() && self.device->0.side_buttons
    }

    /// The reply to opening the entry.
    pub open spec fn reply(self) -> ReplyView {
        match self.device {
            Some(DeviceModel { name, side_buttons }) => ReplyView::Opened { name, side_buttons },
            None => ReplyView::OpenFailed,
        }
    }
}

/// Where a search ends.
pub enum SearchOutcome {
    /// With the device of this entry of the directory.
    Entry(int),
    /// With the device at the configured path.
    Path,
    Failed(SearchError),
}

/// The end of a search that is at entry `pos` of a readable directory.
/// `at_path` is the device at the configured path, where it can be opened.
pub open spec fn course(
    search: SearchView,
    entries: Seq<EntryModel>,
    at_path: Option<DeviceModel>,
    pos: int,
) -> SearchOutcome
    decreases
            match search.pass {
                SearchPass::ByName => 2int,
                SearchPass::ByPath => 1int,
                SearchPass::BySideButtons => 0int,
            },
            if search.step == SearchStep::ListDevices {
                1int
            } else {
                0int
            },
            entries.len() - pos,
            if search.step == SearchStep::NextEntry {
                1int
            } else {
                0int
            },
    when search.well_formed() && 0 <= pos <= entries.len() && (search.step == SearchStep::OpenEntry
        ==> pos < entries.len())
{
    match search.step {
        SearchStep::ListDevices => course(
            search.next(ReplyView::Listed(true)),
            entries,
            at_path,
            0,
        ),
        SearchStep::NextEntry => if pos < entries.len() {
            let after = search.next(ReplyView::Entry(entries[pos].file));
            if after.step == SearchStep::OpenEntry {
                course(after, entries, at_path, pos)
            } else {
                course(after, entries, at_path, pos + 1)
            }
        } else {
            let after = search.next(ReplyView::EndOfList);
            match after.step {
                SearchStep::Fail(e) => SearchOutcome::Failed(e),
                _ => course(after, entries, at_path, 0),
            }
        },
        SearchStep::OpenEntry => {
            let after = search.next(entries[pos].reply());
            if after.step == SearchStep::UseDevice {
                SearchOutcome::Entry(pos)
            } else {
                course(after, entries, at_path, pos + 1)
            }
        },
        SearchStep::OpenPath => {
            let after = search.next(
                match at_path {
                    Some(DeviceModel { name, side_buttons }) => ReplyView::Opened { name, side_buttons },
                    None => ReplyView::OpenFailed,
                },
            );
            if after.step == SearchStep::UseDevice {
                SearchOutcome::Path
            } else {
                course(after, entries, at_path, 0)
            }
        },
        SearchStep::UseDevice => SearchOutcome::Entry(pos),
        SearchStep::Fail(e) => SearchOutcome::Failed(e),
    }
}

/// `i` is the first entry that satisfies `p`.
pub open spec fn is_first(entries: Seq<EntryModel>, i: int, p: spec_fn(EntryModel) -> bool) -> bool {
    &&& 0 <= i < entries.len()
    &&& p(entries[i])
    &&& forall|j: int| 0 <= j < i ==> !p(#[trigger] entries[j])
}

/// No entry satisfies `p`.
pub open spec fn is_absent(entries: Seq<EntryModel>, p: spec_fn(EntryModel) -> bool) -> bool {
    forall|j: int| 0 <= j < entries.len() ==> !p(#[trigger] entries[j])
}

proof fn lemma_side_button_pass(
    search: SearchView,
    entries: Seq<EntryModel>,
    at_path: Option<DeviceModel>,
    pos: int,
)
    requires
        search.pass == SearchPass::BySideButtons,
        search.step == SearchStep::NextEntry,
        0 <= pos <= entries.len(),
        forall|j: int| 0 <= j < pos ==> !(#[trigger] entries[j]).with_side_buttons(),
    ensures
        match course(search, entries, at_path, pos) {
            SearchOutcome::Entry(i) => is_first(entries, i, |e: EntryModel| e.with_side_buttons()),
            SearchOutcome::Path => false,
            SearchOutcome::Failed(e) => e == SearchError::NoMouseDevice && is_absent(
                entries,
                |e: EntryModel| e.with_side_buttons(),
            ),
        },
    decreases entries.len() - pos,
{
    reveal_with_fuel(course, 3);
    if pos < entries.len() && !entries[pos].with_side_buttons() {
        lemma_side_button_pass(search, entries, at_path, pos + 1);
    }
}

proof fn lemma_name_pass(
    search: SearchView,
    entries: Seq<EntryModel>,
    at_path: Option<DeviceModel>,
    pos: int,
)
    requires
        search.pass == SearchPass::ByName,
        search.step == SearchStep::NextEntry,
        search.name is Some,
        0 <= pos <= entries.len(),
        forall|j: int| 0 <= j < pos ==> !(#[trigger] entries[j]).named(search.name->0),
    ensures
        ({
            let p = |e: EntryModel| e.named(search.name->0);
            ||| exists|i: int|
                is_first(entries, i, p) && course(search, entries, at_path, pos)
                    == SearchOutcome::Entry(i)
            ||| is_absent(entries, p) && course(search, entries, at_path, pos) == course(
                search.past_name(),
                entries,
                at_path,
                0,
            )
        }),
    decreases entries.len() - pos,
{
    reveal_with_fuel(course, 3);
    let p = |e: EntryModel| e.named(search.name->0);
    if pos < entries.len() {
        if entries[pos].named(search.name->0) {
            assert(is_first(entries, pos, p));
        } else {
            lemma_name_pass(search, entries, at_path, pos + 1);
        }
    } else {
        assert(is_absent(entries, p));
    }
}

/// The order of preference. In a readable directory the search ends with the
/// first device that bears the configured name; where there is none, with the
/// device at the configured path, if it can be opened; and else with the
/// first device with side buttons. It fails exactly when there is none of
/// these. Devices are the entries whose file names start with "event" and that
/// can be opened.
pub proof fn law_search_order(
    name: Option<Seq<char>>,
    path: Option<Seq<char>>,
    entries: Seq<EntryModel>,
    at_path: Option<DeviceModel>,
)
    ensures
        ({
            let outcome = course(SearchView::begun(name, path), entries, at_path, 0);
            let is_device = |e: EntryModel|
                e.file is Some && "event"@.is_prefix_of(e.file->0) && e.device is Some;
            let bears_name = |e: EntryModel|
                is_device(e) && name is Some && e.device->0.name == name;
            let has_buttons = |e: EntryModel| is_device(e) && e.device->0.side_buttons;
            if !is_absent(entries, bears_name) {
                outcome is Entry && is_first(entries, outcome->Entry_0, bears_name)
            } else if path is Some && at_path is Some {
                outcome == SearchOutcome::Path
            } else if !is_absent(entries, has_buttons) {
                outcome is Entry && is_first(entries, outcome->Entry_0, has_buttons)
            } else {
                outcome == SearchOutcome::Failed(SearchError::NoMouseDevice)
            }
        }),
{
    let is_device = |e: EntryModel|
        e.file is Some && "event"@.is_prefix_of(e.file->0) && e.device is Some;
    let bears_name = |e: EntryModel| is_device(e) && name is Some && e.device->0.name == name;
    let has_buttons = |e: EntryModel| is_device(e) && e.device->0.side_buttons;
    let named = |e: EntryModel| name is Some && e.named(name->0);
    let buttoned = |e: EntryModel| e.with_side_buttons();
    lemma_search_order(name, path, entries, at_path);
    assert(named =~= bears_name);
    assert(buttoned =~= has_buttons);
}

proof fn lemma_search_order(
    name: Option<Seq<char>>,
    path: Option<Seq<char>>,
    entries: Seq<EntryModel>,
    at_path: Option<DeviceModel>,
)
    ensures
        ({
            let outcome = course(SearchView::begun(name, path), entries, at_path, 0);
            let bears_name = |e: EntryModel| name is Some && e.named(name->0);
            let has_buttons = |e: EntryModel| e.with_side_buttons();
            if !is_absent(entries, bears_name) {
                outcome is Entry && is_first(entries, outcome->Entry_0, bears_name)
            } else if path is Some && at_path is Some {
                outcome == SearchOutcome::Path
            } else if !is_absent(entries, has_buttons) {
                outcome is Entry && is_first(entries, outcome->Entry_0, has_buttons)
            } else {
                outcome == SearchOutcome::Failed(SearchError::NoMouseDevice)
            }
        }),
{
    let start = SearchView::begun(name, path);
    let bears_name = |e: EntryModel| name is Some && e.named(name->0);
    let has_buttons = |e: EntryModel| e.with_side_buttons();
    let late = start.at_side_buttons();
    let scan = late.next(ReplyView::Listed(true));
    lemma_side_button_pass(scan, entries, at_path, 0);
    reveal_with_fuel(course, 3);
    assert(course(late, entries, at_path, 0) == course(scan, entries, at_path, 0));
    let past = start.past_name();
    assert(past.path is Some && at_path is Some ==> course(past, entries, at_path, 0)
        == SearchOutcome::Path);
    assert(!(past.path is Some && at_path is Some) ==> course(past, entries, at_path, 0) == course(
        late,
        entries,
        at_path,
        0,
    ));
    if name is Some {
        let by_name = start.next(ReplyView::Listed(true));
        let p = |e: EntryModel| e.named(by_name.name->0);
        lemma_name_pass(by_name, entries, at_path, 0);
        assert(is_absent(entries, p) == is_absent(entries, bears_name)) by {
            if is_absent(entries, p) {
                assert forall|j: int| 0 <= j < entries.len() implies !bears_name(
                    #[trigger] entries[j],
                ) by {
                    assert(!p(entries[j]));
                }
            }
            if is_absent(entries, bears_name) {
                assert forall|j: int| 0 <= j < entries.len() implies !p(#[trigger] entries[j]) by {
                    assert(!bears_name(entries[j]));
                }
            }
        }
        assert(by_name.past_name() == past);
    }
}

/// Every file whose name starts with "event" is opened, whatever follows in the
/// name; no other file is, nor one whose name is no text. The rest of the
/// search stays as it is.
pub proof fn law_event_files_are_opened(search: SearchView, rest: Seq<char>, file: Seq<char>)
    ensures
        search.next(ReplyView::Entry(Some("event"@ + rest))).step == SearchStep::OpenEntry,
        !"event"@.is_prefix_of(file) ==> search.next(ReplyView::Entry(Some(file))).step
            == SearchStep::NextEntry,
        search.next(ReplyView::Entry(None)).step == SearchStep::NextEntry,
        search.next(ReplyView::Entry(Some(file))).pass == search.pass,
        search.next(ReplyView::Entry(Some(file))).name == search.name,
        search.next(ReplyView::Entry(Some(file))).path == search.path,
{
    let whole = "event"@ + rest;
    assert(whole.subrange(0, "event"@.len() as int) =~= "event"@);
}

/// A directory or an entry that cannot be read ends the search at once.
pub proof fn law_unreadable_directory_fails(search: SearchView)
    ensures
        search.next(ReplyView::Listed(true)).step == SearchStep::NextEntry,
        search.next(ReplyView::Listed(false)).step == SearchStep::Fail(
            SearchError::DirectoryUnreadable,
        ),
        search.next(ReplyView::EntryFailed).step == SearchStep::Fail(SearchError::EntryUnreadable),
{
}

/// A search starts with the name, where one is configured, then turns to the
/// path, where one is, and last to the side buttons, from the first entry on.
pub proof fn law_passes_of_the_search(search: SearchView, name: Seq<char>, path: Seq<char>)
    ensures
        ({
            let by_name = SearchView::begun(Some(name), search.path);
            &&& by_name.pass == SearchPass::ByName && by_name.step == SearchStep::ListDevices
            &&& by_name.name == Some(name) && by_name.path == search.path
        }),
        ({
            let by_path = SearchView::begun(None, Some(path));
            &&& by_path.pass == SearchPass::ByPath && by_path.step == SearchStep::OpenPath
            &&& by_path.name is None && by_path.path == Some(path)
        }),
        ({
            let bare = SearchView::begun(None, None);
            &&& bare.pass == SearchPass::BySideButtons && bare.step == SearchStep::ListDevices
            &&& bare.name is None && bare.path is None
        }),
        search.pass == SearchPass::ByName ==> {
            let after = search.next(ReplyView::EndOfList);
            &&& after.name == search.name && after.path == search.path
            &&& search.path is Some ==> after.pass == SearchPass::ByPath && after.step
                == SearchStep::OpenPath
            &&& search.path is None ==> after.pass == SearchPass::BySideButtons && after.step
                == SearchStep::ListDevices
        },
        search.pass == SearchPass::ByPath ==> {
            let after = search.next(ReplyView::OpenFailed);
            &&& after.name == search.name && after.path == search.path
            &&& after.pass == SearchPass::BySideButtons && after.step == SearchStep::ListDevices
        },
        search.pass == SearchPass::BySideButtons ==> search.next(ReplyView::EndOfList).step
            == SearchStep::Fail(SearchError::NoMouseDevice),
{
}

/// A device that was opened is used when it bears the configured name in the
/// search by name, always in the search by path, and when it has side buttons in
/// the search by these. Otherwise, or when it could not be opened, the search in
/// the directory goes on with the next entry.
pub proof fn law_wanted_devices_are_used(
    search: SearchView,
    name: Option<Seq<char>>,
    side_buttons: bool,
)
    ensures
        ({
            let after = search.next(ReplyView::Opened { name, side_buttons });
            let wanted = match search.pass {
                SearchPass::ByName => name is Some && search.name is Some && name->0
                    == search.name->0,
                SearchPass::ByPath => true,
                SearchPass::BySideButtons => side_buttons,
            };
            &&& after.step == if wanted {
                SearchStep::UseDevice
            } else {
                SearchStep::NextEntry
            }
            &&& after.pass == search.pass && after.name == search.name && after.path == search.path
        }),
        search.pass != SearchPass::ByPath ==> {
            let after = search.next(ReplyView::OpenFailed);
            &&& after.step == SearchStep::NextEntry
            &&& after.pass == search.pass && after.name == search.name && after.path == search.path
        },
{
}

/// The views of a search and of a reply show what they hold.
pub proof fn law_search_views(search: DeviceSearch, file: String, device: DeviceInfo, ok: bool)
    ensures
        search@.pass == search.pass,
        search@.step == search.step,
        search.name matches Some(name) ==> search@.name == Some(name@),
        search.name is None ==> search@.name is None,
        search.path matches Some(path) ==> search@.path == Some(path@),
        search.path is None ==> search@.path is None,
        SearchReply::Listed(ok)@ == ReplyView::Listed(ok),
        SearchReply::Entry(Some(file))@ == ReplyView::Entry(Some(file@)),
        SearchReply::Entry(None)@ == ReplyView::Entry(None),
        SearchReply::EntryFailed@ == ReplyView::EntryFailed,
        SearchReply::EndOfList@ == ReplyView::EndOfList,
        SearchReply::OpenFailed@ == ReplyView::OpenFailed,
        SearchReply::Opened(device)@ matches ReplyView::Opened { name, side_buttons }
            && side_buttons == device.side_buttons && match device.name {
            Some(n) => name == Some(n@),
            None => name is None,
        },
{
}

} // verus!
