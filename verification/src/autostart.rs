//! Starting at login, for the current user: by a value of the registry's Run
//! key, or by a desktop entry.

use crate::wide::{little_endian, wide_z};
use vstd::prelude::*;

verus! {

/// The name of the Run value.
pub const APP_NAME: &'static str = "Nicotine";

/// The Run key, below the root of the current user.
pub const RUN_SUBKEY: &'static str = "Software\\Microsoft\\Windows\\CurrentVersion\\Run";

/// The directory of desktop entries, below the configuration directory.
pub const AUTOSTART_DIR: &'static str = "autostart";

/// The file name of the desktop entry.
pub const DESKTOP_FILE: &'static str = "nicotine.desktop";

/// Why starting at login could not be changed.
#[derive(Clone, Copy, Debug, PartialEq, Eq, Structural)]
pub enum AutostartError {
    /// The program does not know its own executable.
    LocateExe,
    /// The Run key could not be opened.
    OpenRunKey,
    /// The Run value could not be written.
    WriteRunValue,
    /// The configuration directory is not known.
    LocateConfigDir,
    /// The directory of desktop entries could not be created.
    CreateAutostartDir,
    /// The desktop entry could not be written.
    WriteDesktopEntry,
}

/// The change to make.
#[derive(Debug)]
pub enum AutostartChange {
    /// Start this executable at login.
    Write(String),
    /// Start nothing at login.
    Clear,
}

/// A change with its executable as a sequence of characters.
pub enum ChangeView {
    Write(Seq<char>),
    Clear,
}

impl View for AutostartChange {
    type V = ChangeView;

    open spec fn view(&self) -> ChangeView {
        match *self {
            AutostartChange::Write(exe) => ChangeView::Write(exe@),
            AutostartChange::Clear => ChangeView::Clear,
        }
    }
}

/// What switching on or off asks for. Only switching on needs the executable.
pub open spec fn asked(enabled: bool, exe: Option<Seq<char>>) -> Result<ChangeView, AutostartError> {
    if !enabled {
        Ok(ChangeView::Clear)
    } else {
        match exe {
            Some(exe) => Ok(ChangeView::Write(exe)),
            None => Err(AutostartError::LocateExe),
        }
    }
}

/// What switching on or off asks for. `exe` is the running executable, where
/// it is known; switching off does not need it.
pub fn set_enabled(enabled: bool, exe: Option<&str>) -> (change: Result<
    AutostartChange,
    AutostartError,
>)
    ensures
        asked(
            enabled,
            match exe {
                Some(exe) => Some(exe@),
                None => None,
            },
        ) == match change {
            Ok(change) => Ok::<ChangeView, AutostartError>(change@),
            Err(e) => Err(e),
        },
{
    if !enabled {
        return Ok(AutostartChange::Clear);
    }
    match exe {
        Some(path) => Ok(AutostartChange::Write(path.to_owned())),
        None => Err(AutostartError::LocateExe),
    }
}

/// The command of the Run value: the quoted executable and its arguments.
pub open spec fn run_command(exe: Seq<char>) -> Seq<char> {
    "\""@ + exe + "\" start --autostart"@
}

/// The bytes of the Run value for an executable.
pub open spec fn run_bytes(exe: Seq<char>) -> Seq<u8> {
    crate::wide::unit_bytes(crate::wide::utf16(run_command(exe)).push(0))
}

/// The zero-terminated name of the Run value.
pub open spec fn value_name() -> Seq<u16> {
    crate::wide::utf16(APP_NAME@).push(0)
}

/// The desktop entry that starts the executable.
pub open spec fn desktop_text(exe: Seq<char>) -> Seq<char> {
    "[Desktop Entry]\nType=Application\nName=Nicotine\nExec="@ + exe
        + " start --autostart\nTerminal=false\nX-GNOME-Autostart-enabled=true\n"@
}

/// The command of the Run value for an executable.
pub fn run_value(exe: &str) -> (command: String)
    ensures
        command@ == run_command(exe@),
{
    "\"".to_owned().concat(exe).concat("\" start --autostart")
}

/// The text of the desktop entry for an executable.
pub fn desktop_entry(exe: &str) -> (body: String)
    ensures
        body@ == desktop_text(exe@),
{
    "[Desktop Entry]\nType=Application\nName=Nicotine\nExec=".to_owned().concat(exe).concat(
        " start --autostart\nTerminal=false\nX-GNOME-Autostart-enabled=true\n",
    )
}

/// The registry call that is due.
#[derive(Clone, Copy, Debug, PartialEq, Eq, Structural)]
pub enum RegistryStep {
    /// Open the key for writing, creating it if need be.
    CreateKey,
    /// Open the key for writing if it exists.
    OpenKey,
    /// Write the value as text.
    SetValue,
    /// Delete the value.
    DeleteValue,
    CloseKey,
    Done,
    Failed(AutostartError),
}

/// A change of the Run value. `subkey` and `name` are zero-terminated; `value`
/// holds the bytes of the zero-terminated command, and is empty when the value
/// is deleted.
#[derive(Debug)]
pub struct RunKeyEdit {
    pub step: RegistryStep,
    pub subkey: Vec<u16>,
    pub name: Vec<u16>,
    pub value: Vec<u8>,
    /// The value could not be written.
    pub write_failed: bool,
}

/// The step after `step` went well or not.
pub open spec fn registry_next(step: RegistryStep, ok: bool, write_failed: bool) -> RegistryStep {
    match step {
        RegistryStep::CreateKey => if ok {
            RegistryStep::SetValue
        } else {
            RegistryStep::Failed(AutostartError::OpenRunKey)
        },
        RegistryStep::OpenKey => if ok {
            RegistryStep::DeleteValue
        } else {
            RegistryStep::Done
        },
        RegistryStep::SetValue | RegistryStep::DeleteValue => RegistryStep::CloseKey,
        RegistryStep::CloseKey => if write_failed {
            RegistryStep::Failed(AutostartError::WriteRunValue)
        } else {
            RegistryStep::Done
        },
        RegistryStep::Done => RegistryStep::Done,
        RegistryStep::Failed(e) => RegistryStep::Failed(e),
    }
}

/// Whether the value could not be written, after `step` went well or not.
pub open spec fn registry_write_failed(step: RegistryStep, ok: bool, write_failed: bool) -> bool {
    if step == RegistryStep::SetValue {
        !ok
    } else {
        write_failed
    }
}

/// The key is open while this step is due.
pub open spec fn key_open(step: RegistryStep) -> bool {
    step == RegistryStep::SetValue || step == RegistryStep::DeleteValue || step
        == RegistryStep::CloseKey
}

/// A bound on the calls that can still follow.
pub open spec fn registry_rank(step: RegistryStep) -> nat {
    match step {
        RegistryStep::CreateKey | RegistryStep::OpenKey => 3,
        RegistryStep::SetValue | RegistryStep::DeleteValue => 2,
        RegistryStep::CloseKey => 1,
        RegistryStep::Done | RegistryStep::Failed(_) => 0,
    }
}

impl RunKeyEdit {
    /// Starts to write the Run value for an executable.
    pub fn write(exe: &str) -> (edit: RunKeyEdit)
        ensures
            edit.step == RegistryStep::CreateKey,
            edit.subkey@ == crate::wide::utf16(RUN_SUBKEY@).push(0),
            edit.name@ == value_name(),
            edit.value@ == run_bytes(exe@),
            !edit.write_failed,
    {
        let command = run_value(exe);
        RunKeyEdit {
            step: RegistryStep::CreateKey,
            subkey: wide_z(RUN_SUBKEY),
            name: wide_z(APP_NAME),
            value: little_endian(&wide_z(command.as_str())),
            write_failed: false,
        }
    }

    /// Starts to delete the Run value.
    pub fn clear() -> (edit: RunKeyEdit)
        ensures
            edit.step == RegistryStep::OpenKey,
            edit.subkey@ == crate::wide::utf16(RUN_SUBKEY@).push(0),
            edit.name@ == value_name(),
            edit.value@ == Seq::<u8>::empty(),
            !edit.write_failed,
    {
        RunKeyEdit {
            step: RegistryStep::OpenKey,
            subkey: wide_z(RUN_SUBKEY),
            name: wide_z(APP_NAME),
            value: Vec::new(),
            write_failed: false,
        }
    }

    /// Takes the outcome of the call that was due. A value that cannot be
    /// deleted, or a key that does not exist, counts as cleared.
    pub fn advance(&mut self, ok: bool)
        ensures
            final(self).step == registry_next(old(self).step, ok, old(self).write_failed),
            final(self).write_failed == registry_write_failed(
                old(self).step,
                ok,
                old(self).write_failed,
            ),
            final(self).subkey@ == old(self).subkey@,
            final(self).name@ == old(self).name@,
            final(self).value@ == old(self).value@,
    {
        match self.step {
            RegistryStep::CreateKey => {
                self.step = if ok {
                    RegistryStep::SetValue
                } else {
                    RegistryStep::Failed(AutostartError::OpenRunKey)
                };
            },
            RegistryStep::OpenKey => {
                self.step = if ok {
                    RegistryStep::DeleteValue
                } else {
                    RegistryStep::Done
                };
            },
            RegistryStep::SetValue => {
                self.write_failed = !ok;
                self.step = RegistryStep::CloseKey;
            },
            RegistryStep::DeleteValue => {
                self.step = RegistryStep::CloseKey;
            },
            RegistryStep::CloseKey => {
                self.step = if self.write_failed {
                    RegistryStep::Failed(AutostartError::WriteRunValue)
                } else {
                    RegistryStep::Done
                };
            },
            RegistryStep::Done | RegistryStep::Failed(_) => {},
        }
    }
}

/// A key that was opened is closed: it becomes open only when opening it went
/// well, stays open until the call to close it, and no change ends with it
/// open. Every change ends.
pub proof fn law_opened_key_is_closed(step: RegistryStep, ok: bool, write_failed: bool)
    ensures
        ({
            let next = registry_next(step, ok, write_failed);
            &&& key_open(next) && !key_open(step) ==> ok && (step == RegistryStep::CreateKey || step
                == RegistryStep::OpenKey)
            &&& key_open(step) && !key_open(next) ==> step == RegistryStep::CloseKey
            &&& registry_rank(next) < registry_rank(step) || step == next
            &&& registry_rank(step) == 0 ==> !key_open(step)
        }),
{
}

/// The Run key: its values by name, `None` while there is no such key.
pub type RunKey = Option<Map<Seq<u16>, Seq<u8>>>;

/// Which registry calls go well.
pub struct RegistryAnswers {
    pub create: bool,
    pub open: bool,
    pub set: bool,
    pub delete: bool,
    pub close: bool,
}

impl RegistryAnswers {
    /// Whether the call of a step goes well.
    pub open spec fn to(self, step: RegistryStep) -> bool {
        match step {
            RegistryStep::CreateKey => self.create,
            RegistryStep::OpenKey => self.open,
            RegistryStep::SetValue => self.set,
            RegistryStep::DeleteValue => self.delete,
            RegistryStep::CloseKey => self.close,
            RegistryStep::Done | RegistryStep::Failed(_) => true,
        }
    }
}

/// The Run key after the call of a step. A call that does not go well changes
/// nothing.
pub open spec fn registry_effect(key: RunKey, step: RegistryStep, ok: bool, value: Seq<u8>) -> RunKey {
    match (step, key) {
        (RegistryStep::CreateKey, None) if ok => Some(Map::empty()),
        (RegistryStep::SetValue, Some(values)) if ok => Some(values.insert(value_name(), value)),
        (RegistryStep::DeleteValue, Some(values)) if ok => Some(values.remove(value_name())),
        _ => key,
    }
}

/// How a change of the Run value ends, and the Run key afterwards, when its
/// calls go as `answers` says.
pub open spec fn registry_course(
    step: RegistryStep,
    write_failed: bool,
    value: Seq<u8>,
    key: RunKey,
    answers: RegistryAnswers,
) -> (Result<(), AutostartError>, RunKey)
    decreases registry_rank(step),
{
    let ok = answers.to(step);
    match step {
        RegistryStep::Done => (Ok(()), key),
        RegistryStep::Failed(e) => (Err(e), key),
        _ => registry_course(
            registry_next(step, ok, write_failed),
            registry_write_failed(step, ok, write_failed),
            value,
            registry_effect(key, step, ok, value),
            answers,
        ),
    }
}

/// How switching on or off ends, and the Run key afterwards.
pub open spec fn registry_switched(
    enabled: bool,
    exe: Option<Seq<char>>,
    key: RunKey,
    answers: RegistryAnswers,
) -> (Result<(), AutostartError>, RunKey) {
    match asked(enabled, exe) {
        Ok(ChangeView::Write(exe)) => registry_course(
            RegistryStep::CreateKey,
            false,
            run_bytes(exe),
            key,
            answers,
        ),
        Ok(ChangeView::Clear) => registry_course(
            RegistryStep::OpenKey,
            false,
            Seq::empty(),
            key,
            answers,
        ),
        Err(e) => (Err(e), key),
    }
}

/// The Run key without the program's own value.
pub open spec fn without_value(key: RunKey) -> RunKey {
    match key {
        Some(values) => Some(values.remove(value_name())),
        None => None,
    }
}

/// Switching on: it goes well exactly when the executable is known and the
/// key can be opened and the value written. The Run key then holds the command
/// for the executable under the program's name, and its other values as
/// before. Otherwise no value is changed; nothing at all is when the executable
/// is unknown.
pub proof fn law_run_value_switched_on(
    exe: Option<Seq<char>>,
    key: RunKey,
    answers: RegistryAnswers,
)
    ensures
        ({
            let (result, after) = registry_switched(true, exe, key, answers);
            let values = match key {
                Some(values) => values,
                None => Map::empty(),
            };
            &&& result == if exe is None {
                Err::<(), AutostartError>(AutostartError::LocateExe)
            } else if !answers.create {
                Err(AutostartError::OpenRunKey)
            } else if !answers.set {
                Err(AutostartError::WriteRunValue)
            } else {
                Ok(())
            }
            &&& result is Ok ==> after == Some(values.insert(value_name(), run_bytes(exe->0)))
            &&& result is Err ==> after == key || after == Some(values)
            &&& exe is None ==> after == key
        }),
{
    reveal_with_fuel(registry_course, 4);
}

/// Switching off always goes well, whether or not the executable is known,
/// the key can be opened or the value deleted. It removes the program's own
/// value or nothing, and removes it where the key can be opened and the value
/// deleted.
pub proof fn law_run_value_switched_off(
    exe: Option<Seq<char>>,
    key: RunKey,
    answers: RegistryAnswers,
)
    ensures
        registry_switched(false, exe, key, answers) == (
            Ok::<(), AutostartError>(()),
            if answers.open && answers.delete {
                without_value(key)
            } else {
                key
            },
        ),
{
    reveal_with_fuel(registry_course, 4);
}

/// Switching off twice leaves the Run key as switching off once does, when the
/// calls go alike both times; and once the value is gone, switching off
/// changes nothing however they go.
pub proof fn law_run_value_switched_off_twice(
    exe: Option<Seq<char>>,
    key: RunKey,
    answers: RegistryAnswers,
    later: RegistryAnswers,
)
    ensures
        ({
            let once = registry_switched(false, exe, key, answers).1;
            &&& registry_switched(false, exe, once, answers).1 == once
            &&& answers.open && answers.delete ==> registry_switched(false, exe, once, later).1 == once
        }),
{
    law_run_value_switched_off(exe, key, answers);
    let once = registry_switched(false, exe, key, answers).1;
    law_run_value_switched_off(exe, once, answers);
    law_run_value_switched_off(exe, once, later);
    if let Some(values) = key {
        assert(values.remove(value_name()).remove(value_name()) =~= values.remove(value_name()));
    }
}

/// Switching off undoes switching on: after a switch on that went well, a
/// switch off whose calls go well ends well, with the program's value gone and
/// every other value as it was before both.
pub proof fn law_run_value_off_undoes_on(
    exe: Option<Seq<char>>,
    exe_later: Option<Seq<char>>,
    key: RunKey,
    on: RegistryAnswers,
    off: RegistryAnswers,
)
    requires
        registry_switched(true, exe, key, on).0 is Ok,
        off.open,
        off.delete,
    ensures
        ({
            let (result, after) = registry_switched(
                false,
                exe_later,
                registry_switched(true, exe, key, on).1,
                off,
            );
            &&& result is Ok
            &&& after == if key is None {
                Some(Map::empty())
            } else {
                without_value(key)
            }
        }),
{
    law_run_value_switched_on(exe, key, on);
    law_run_value_switched_off(exe_later, registry_switched(true, exe, key, on).1, off);
    let values = match key {
        Some(values) => values,
        None => Map::empty(),
    };
    assert(values.insert(value_name(), run_bytes(exe->0)).remove(value_name()) =~= values.remove(
        value_name(),
    ));
    assert(Map::<Seq<u16>, Seq<u8>>::empty().remove(value_name()) =~= Map::empty());
}

/// The file call that is due.
#[derive(Clone, Copy, Debug, PartialEq, Eq, Structural)]
pub enum DesktopStep {
    /// Find the configuration directory.
    LocateDir,
    /// Create the directory of desktop entries, where it does not exist.
    CreateDir,
    /// Write the desktop entry.
    WriteFile,
    /// Remove the desktop entry.
    RemoveFile,
    Done,
    Failed(AutostartError),
}

/// A change of the desktop entry. `body` is the text to write, `None` when the
/// entry is removed.
#[derive(Debug)]
pub struct DesktopEdit {
    pub step: DesktopStep,
    pub body: Option<String>,
}

/// The step after `step` went well or not. A desktop entry that cannot be
/// removed counts as removed.
pub open spec fn desktop_next(writes: bool, step: DesktopStep, ok: bool) -> DesktopStep {
    match step {
        DesktopStep::LocateDir => if !ok {
            DesktopStep::Failed(AutostartError::LocateConfigDir)
        } else if writes {
            DesktopStep::CreateDir
        } else {
            DesktopStep::RemoveFile
        },
        DesktopStep::CreateDir => if ok {
            DesktopStep::WriteFile
        } else {
            DesktopStep::Failed(AutostartError::CreateAutostartDir)
        },
        DesktopStep::WriteFile => if ok {
            DesktopStep::Done
        } else {
            DesktopStep::Failed(AutostartError::WriteDesktopEntry)
        },
        DesktopStep::RemoveFile => DesktopStep::Done,
        DesktopStep::Done => DesktopStep::Done,
        DesktopStep::Failed(e) => DesktopStep::Failed(e),
    }
}

/// A bound on the calls that can still follow.
pub open spec fn desktop_rank(step: DesktopStep) -> nat {
    match step {
        DesktopStep::LocateDir => 3,
        DesktopStep::CreateDir => 2,
        DesktopStep::WriteFile | DesktopStep::RemoveFile => 1,
        DesktopStep::Done | DesktopStep::Failed(_) => 0,
    }
}

impl DesktopEdit {
    /// Starts to write the desktop entry for an executable.
    pub fn write(exe: &str) -> (edit: DesktopEdit)
        ensures
            edit.step == DesktopStep::LocateDir,
            edit.body matches Some(body) && body@ == desktop_text(exe@),
    {
        DesktopEdit { step: DesktopStep::LocateDir, body: Some(desktop_entry(exe)) }
    }

    /// Starts to remove the desktop entry.
    pub fn clear() -> (edit: DesktopEdit)
        ensures
            edit.step == DesktopStep::LocateDir,
            edit.body is None,
    {
        DesktopEdit { step: DesktopStep::LocateDir, body: None }
    }

    /// Takes the outcome of the call that was due.
    pub fn advance(&mut self, ok: bool)
        ensures
            final(self).step == desktop_next(old(self).body is Some, old(self).step, ok),
            final(self).body == old(self).body,
    {
        match self.step {
            DesktopStep::LocateDir => {
                self.step = if !ok {
                    DesktopStep::Failed(AutostartError::LocateConfigDir)
                } else if self.body.is_some() {
                    DesktopStep::CreateDir
                } else {
                    DesktopStep::RemoveFile
                };
            },
            DesktopStep::CreateDir => {
                self.step = if ok {
                    DesktopStep::WriteFile
                } else {
                    DesktopStep::Failed(AutostartError::CreateAutostartDir)
                };
            },
            DesktopStep::WriteFile => {
                self.step = if ok {
                    DesktopStep::Done
                } else {
                    DesktopStep::Failed(AutostartError::WriteDesktopEntry)
                };
            },
            DesktopStep::RemoveFile => {
                self.step = DesktopStep::Done;
            },
            DesktopStep::Done | DesktopStep::Failed(_) => {},
        }
    }
}

/// The desktop entries of the user: their texts by file name.
pub type DesktopFiles = Map<Seq<char>, Seq<char>>;

/// Which file calls go well, and what a failed write leaves of the file, `None`
/// for no file.
pub struct DesktopAnswers {
    pub locate: bool,
    pub create: bool,
    pub write: bool,
    pub remove: bool,
    pub torn: Option<Seq<char>>,
}

impl DesktopAnswers {
    /// Whether the call of a step goes well.
    pub open spec fn to(self, step: DesktopStep) -> bool {
        match step {
            DesktopStep::LocateDir => self.locate,
            DesktopStep::CreateDir => self.create,
            DesktopStep::WriteFile => self.write,
            DesktopStep::RemoveFile => self.remove,
            DesktopStep::Done | DesktopStep::Failed(_) => true,
        }
    }
}

/// The desktop entries after the call of a step. A write that does not go well
/// may leave anything of its file; any other call that does not go well changes
/// nothing.
pub open spec fn desktop_effect(
    files: DesktopFiles,
    step: DesktopStep,
    body: Seq<char>,
    answers: DesktopAnswers,
) -> DesktopFiles {
    match step {
        DesktopStep::WriteFile => if answers.write {
            files.insert(DESKTOP_FILE@, body)
        } else {
            match answers.torn {
                Some(text) => files.insert(DESKTOP_FILE@, text),
                None => files.remove(DESKTOP_FILE@),
            }
        },
        DesktopStep::RemoveFile if answers.remove => files.remove(DESKTOP_FILE@),
        _ => files,
    }
}

/// How a change of the desktop entry ends, and the desktop entries afterwards,
/// when its calls go as `answers` says.
pub open spec fn desktop_course(
    step: DesktopStep,
    body: Option<Seq<char>>,
    files: DesktopFiles,
    answers: DesktopAnswers,
) -> (Result<(), AutostartError>, DesktopFiles)
    decreases desktop_rank(step),
{
    match step {
        DesktopStep::Done => (Ok(()), files),
        DesktopStep::Failed(e) => (Err(e), files),
        _ => desktop_course(
            desktop_next(body is Some, step, answers.to(step)),
            body,
            desktop_effect(files, step, body->0, answers),
            answers,
        ),
    }
}

/// How switching on or off ends, and the desktop entries afterwards.
pub open spec fn desktop_switched(
    enabled: bool,
    exe: Option<Seq<char>>,
    files: DesktopFiles,
    answers: DesktopAnswers,
) -> (Result<(), AutostartError>, DesktopFiles) {
    match asked(enabled, exe) {
        Ok(ChangeView::Write(exe)) => desktop_course(
            DesktopStep::LocateDir,
            Some(desktop_text(exe)),
            files,
            answers,
        ),
        Ok(ChangeView::Clear) => desktop_course(DesktopStep::LocateDir, None, files, answers),
        Err(e) => (Err(e), files),
    }
}

/// Switching on: it goes well exactly when the executable and the
/// configuration directory are known, the directory of desktop entries is
/// there or can be created, and the entry can be written. The entry then
/// starts the executable. No other file is ever changed, and none at all
/// before the entry is written.
pub proof fn law_desktop_entry_switched_on(
    exe: Option<Seq<char>>,
    files: DesktopFiles,
    answers: DesktopAnswers,
)
    ensures
        ({
            let (result, after) = desktop_switched(true, exe, files, answers);
            &&& result == if exe is None {
                Err::<(), AutostartError>(AutostartError::LocateExe)
            } else if !answers.locate {
                Err(AutostartError::LocateConfigDir)
            } else if !answers.create {
                Err(AutostartError::CreateAutostartDir)
            } else if !answers.write {
                Err(AutostartError::WriteDesktopEntry)
            } else {
                Ok(())
            }
            &&& result is Ok ==> after == files.insert(DESKTOP_FILE@, desktop_text(exe->0))
            &&& result is Err && result->Err_0 != AutostartError::WriteDesktopEntry ==> after == files
            &&& after.remove(DESKTOP_FILE@) == files.remove(DESKTOP_FILE@)
        }),
{
    reveal_with_fuel(desktop_course, 4);
    let after = desktop_switched(true, exe, files, answers).1;
    assert(after.remove(DESKTOP_FILE@) =~= files.remove(DESKTOP_FILE@));
}

/// Switching off fails exactly when the configuration directory is not known;
/// the executable does not matter, and an entry that cannot be removed is no
/// error. It removes the program's own entry or nothing.
pub proof fn law_desktop_entry_switched_off(
    exe: Option<Seq<char>>,
    files: DesktopFiles,
    answers: DesktopAnswers,
)
    ensures
        desktop_switched(false, exe, files, answers) == (
            if answers.locate {
                Ok::<(), AutostartError>(())
            } else {
                Err(AutostartError::LocateConfigDir)
            },
            if answers.locate && answers.remove {
                files.remove(DESKTOP_FILE@)
            } else {
                files
            },
        ),
{
    reveal_with_fuel(desktop_course, 4);
}

/// Switching off twice leaves the desktop entries as switching off once does,
/// when the calls go alike both times; and once the entry is gone, switching
/// off changes nothing however they go.
pub proof fn law_desktop_entry_switched_off_twice(
    exe: Option<Seq<char>>,
    files: DesktopFiles,
    answers: DesktopAnswers,
    later: DesktopAnswers,
)
    ensures
        ({
            let once = desktop_switched(false, exe, files, answers).1;
            &&& desktop_switched(false, exe, once, answers).1 == once
            &&& answers.locate && answers.remove ==> desktop_switched(false, exe, once, later).1 == once
        }),
{
    law_desktop_entry_switched_off(exe, files, answers);
    let once = desktop_switched(false, exe, files, answers).1;
    law_desktop_entry_switched_off(exe, once, answers);
    law_desktop_entry_switched_off(exe, once, later);
    assert(files.remove(DESKTOP_FILE@).remove(DESKTOP_FILE@) =~= files.remove(DESKTOP_FILE@));
}

/// Switching off undoes switching on: after a switch on, a switch off whose
/// calls go well ends well, with the program's entry gone and every other file
/// as it was before both.
pub proof fn law_desktop_entry_off_undoes_on(
    exe: Option<Seq<char>>,
    exe_later: Option<Seq<char>>,
    files: DesktopFiles,
    on: DesktopAnswers,
    off: DesktopAnswers,
)
    requires
        off.locate,
        off.remove,
    ensures
        desktop_switched(false, exe_later, desktop_switched(true, exe, files, on).1, off) == (
            Ok::<(), AutostartError>(()),
            files.remove(DESKTOP_FILE@),
        ),
{
    law_desktop_entry_switched_on(exe, files, on);
    law_desktop_entry_switched_off(exe_later, desktop_switched(true, exe, files, on).1, off);
}

/// Switching on asks to write the known executable and fails without one;
/// switching off asks to clear, whether or not it is known.
pub proof fn law_what_is_asked(exe: Seq<char>, known: Option<Seq<char>>)
    ensures
        asked(true, Some(exe)) == Ok::<ChangeView, AutostartError>(ChangeView::Write(exe)),
        asked(true, None) == Err::<ChangeView, AutostartError>(AutostartError::LocateExe),
        asked(false, known) == Ok::<ChangeView, AutostartError>(ChangeView::Clear),
{
}

/// The view of a change shows what it is.
pub proof fn law_change_views(exe: String)
    ensures
        AutostartChange::Write(exe)@ == ChangeView::Write(exe@),
        AutostartChange::Clear@ == ChangeView::Clear,
{
}

/// The command is the executable between two quotation marks, and nothing of it
/// is lost or added: the arguments follow after a space.
pub proof fn law_command_quotes_the_executable(exe: Seq<char>)
    ensures
        run_command(exe).len() == exe.len() + 20,
        run_command(exe)[0] == '"',
        run_command(exe).subrange(1, 1 + exe.len() as int) =~= exe,
        run_command(exe).skip(1 + exe.len() as int) =~= "\" start --autostart"@,
{
    reveal_strlit("\"");
    reveal_strlit("\" start --autostart");
}

/// The desktop entry starts the executable as it stands, with its arguments, and
/// is enabled.
pub proof fn law_desktop_entry_starts_the_executable(exe: Seq<char>)
    ensures
        exists|head: Seq<char>, tail: Seq<char>|
            #![trigger head + exe + tail]
            desktop_text(exe) == head + exe + tail && head
                == "[Desktop Entry]\nType=Application\nName=Nicotine\nExec="@ && tail
                == " start --autostart\nTerminal=false\nX-GNOME-Autostart-enabled=true\n"@,
{
    let head = "[Desktop Entry]\nType=Application\nName=Nicotine\nExec="@;
    let tail = " start --autostart\nTerminal=false\nX-GNOME-Autostart-enabled=true\n"@;
    assert(desktop_text(exe) == head + exe + tail);
}

/// The Run value is called "Nicotine", and its bytes are those of the
/// zero-terminated command.
pub proof fn law_run_value_is_zero_terminated(exe: Seq<char>)
    ensures
        value_name() =~= crate::wide::utf16("Nicotine"@).push(0),
        run_bytes(exe).len() == 2 * crate::wide::utf16(run_command(exe)).len() + 2,
        run_bytes(exe) =~= crate::wide::unit_bytes(crate::wide::utf16(run_command(exe)).push(0)),
        run_bytes(exe)[run_bytes(exe).len() - 1] == 0,
        run_bytes(exe)[run_bytes(exe).len() - 2] == 0,
{
    let units = crate::wide::utf16(run_command(exe)).push(0);
    let last = units.len() - 1;
    crate::wide::law_bytes_make_up_the_units(units, last);
    assert(units[last] == 0);
}

/// The registry calls in order: a key that is opened for writing is written,
/// then closed; one that is opened for clearing has the value deleted, then is
/// closed. Only a key that cannot be opened for writing, and a value that could
/// not be written, are errors, the latter once the key is closed.
pub proof fn law_registry_calls(ok: bool, write_failed: bool)
    ensures
        registry_next(RegistryStep::CreateKey, ok, write_failed) == if ok {
            RegistryStep::SetValue
        } else {
            RegistryStep::Failed(AutostartError::OpenRunKey)
        },
        registry_next(RegistryStep::OpenKey, ok, write_failed) == if ok {
            RegistryStep::DeleteValue
        } else {
            RegistryStep::Done
        },
        registry_next(RegistryStep::SetValue, ok, write_failed) == RegistryStep::CloseKey,
        registry_next(RegistryStep::DeleteValue, ok, write_failed) == RegistryStep::CloseKey,
        registry_next(RegistryStep::CloseKey, ok, write_failed) == if write_failed {
            RegistryStep::Failed(AutostartError::WriteRunValue)
        } else {
            RegistryStep::Done
        },
        registry_write_failed(RegistryStep::SetValue, ok, write_failed) == !ok,
        registry_write_failed(RegistryStep::DeleteValue, ok, write_failed) == write_failed,
        registry_write_failed(RegistryStep::CreateKey, ok, write_failed) == write_failed,
        registry_write_failed(RegistryStep::OpenKey, ok, write_failed) == write_failed,
        registry_write_failed(RegistryStep::CloseKey, ok, write_failed) == write_failed,
{
}

/// The file calls in order: the configuration directory is located first. To
/// write, the directory of entries is then created and the entry written, and
/// each call that fails is an error. To clear, the entry is removed, and a
/// failure of that is none.
pub proof fn law_file_calls(writes: bool, ok: bool)
    ensures
        desktop_next(writes, DesktopStep::LocateDir, ok) == if !ok {
            DesktopStep::Failed(AutostartError::LocateConfigDir)
        } else if writes {
            DesktopStep::CreateDir
        } else {
            DesktopStep::RemoveFile
        },
        desktop_next(writes, DesktopStep::CreateDir, ok) == if ok {
            DesktopStep::WriteFile
        } else {
            DesktopStep::Failed(AutostartError::CreateAutostartDir)
        },
        desktop_next(writes, DesktopStep::WriteFile, ok) == if ok {
            DesktopStep::Done
        } else {
            DesktopStep::Failed(AutostartError::WriteDesktopEntry)
        },
        desktop_next(writes, DesktopStep::RemoveFile, ok) == DesktopStep::Done,
{
}

} // verus!
