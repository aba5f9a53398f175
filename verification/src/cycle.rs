//! Moving the focus to another client.
//!
//! `CycleRun` says which call on the window manager or on the cycle position
//! comes next; the caller makes it and reports the outcome.

use vstd::prelude::*;

verus! {

/// A client window: its id and its title without the client prefix.
#[derive(Debug)]
pub struct EveWindow {
    pub id: u32,
    pub title: String,
}

#[derive(Clone, Copy, Debug, PartialEq, Eq, Structural)]
pub enum CycleDirection {
    Forward,
    Backward,
}

/// Where the focus is to go.
#[derive(Debug)]
pub enum CycleTarget {
    Neighbor(CycleDirection),
    Character(String),
}

/// What is due.
#[derive(Clone, Copy, Debug, PartialEq, Eq, Structural)]
pub enum CycleStep {
    /// Ask for the active window.
    AskActive,
    /// Move the cycle position to this window.
    Sync(u32),
    /// Move the focus to the target.
    Move,
    /// Ask for the window at the cycle position.
    AskPosition,
    /// Announce this window as the active one.
    Announce(u32),
    Finished,
    Failed,
}

/// The outcome of a step.
#[derive(Clone, Copy, Debug, PartialEq, Eq, Structural)]
pub enum CycleReply {
    /// The active window, where it is known.
    Active(Option<u32>),
    /// Whether the focus could be moved.
    Moved(bool),
    /// The window at the cycle position, where there is one.
    Position(Option<u32>),
    /// The call was made.
    Done,
}

/// One change of focus.
#[derive(Debug)]
pub struct CycleRun {
    pub target: CycleTarget,
    /// Minimize the client that loses the focus.
    pub minimize_inactive: bool,
    /// Announce the window that the focus went to.
    pub announces: bool,
    pub step: CycleStep,
}

impl CycleStep {
    /// The reply is one that the step can have.
    pub open spec fn takes(self, reply: CycleReply) -> bool {
        match self {
            CycleStep::AskActive => reply is Active,
            CycleStep::Move => reply is Moved,
            CycleStep::AskPosition => reply is Position,
            CycleStep::Sync(_) | CycleStep::Announce(_) => reply is Done,
            CycleStep::Finished | CycleStep::Failed => false,
        }
    }
}

/// The step after a reply. `jump` is true of a jump to a character: it goes
/// on when the focus could not be moved, where a step to a neighbor fails.
pub open spec fn next_step(jump: bool, announces: bool, step: CycleStep, reply: CycleReply) -> CycleStep {
    match (step, reply) {
        (CycleStep::AskActive, CycleReply::Active(Some(id))) => CycleStep::Sync(id),
        (CycleStep::AskActive, CycleReply::Active(None)) => CycleStep::Move,
        (CycleStep::Sync(_), CycleReply::Done) => CycleStep::Move,
        (CycleStep::Move, CycleReply::Moved(moved)) => if !moved && !jump {
            CycleStep::Failed
        } else if announces {
            CycleStep::AskPosition
        } else {
            CycleStep::Finished
        },
        (CycleStep::AskPosition, CycleReply::Position(Some(id))) => CycleStep::Announce(id),
        (CycleStep::AskPosition, CycleReply::Position(None)) => CycleStep::Finished,
        (CycleStep::Announce(_), CycleReply::Done) => CycleStep::Finished,
        _ => step,
    }
}

/// The id of the window at `index`, where there is one.
pub open spec fn id_at(windows: Seq<EveWindow>, index: int) -> Option<u32> {
    if 0 <= index < windows.len() {
        Some(windows[index].id)
    } else {
        None
    }
}

/// Whether a window with this id is among `windows`.
pub open spec fn has_id(windows: Seq<EveWindow>, id: u32) -> bool {
    exists|i: int| 0 <= i < windows.len() && (#[trigger] windows[i]).id == id
}

impl CycleRun {
    /// Starts to move the focus one client on.
    pub fn to_neighbor(direction: CycleDirection, minimize_inactive: bool, announces: bool) -> (run:
        CycleRun)
        ensures
            run.target == CycleTarget::Neighbor(direction),
            run.minimize_inactive == minimize_inactive,
            run.announces == announces,
            run.step == CycleStep::AskActive,
    {
        CycleRun {
            target: CycleTarget::Neighbor(direction),
            minimize_inactive,
            announces,
            step: CycleStep::AskActive,
        }
    }

    /// Starts to move the focus to the character called `name`, and to
    /// announce where it went.
    pub fn to_character(name: String, minimize_inactive: bool) -> (run: CycleRun)
        ensures
            run.target matches CycleTarget::Character(n) && n@ == name@,
            run.minimize_inactive == minimize_inactive,
            run.announces,
            run.step == CycleStep::AskActive,
    {
        CycleRun {
            target: CycleTarget::Character(name),
            minimize_inactive,
            announces: true,
            step: CycleStep::AskActive,
        }
    }

    /// Takes the reply to the step that is due.
    pub fn advance(&mut self, reply: CycleReply)
        requires
            old(self).step.takes(reply),
        ensures
            final(self).step == next_step(
                old(self).target is Character,
                old(self).announces,
                old(self).step,
                reply,
            ),
            final(self).target == old(self).target,
            final(self).minimize_inactive == old(self).minimize_inactive,
            final(self).announces == old(self).announces,
    {
        match (self.step, reply) {
            (CycleStep::AskActive, CycleReply::Active(active)) => {
                self.step = match active {
                    Some(id) => CycleStep::Sync(id),
                    None => CycleStep::Move,
                };
            },
            (CycleStep::Sync(_), CycleReply::Done) => {
                self.step = CycleStep::Move;
            },
            (CycleStep::Move, CycleReply::Moved(moved)) => {
                let jump: bool = match self.target {
                    CycleTarget::Character(_) => true,
                    CycleTarget::Neighbor(_) => false,
                };
                self.step = if !moved && !jump {
                    CycleStep::Failed
                } else if self.announces {
                    CycleStep::AskPosition
                } else {
                    CycleStep::Finished
                };
            },
            (CycleStep::AskPosition, CycleReply::Position(position)) => {
                self.step = match position {
                    Some(id) => CycleStep::Announce(id),
                    None => CycleStep::Finished,
                };
            },
            (CycleStep::Announce(_), CycleReply::Done) => {
                self.step = CycleStep::Finished;
            },
            _ => {},
        }
    }
}

/// The id of the window at a cycle position, where there is one.
pub fn window_at(windows: &Vec<EveWindow>, index: usize) -> (id: Option<u32>)
    ensures
        id == id_at(windows@, index as int),
{
    if index < windows.len() {
        Some(windows[index].id)
    } else {
        None
    }
}

/// Whether a window with this id is among `windows`.
pub fn contains_id(windows: &Vec<EveWindow>, id: u32) -> (found: bool)
    ensures
        found == has_id(windows@, id),
{
    let n: usize = windows.len();
    for k in 0..n
        invariant
            n == windows.len(),
            forall|i: int| 0 <= i < k ==> (#[trigger] windows@[i]).id != id,
    {
        if windows[k].id == id {
            return true;
        }
    }
    false
}

/// The steps of a run from `step` to its end when the questions that are asked
/// are answered with `active`, `moved` and `position`.
pub open spec fn course(
    jump: bool,
    announces: bool,
    step: CycleStep,
    active: Option<u32>,
    moved: bool,
    position: Option<u32>,
) -> Seq<CycleStep>
    decreases
            match step {
                CycleStep::AskActive => 5nat,
                CycleStep::Sync(_) => 4,
                CycleStep::Move => 3,
                CycleStep::AskPosition => 2,
                CycleStep::Announce(_) => 1,
                CycleStep::Finished | CycleStep::Failed => 0,
            },
{
    let reply = match step {
        CycleStep::AskActive => CycleReply::Active(active),
        CycleStep::Move => CycleReply::Moved(moved),
        CycleStep::AskPosition => CycleReply::Position(position),
        _ => CycleReply::Done,
    };
    if step == CycleStep::Finished || step == CycleStep::Failed {
        seq![step]
    } else {
        seq![step] + course(
            jump,
            announces,
            next_step(jump, announces, step, reply),
            active,
            moved,
            position,
        )
    }
}

/// The course of a change of focus: the cycle position is first moved to the
/// active window, where that is known; then the focus is moved. A step to a
/// neighbor that cannot be made fails there. Otherwise a run that announces
/// asks for the window at the cycle position afterwards and announces it,
/// where there is one; a jump does so even when it could not be made.
pub proof fn law_course_of_a_run(
    jump: bool,
    announces: bool,
    active: Option<u32>,
    moved: bool,
    position: Option<u32>,
)
    ensures
        course(jump, announces, CycleStep::AskActive, active, moved, position) =~= seq![
            CycleStep::AskActive,
        ] + (match active {
            Some(id) => seq![CycleStep::Sync(id), CycleStep::Move],
            None => seq![CycleStep::Move],
        }) + (if !moved && !jump {
            seq![CycleStep::Failed]
        } else if !announces {
            seq![CycleStep::Finished]
        } else {
            match position {
                Some(id) => seq![
                    CycleStep::AskPosition,
                    CycleStep::Announce(id),
                    CycleStep::Finished,
                ],
                None => seq![CycleStep::AskPosition, CycleStep::Finished],
            }
        }),
{
    reveal_with_fuel(course, 7);
}

/// What each reply leads to. The active window, where it is known, is made the
/// cycle position before the focus moves. A neighbor that the focus could not
/// be moved to ends the run in failure, a character does not; after the move
/// only a run that announces goes on, with the window that the cycle position
/// has then.
pub proof fn law_replies_lead_on(
    jump: bool,
    announces: bool,
    id: u32,
    moved: bool,
)
    ensures
        next_step(jump, announces, CycleStep::AskActive, CycleReply::Active(Some(id)))
            == CycleStep::Sync(id),
        next_step(jump, announces, CycleStep::AskActive, CycleReply::Active(None))
            == CycleStep::Move,
        next_step(jump, announces, CycleStep::Sync(id), CycleReply::Done) == CycleStep::Move,
        next_step(jump, announces, CycleStep::Move, CycleReply::Moved(moved)) is Failed <==> !moved
            && !jump,
        next_step(jump, announces, CycleStep::Move, CycleReply::Moved(moved)) is AskPosition <==> (
        moved || jump) && announces,
        next_step(jump, announces, CycleStep::Move, CycleReply::Moved(moved)) is Finished <==> (
        moved || jump) && !announces,
        next_step(jump, announces, CycleStep::AskPosition, CycleReply::Position(Some(id)))
            == CycleStep::Announce(id),
        next_step(jump, announces, CycleStep::AskPosition, CycleReply::Position(None))
            == CycleStep::Finished,
        next_step(jump, announces, CycleStep::Announce(id), CycleReply::Done)
            == CycleStep::Finished,
{
}

/// The window at a position is the one that the list has there, and there is
/// none beyond the end. A list has an id exactly when one of its windows bears
/// it.
pub proof fn law_windows_by_position_and_id(windows: Seq<EveWindow>, index: int, id: u32)
    ensures
        0 <= index < windows.len() ==> id_at(windows, index) == Some(windows[index].id),
        index >= windows.len() ==> id_at(windows, index) is None,
        has_id(windows, id) <==> windows.map_values(|w: EveWindow| w.id).contains(id),
{
    let ids = windows.map_values(|w: EveWindow| w.id);
    if has_id(windows, id) {
        let i = choose|i: int| 0 <= i < windows.len() && (#[trigger] windows[i]).id == id;
        assert(ids[i] == id);
    }
    if ids.contains(id) {
        let i = choose|i: int| 0 <= i < ids.len() && ids[i] == id;
        assert(windows[i].id == id);
    }
}

} // verus!
