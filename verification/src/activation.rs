//! Bringing a window to the foreground.
//!
//! The system may refuse to change the foreground window. The fallback joins
//! the input queues of the threads involved for the moment of the change and
//! parts them again. `Activation` says which system call comes next; the
//! caller makes it and reports the outcome.

use vstd::prelude::*;

verus! {

/// The system call that is due.
#[derive(Clone, Copy, Debug, PartialEq, Eq, Structural)]
pub enum ActivationStep {
    /// Ask whether the target is minimized.
    CheckIconic,
    /// Restore the target from its minimized state.
    Restore,
    /// Try to make the target the foreground window.
    TryForeground,
    /// Ask for the current thread and those of the target and of the
    /// foreground window.
    QueryThreads,
    /// Attach the current thread to that of the target.
    AttachTarget,
    /// Attach the current thread to that of the foreground window.
    AttachForeground,
    /// Make the target the foreground window, bring it to the top and give it
    /// the focus, in this order and whatever comes of it.
    Force,
    /// Detach the current thread from that of the target.
    DetachTarget,
    /// Detach the current thread from that of the foreground window.
    DetachForeground,
    /// Nothing is left to do.
    Finished,
}

/// The outcome of a step.
#[derive(Clone, Copy, Debug, PartialEq, Eq, Structural)]
pub enum ActivationReply {
    /// The call was made; its outcome does not matter.
    Done,
    Answer(bool),
    Threads { current: u32, target: u32, foreground: u32 },
}

/// The activation of one window.
#[derive(Clone, Copy, Debug, PartialEq, Eq, Structural)]
pub struct Activation {
    pub step: ActivationStep,
    pub target: usize,
    pub foreground: usize,
    pub current_thread: u32,
    pub target_thread: u32,
    pub foreground_thread: u32,
    /// The current thread is attached to that of the target.
    pub attached_target: bool,
    /// The current thread is attached to that of the foreground window.
    pub attached_foreground: bool,
}

impl ActivationStep {
    /// The reply is one that the step can have.
    pub open spec fn takes(self, reply: ActivationReply) -> bool {
        match self {
            ActivationStep::CheckIconic
            | ActivationStep::TryForeground
            | ActivationStep::AttachTarget
            | ActivationStep::AttachForeground => reply is Answer,
            ActivationStep::Restore
            | ActivationStep::Force
            | ActivationStep::DetachTarget
            | ActivationStep::DetachForeground => reply is Done,
            ActivationStep::QueryThreads => reply is Threads,
            ActivationStep::Finished => false,
        }
    }

    /// A bound on the steps that can still follow.
    pub open spec fn rank(self) -> nat {
        match self {
            ActivationStep::CheckIconic => 9,
            ActivationStep::Restore => 8,
            ActivationStep::TryForeground => 7,
            ActivationStep::QueryThreads => 6,
            ActivationStep::AttachTarget => 5,
            ActivationStep::AttachForeground => 4,
            ActivationStep::Force => 3,
            ActivationStep::DetachTarget => 2,
            ActivationStep::DetachForeground => 1,
            ActivationStep::Finished => 0,
        }
    }
}

impl Activation {
    /// The activation of `target` while `foreground` is the foreground window.
    pub open spec fn begun(target: usize, foreground: usize) -> Activation {
        Activation {
            step: if target == foreground {
                ActivationStep::Finished
            } else {
                ActivationStep::CheckIconic
            },
            target,
            foreground,
            current_thread: 0,
            target_thread: 0,
            foreground_thread: 0,
            attached_target: false,
            attached_foreground: false,
        }
    }

    /// The thread of the target exists and is another one.
    pub open spec fn target_attachable(self) -> bool {
        self.target_thread != 0 && self.target_thread != self.current_thread
    }

    /// The thread of the foreground window exists and is a third one.
    pub open spec fn foreground_attachable(self) -> bool {
        self.foreground_thread != 0 && self.foreground_thread != self.current_thread
            && self.foreground_thread != self.target_thread
    }

    /// The step after the attempt to attach to the target.
    pub open spec fn past_target(self) -> ActivationStep {
        if self.foreground_attachable() {
            ActivationStep::AttachForeground
        } else {
            ActivationStep::Force
        }
    }

    /// The state after the reply to the step that was due.
    pub open spec fn next(self, reply: ActivationReply) -> Activation {
        match (self.step, reply) {
            (ActivationStep::CheckIconic, ActivationReply::Answer(iconic)) => Activation {
                step: if iconic {
                    ActivationStep::Restore
                } else {
                    ActivationStep::TryForeground
                },
                ..self
            },
            (ActivationStep::Restore, ActivationReply::Done) => Activation {
                step: ActivationStep::TryForeground,
                ..self
            },
            (ActivationStep::TryForeground, ActivationReply::Answer(accepted)) => Activation {
                step: if accepted {
                    ActivationStep::Finished
                } else {
                    ActivationStep::QueryThreads
                },
                ..self
            },
            (
                ActivationStep::QueryThreads,
                ActivationReply::Threads { current, target, foreground },
            ) => {
                let known = Activation {
                    current_thread: current,
                    target_thread: target,
                    foreground_thread: if self.foreground == 0 {
                        0
                    } else {
                        foreground
                    },
                    ..self
                };
                Activation {
                    step: if known.target_attachable() {
                        ActivationStep::AttachTarget
                    } else {
                        known.past_target()
                    },
                    ..known
                }
            },
            (ActivationStep::AttachTarget, ActivationReply::Answer(attached)) => Activation {
                step: self.past_target(),
                attached_target: attached,
                ..self
            },
            (ActivationStep::AttachForeground, ActivationReply::Answer(attached)) => Activation {
                step: ActivationStep::Force,
                attached_foreground: attached,
                ..self
            },
            (ActivationStep::Force, ActivationReply::Done) => Activation {
                step: if self.attached_target {
                    ActivationStep::DetachTarget
                } else if self.attached_foreground {
                    ActivationStep::DetachForeground
                } else {
                    ActivationStep::Finished
                },
                ..self
            },
            (ActivationStep::DetachTarget, ActivationReply::Done) => Activation {
                step: if self.attached_foreground {
                    ActivationStep::DetachForeground
                } else {
                    ActivationStep::Finished
                },
                attached_target: false,
                ..self
            },
            (ActivationStep::DetachForeground, ActivationReply::Done) => Activation {
                step: ActivationStep::Finished,
                attached_foreground: false,
                ..self
            },
            _ => self,
        }
    }

    /// What holds at every step: a thread is attached only between the step
    /// that attached it and the step that detaches it, and only where it
    /// exists and is not the current one.
    pub open spec fn well_formed(self) -> bool {
        &&& self.attached_target ==> self.target_attachable() && (self.step
            == ActivationStep::AttachForeground || self.step == ActivationStep::Force || self.step
            == ActivationStep::DetachTarget)
        &&& self.attached_foreground ==> self.foreground_attachable() && (self.step
            == ActivationStep::Force || self.step == ActivationStep::DetachTarget || self.step
            == ActivationStep::DetachForeground)
        &&& self.step == ActivationStep::AttachTarget ==> self.target_attachable()
        &&& self.step == ActivationStep::AttachForeground ==> self.foreground_attachable()
        &&& self.step == ActivationStep::DetachTarget ==> self.attached_target
        &&& self.step == ActivationStep::DetachForeground ==> self.attached_foreground
    }

    /// Starts the activation of `target`. Nothing is to be done when it is the
    /// foreground window already.
    pub fn force_activate(target: usize, foreground: usize) -> (activation: Activation)
        ensures
            activation == Activation::begun(target, foreground),
            activation.well_formed(),
    {
        Activation {
            step: if target == foreground {
                ActivationStep::Finished
            } else {
                ActivationStep::CheckIconic
            },
            target,
            foreground,
            current_thread: 0,
            target_thread: 0,
            foreground_thread: 0,
            attached_target: false,
            attached_foreground: false,
        }
    }

    /// Takes the reply to the step that is due.
    pub fn advance(&mut self, reply: ActivationReply)
        requires
            old(self).step.takes(reply),
        ensures
            *final(self) == old(self).next(reply),
            old(self).well_formed() ==> final(self).well_formed(),
    {
        match (self.step, reply) {
            (ActivationStep::CheckIconic, ActivationReply::Answer(iconic)) => {
                self.step = if iconic {
                    ActivationStep::Restore
                } else {
                    ActivationStep::TryForeground
                };
            },
            (ActivationStep::Restore, ActivationReply::Done) => {
                self.step = ActivationStep::TryForeground;
            },
            (ActivationStep::TryForeground, ActivationReply::Answer(accepted)) => {
                self.step = if accepted {
                    ActivationStep::Finished
                } else {
                    ActivationStep::QueryThreads
                };
            },
            (
                ActivationStep::QueryThreads,
                ActivationReply::Threads { current, target, foreground },
            ) => {
                self.current_thread = current;
                self.target_thread = target;
                self.foreground_thread = if self.foreground == 0 {
                    0
                } else {
                    foreground
                };
                self.step = if target != 0 && target != current {
                    ActivationStep::AttachTarget
                } else {
                    self.step_past_target()
                };
            },
            (ActivationStep::AttachTarget, ActivationReply::Answer(attached)) => {
                self.attached_target = attached;
                self.step = self.step_past_target();
            },
            (ActivationStep::AttachForeground, ActivationReply::Answer(attached)) => {
                self.attached_foreground = attached;
                self.step = ActivationStep::Force;
            },
            (ActivationStep::Force, ActivationReply::Done) => {
                self.step = if self.attached_target {
                    ActivationStep::DetachTarget
                } else if self.attached_foreground {
                    ActivationStep::DetachForeground
                } else {
                    ActivationStep::Finished
                };
            },
            (ActivationStep::DetachTarget, ActivationReply::Done) => {
                self.attached_target = false;
                self.step = if self.attached_foreground {
                    ActivationStep::DetachForeground
                } else {
                    ActivationStep::Finished
                };
            },
            (ActivationStep::DetachForeground, ActivationReply::Done) => {
                self.attached_foreground = false;
                self.step = ActivationStep::Finished;
            },
            _ => {},
        }
    }

    fn step_past_target(&self) -> (step: ActivationStep)
        ensures
            step == self.past_target(),
    {
        if self.foreground_thread != 0 && self.foreground_thread != self.current_thread
            && self.foreground_thread != self.target_thread {
            ActivationStep::AttachForeground
        } else {
            ActivationStep::Force
        }
    }
}

/// Every activation ends: each reply brings it nearer to its end.
pub proof fn law_activation_ends(activation: Activation, reply: ActivationReply)
    requires
        activation.step.takes(reply),
    ensures
        activation.next(reply).step.rank() < activation.step.rank(),
{
}

/// What is attached is detached again: an activation starts with nothing
/// attached, keeps its invariant, and holds nothing attached when it ends. A
/// thread becomes attached only when the call to attach it succeeded, and is
/// detached only by the call to detach it.
pub proof fn law_attached_threads_are_detached(
    target: usize,
    foreground: usize,
    activation: Activation,
    reply: ActivationReply,
)
    requires
        activation.well_formed(),
    ensures
        Activation::begun(target, foreground).well_formed(),
        activation.step == ActivationStep::Finished ==> !activation.attached_target
            && !activation.attached_foreground,
        activation.next(reply).well_formed(),
        activation.next(reply).attached_target && !activation.attached_target ==> activation.step
            == ActivationStep::AttachTarget && reply == ActivationReply::Answer(true),
        activation.next(reply).attached_foreground && !activation.attached_foreground
            ==> activation.step == ActivationStep::AttachForeground && reply
            == ActivationReply::Answer(true),
        activation.attached_target && !activation.next(reply).attached_target ==> activation.step
            == ActivationStep::DetachTarget,
        activation.attached_foreground && !activation.next(reply).attached_foreground
            ==> activation.step == ActivationStep::DetachForeground,
{
}

/// An activation starts with the question whether the target is minimized,
/// unless the target is the foreground window already.
pub proof fn law_activation_starts(target: usize, foreground: usize)
    ensures
        target == foreground ==> Activation::begun(target, foreground).step
            == ActivationStep::Finished,
        target != foreground ==> Activation::begun(target, foreground).step
            == ActivationStep::CheckIconic,
        Activation::begun(target, foreground).target == target,
        Activation::begun(target, foreground).foreground == foreground,
        !Activation::begun(target, foreground).attached_target,
        !Activation::begun(target, foreground).attached_foreground,
{
}

/// The first attempt: a minimized target is restored, any other is not; then the
/// foreground is asked for, and only a refusal leads to the threads.
pub proof fn law_first_attempt(a: Activation, yes: bool)
    ensures
        a.step == ActivationStep::CheckIconic ==> a.next(ActivationReply::Answer(yes)).step == if yes {
            ActivationStep::Restore
        } else {
            ActivationStep::TryForeground
        },
        a.step == ActivationStep::Restore ==> a.next(ActivationReply::Done).step
            == ActivationStep::TryForeground,
        a.step == ActivationStep::TryForeground ==> a.next(ActivationReply::Answer(yes)).step
            == if yes {
            ActivationStep::Finished
        } else {
            ActivationStep::QueryThreads
        },
{
}

/// The threads to attach to: that of the target where it exists and is not the
/// current one; and that of the foreground window where there is such a window,
/// its thread exists and it is neither the current one nor that of the target.
/// Each is attempted once, the target first, and the target is forced to the
/// front after that.
pub proof fn law_threads_to_attach(
    a: Activation,
    current: u32,
    target: u32,
    foreground: u32,
    yes: bool,
)
    ensures
        a.step == ActivationStep::QueryThreads ==> {
            let after = a.next(ActivationReply::Threads { current, target, foreground });
            let second = a.foreground != 0 && foreground != 0 && foreground != current && foreground
                != target;
            &&& after.current_thread == current
            &&& after.target_thread == target
            &&& a.foreground != 0 ==> after.foreground_thread == foreground
            &&& a.foreground == 0 ==> after.foreground_thread == 0
            &&& after.step == if target != 0 && target != current {
                ActivationStep::AttachTarget
            } else if second {
                ActivationStep::AttachForeground
            } else {
                ActivationStep::Force
            }
            &&& after.step == ActivationStep::AttachTarget ==> {
                let then = after.next(ActivationReply::Answer(yes));
                &&& then.attached_target == yes
                &&& then.step == if second {
                    ActivationStep::AttachForeground
                } else {
                    ActivationStep::Force
                }
            }
        },
        a.step == ActivationStep::AttachForeground ==> {
            let after = a.next(ActivationReply::Answer(yes));
            after.attached_foreground == yes && after.step == ActivationStep::Force
        },
{
}

/// After the target was forced to the front, exactly the threads that were
/// attached are detached, that of the target first.
pub proof fn law_threads_to_detach(a: Activation)
    ensures
        a.step == ActivationStep::Force ==> a.next(ActivationReply::Done).step
            == if a.attached_target {
            ActivationStep::DetachTarget
        } else if a.attached_foreground {
            ActivationStep::DetachForeground
        } else {
            ActivationStep::Finished
        },
        a.step == ActivationStep::DetachTarget ==> {
            let after = a.next(ActivationReply::Done);
            !after.attached_target && after.step == if a.attached_foreground {
                ActivationStep::DetachForeground
            } else {
                ActivationStep::Finished
            }
        },
        a.step == ActivationStep::DetachForeground ==> {
            let after = a.next(ActivationReply::Done);
            !after.attached_foreground && after.step == ActivationStep::Finished
        },
{
}

/// No reply changes the target, the foreground window, or the threads once they
/// are known.
pub proof fn law_activation_keeps_its_windows(a: Activation, reply: ActivationReply)
    ensures
        a.next(reply).target == a.target,
        a.next(reply).foreground == a.foreground,
        a.step != ActivationStep::QueryThreads ==> a.next(reply).current_thread == a.current_thread
            && a.next(reply).target_thread == a.target_thread && a.next(reply).foreground_thread
            == a.foreground_thread,
{
}

} // verus!
