//! The register that holds the current launch stage and announces every
//! change of it to the user interface, in order.
use vstd::prelude::*;

use crate::launch_stages::{stage_code, LaunchStages};

verus! {

/// What the register holds: the current stage, and the stages announced to
/// the user interface and not yet delivered, oldest first.
pub struct StatusView {
    pub stage: LaunchStages,
    pub announced: Seq<LaunchStages>,
}

/// The register after `stage` was stored: the stage is announced too.
pub open spec fn after_set(v: StatusView, stage: LaunchStages) -> StatusView {
    StatusView { stage, announced: v.announced.push(stage) }
}

/// The register after a compare-and-exchange from `current` to `new`: it
/// changes (and announces `new`) only where it held `current`.
pub open spec fn after_switch(v: StatusView, current: LaunchStages, new: LaunchStages) -> StatusView {
    if v.stage == current {
        after_set(v, new)
    } else {
        v
    }
}

/// The launch stage of the protection process, with the queue of status
/// announcements that are still to be sent to the user interface.
pub struct ProcessStatus {
    stage: LaunchStages,
    outbox: Vec<LaunchStages>,
}

impl View for ProcessStatus {
    type V = StatusView;

    closed spec fn view(&self) -> StatusView {
        StatusView { stage: self.stage, announced: self.outbox@ }
    }
}

impl ProcessStatus {
    /// A register that starts at `Stopped` with nothing announced.
    pub fn new() -> (r: ProcessStatus)
        ensures
            r@.stage == LaunchStages::Stopped,
            r@.announced == Seq::<LaunchStages>::empty(),
    {
        ProcessStatus { stage: LaunchStages::Stopped, outbox: Vec::new() }
    }

    /// The number of the current stage.
    pub fn get_status(&self) -> (code: u8)
        ensures
            code == stage_code(self@.stage),
    {
        self.stage.as_repr()
    }

    /// The current stage.
    pub fn stage(&self) -> (r: LaunchStages)
        ensures
            r == self@.stage,
    {
        self.stage
    }

    /// Stores `stage` and announces it.
    pub fn set_status(&mut self, stage: LaunchStages)
        ensures
            final(self)@ == after_set(old(self)@, stage),
    {
        self.stage = stage;
        self.emit_status(stage);
    }

    /// Moves from `current` to `new` if the register holds `current`, and then
    /// announces `new`; otherwise changes nothing. Tells whether it moved.
    pub fn switch_status(&mut self, current: LaunchStages, new: LaunchStages) -> (moved: bool)
        ensures
            moved == (old(self)@.stage == current),
            final(self)@ == after_switch(old(self)@, current, new),
    {
        if self.stage == current {
            self.set_status(new);
            true
        } else {
            false
        }
    }

    /// Queues an announcement of `status` for the user interface.
    pub fn emit_status(&mut self, status: LaunchStages)
        ensures
            final(self)@ == (StatusView {
                stage: old(self)@.stage,
                announced: old(self)@.announced.push(status),
            }),
    {
        self.outbox.push(status);
    }

    /// Hands out the queued announcements, oldest first, and empties the queue.
    pub fn take_events(&mut self) -> (events: Vec<LaunchStages>)
        ensures
            events@ == old(self)@.announced,
            final(self)@ == (StatusView {
                stage: old(self)@.stage,
                announced: Seq::<LaunchStages>::empty(),
            }),
    {
        let mut events = Vec::new();
        std::mem::swap(&mut events, &mut self.outbox);
        events
    }
}

/// Law: a compare-and-exchange cannot succeed twice in a row with the same
/// arguments when they differ, so two requests to leave a stage are never both
/// granted.
pub proof fn lemma_switch_exclusive(v: StatusView, current: LaunchStages, new: LaunchStages)
    requires
        current != new,
    ensures
        after_switch(after_switch(v, current, new), current, new) == after_switch(v, current, new),
        after_switch(v, current, new).stage != current,
{
}

/// Law: the stage that was last announced is the stage held, as long as every
/// change went through `set_status` or `switch_status`.
pub proof fn lemma_last_announced_is_current(v: StatusView, stage: LaunchStages, current: LaunchStages)
    requires
        v.announced.len() > 0 ==> v.announced.last() == v.stage,
    ensures
        after_set(v, stage).announced.last() == after_set(v, stage).stage,
        after_switch(v, current, stage).announced.len() > 0 ==> after_switch(
            v,
            current,
            stage,
        ).announced.last() == after_switch(v, current, stage).stage,
{
}

} // verus!
