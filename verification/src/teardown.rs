//! The order in which a session gives back what it holds.
//!
//! Teardown goes through a fixed list of stages. A stage whose object is
//! absent is skipped; a stage whose object is held asks for one release.

use vstd::prelude::*;
use crate::driver::{ActionView, DriverCall, Handle};
use crate::session::Resources;

verus! {

/// The number of teardown stages.
pub const TEARDOWN_STAGES: u8 = 13;

/// The release of a frame or frameset, if it is held.
pub open spec fn frame_release(slot: Option<Handle>) -> Option<DriverCall> {
    match slot {
        Some(frame) => Some(DriverCall::ReleaseFrame { frame }),
        None => None,
    }
}

/// The release of a stream profile, if it is held.
pub open spec fn profile_release(slot: Option<Handle>) -> Option<DriverCall> {
    match slot {
        Some(profile) => Some(DriverCall::ReleaseProfile { profile }),
        None => None,
    }
}

/// The release of a list of stream profiles, if it is held.
pub open spec fn list_release(slot: Option<Handle>) -> Option<DriverCall> {
    match slot {
        Some(list) => Some(DriverCall::ReleaseProfileList { list }),
        None => None,
    }
}

impl Resources {
    /// The driver call of a teardown stage, or `None` where the stage has
    /// nothing to release. The stages, in order: the points frame, the depth
    /// frame and the frameset of the capture at hand; the point-cloud filter;
    /// stopping the pipeline; the pipeline; the configuration; the depth
    /// profile; the color profile; the color profile list; the depth profile
    /// lists in the order in which they were asked for.
    pub open spec fn release_at(self, stage: int) -> Option<DriverCall> {
        if stage == 0 {
            frame_release(self.points_frame)
        } else if stage == 1 {
            frame_release(self.depth_frame)
        } else if stage == 2 {
            frame_release(self.frameset)
        } else if stage == 3 {
            match self.filter {
                Some(filter) => Some(DriverCall::ReleaseFilter { filter }),
                None => None,
            }
        } else if stage == 4 {
            match self.pipeline {
                Some(pipeline) => Some(DriverCall::StopPipeline { pipeline }),
                None => None,
            }
        } else if stage == 5 {
            match self.pipeline {
                Some(pipeline) => Some(DriverCall::ReleasePipeline { pipeline }),
                None => None,
            }
        } else if stage == 6 {
            match self.config {
                Some(config) => Some(DriverCall::ReleaseConfig { config }),
                None => None,
            }
        } else if stage == 7 {
            profile_release(self.depth_profile)
        } else if stage == 8 {
            profile_release(self.color_profile)
        } else if stage == 9 {
            list_release(self.color_profiles)
        } else if stage == 10 {
            list_release(self.hardware_profiles)
        } else if stage == 11 {
            list_release(self.software_profiles)
        } else if stage == 12 {
            list_release(self.depth_profiles)
        } else {
            None
        }
    }

    /// The record after the release of a stage was asked for: the slot of
    /// the stage is empty. Stopping the pipeline empties nothing.
    pub open spec fn without(self, stage: int) -> Resources {
        if stage == 0 {
            Resources { points_frame: None, ..self }
        } else if stage == 1 {
            Resources { depth_frame: None, ..self }
        } else if stage == 2 {
            Resources { frameset: None, ..self }
        } else if stage == 3 {
            Resources { filter: None, ..self }
        } else if stage == 5 {
            Resources { pipeline: None, ..self }
        } else if stage == 6 {
            Resources { config: None, ..self }
        } else if stage == 7 {
            Resources { depth_profile: None, ..self }
        } else if stage == 8 {
            Resources { color_profile: None, ..self }
        } else if stage == 9 {
            Resources { color_profiles: None, ..self }
        } else if stage == 10 {
            Resources { hardware_profiles: None, ..self }
        } else if stage == 11 {
            Resources { software_profiles: None, ..self }
        } else if stage == 12 {
            Resources { depth_profiles: None, ..self }
        } else {
            self
        }
    }

    /// The first stage at or after `from` that has something to release, or
    /// the number of stages if there is none.
    pub open spec fn next_stage(self, from: int) -> int
        decreases TEARDOWN_STAGES - from,
    {
        if from >= TEARDOWN_STAGES {
            TEARDOWN_STAGES as int
        } else if self.release_at(from) is Some {
            from
        } else {
            self.next_stage(from + 1)
        }
    }

    /// What a teardown asks for from stage `from` on: one release for each
    /// stage that holds something, in stage order, and then the halt.
    pub open spec fn teardown_script(self, from: int) -> Seq<ActionView>
        decreases TEARDOWN_STAGES - from,
    {
        if from >= TEARDOWN_STAGES {
            seq![ActionView::Halt]
        } else {
            match self.release_at(from) {
                Some(call) => seq![ActionView::Call(call)] + self.teardown_script(from + 1),
                None => self.teardown_script(from + 1),
            }
        }
    }

    /// The driver call of a teardown stage.
    pub(crate) fn release_call(&self, stage: u8) -> (call: Option<DriverCall>)
        ensures
            call == self.release_at(stage as int),
    {
        if stage == 0 {
            match self.points_frame {
                Some(frame) => Some(DriverCall::ReleaseFrame { frame }),
                None => None,
            }
        } else if stage == 1 {
            match self.depth_frame {
                Some(frame) => Some(DriverCall::ReleaseFrame { frame }),
                None => None,
            }
        } else if stage == 2 {
            match self.frameset {
                Some(frame) => Some(DriverCall::ReleaseFrame { frame }),
                None => None,
            }
        } else if stage == 3 {
            match self.filter {
                Some(filter) => Some(DriverCall::ReleaseFilter { filter }),
                None => None,
            }
        } else if stage == 4 {
            match self.pipeline {
                Some(pipeline) => Some(DriverCall::StopPipeline { pipeline }),
                None => None,
            }
        } else if stage == 5 {
            match self.pipeline {
                Some(pipeline) => Some(DriverCall::ReleasePipeline { pipeline }),
                None => None,
            }
        } else if stage == 6 {
            match self.config {
                Some(config) => Some(DriverCall::ReleaseConfig { config }),
                None => None,
            }
        } else if stage == 7 {
            match self.depth_profile {
                Some(profile) => Some(DriverCall::ReleaseProfile { profile }),
                None => None,
            }
        } else if stage == 8 {
            match self.color_profile {
                Some(profile) => Some(DriverCall::ReleaseProfile { profile }),
                None => None,
            }
        } else if stage == 9 {
            match self.color_profiles {
                Some(list) => Some(DriverCall::ReleaseProfileList { list }),
                None => None,
            }
        } else if stage == 10 {
            match self.hardware_profiles {
                Some(list) => Some(DriverCall::ReleaseProfileList { list }),
                None => None,
            }
        } else if stage == 11 {
            match self.software_profiles {
                Some(list) => Some(DriverCall::ReleaseProfileList { list }),
                None => None,
            }
        } else if stage == 12 {
            match self.depth_profiles {
                Some(list) => Some(DriverCall::ReleaseProfileList { list }),
                None => None,
            }
        } else {
            None
        }
    }

    /// Empties the slot of a teardown stage.
    pub(crate) fn clear(&mut self, stage: u8)
        ensures
            *final(self) == old(self).without(stage as int),
    {
        if stage == 0 {
            self.points_frame = None;
        } else if stage == 1 {
            self.depth_frame = None;
        } else if stage == 2 {
            self.frameset = None;
        } else if stage == 3 {
            self.filter = None;
        } else if stage == 5 {
            self.pipeline = None;
        } else if stage == 6 {
            self.config = None;
        } else if stage == 7 {
            self.depth_profile = None;
        } else if stage == 8 {
            self.color_profile = None;
        } else if stage == 9 {
            self.color_profiles = None;
        } else if stage == 10 {
            self.hardware_profiles = None;
        } else if stage == 11 {
            self.software_profiles = None;
        } else if stage == 12 {
            self.depth_profiles = None;
        }
    }

    /// Finds the first stage at or after `from` that has something to
    /// release.
    pub(crate) fn find_stage(&self, from: u8) -> (stage: u8)
        ensures
            stage == self.next_stage(from as int),
            stage <= TEARDOWN_STAGES,
            stage < TEARDOWN_STAGES ==> self.release_at(stage as int) is Some,
    {
        let mut stage: u8 = if from < TEARDOWN_STAGES {
            from
        } else {
            TEARDOWN_STAGES
        };
        while stage < TEARDOWN_STAGES && self.release_call(stage).is_none()
            invariant
                stage <= TEARDOWN_STAGES,
                self.next_stage(from as int) == self.next_stage(stage as int),
            decreases TEARDOWN_STAGES - stage,
        {
            stage += 1;
        }
        stage
    }
}

/// The number of stages from `from` on that have something to release.
pub open spec fn pending_releases(held: Resources, from: int) -> nat
    decreases TEARDOWN_STAGES - from,
{
    if from >= TEARDOWN_STAGES {
        0
    } else if held.release_at(from) is Some {
        1 + pending_releases(held, from + 1)
    } else {
        pending_releases(held, from + 1)
    }
}

/// A teardown script asks for one release per stage that holds something and
/// ends with the halt, which occurs nowhere else in it.
pub proof fn lemma_script_shape(held: Resources, from: int)
    requires
        0 <= from,
    ensures
        held.teardown_script(from).len() == pending_releases(held, from) + 1,
        held.teardown_script(from).len() <= TEARDOWN_STAGES - from + 1 || from > TEARDOWN_STAGES,
        held.teardown_script(from).last() == ActionView::Halt,
        forall|i: int|
            0 <= i < held.teardown_script(from).len() - 1 ==> held.teardown_script(from)[i]
                != ActionView::Halt,
    decreases TEARDOWN_STAGES - from,
{
    if from < TEARDOWN_STAGES {
        lemma_script_shape(held, from + 1);
    }
}

/// No more stages are pending from a later stage on than from an earlier
/// one.
pub proof fn lemma_pending_monotone(held: Resources, from: int, stage: int)
    requires
        0 <= from <= stage,
    ensures
        pending_releases(held, stage) <= pending_releases(held, from),
    decreases stage - from,
{
    if from < stage {
        lemma_pending_monotone(held, from + 1, stage);
    }
}

/// Teardown follows the order of the stages and skips what is absent: the
/// release of a stage that holds something stands in the script at the
/// position that counts the stages before it that hold something. So every
/// object held is released once, and an object of an earlier stage before
/// one of a later stage.
pub proof fn lemma_release_position(held: Resources, from: int, stage: int)
    requires
        0 <= from <= stage < TEARDOWN_STAGES,
        held.release_at(stage) is Some,
    ensures
        0 <= pending_releases(held, from) - pending_releases(held, stage) < held.teardown_script(
            from,
        ).len() - 1,
        held.teardown_script(from)[pending_releases(held, from) - pending_releases(held, stage)]
            == ActionView::Call(held.release_at(stage)->0),
    decreases stage - from,
{
    lemma_script_shape(held, from);
    lemma_pending_monotone(held, from, stage);
    if from < stage {
        lemma_release_position(held, from + 1, stage);
        lemma_script_shape(held, from + 1);
    }
}

/// The position of a stage in the script of a whole teardown: the number of
/// stages before it that hold something.
pub open spec fn release_position(held: Resources, stage: int) -> int {
    pending_releases(held, 0) - pending_releases(held, stage)
}

/// Of two objects held, the one of the earlier stage is released first. So
/// the frames of a capture go before the filter, the filter before the
/// pipeline, the stopped pipeline before the configuration it was started
/// with, and each stream profile before every list of profiles.
pub proof fn lemma_stage_order(held: Resources, earlier: int, later: int)
    requires
        0 <= earlier < later < TEARDOWN_STAGES,
        held.release_at(earlier) is Some,
        held.release_at(later) is Some,
    ensures
        0 <= release_position(held, earlier) < release_position(held, later)
            < held.teardown_script(0).len() - 1,
        held.teardown_script(0)[release_position(held, earlier)] == ActionView::Call(
            held.release_at(earlier)->0,
        ),
        held.teardown_script(0)[release_position(held, later)] == ActionView::Call(
            held.release_at(later)->0,
        ),
{
    lemma_release_position(held, 0, earlier);
    lemma_release_position(held, 0, later);
    lemma_pending_monotone(held, earlier + 1, later);
}

/// Emptying the slot of a stage changes nothing for the stages after it.
pub proof fn lemma_script_after_release(held: Resources, stage: int, from: int)
    requires
        0 <= stage < from,
    ensures
        held.without(stage).teardown_script(from) == held.teardown_script(from),
    decreases TEARDOWN_STAGES - from,
{
    if from < TEARDOWN_STAGES {
        lemma_script_after_release(held, stage, from + 1);
    }
}

/// A teardown script begins with the release of the next stage that holds
/// something and goes on with the script of the stages after it.
pub proof fn lemma_script_unfold(held: Resources, from: int)
    requires
        0 <= from <= TEARDOWN_STAGES,
    ensures
        held.next_stage(from) >= TEARDOWN_STAGES ==> held.teardown_script(from)
            == seq![ActionView::Halt],
        held.next_stage(from) < TEARDOWN_STAGES ==> held.teardown_script(from) == seq![
            ActionView::Call(held.release_at(held.next_stage(from))->0),
        ] + held.teardown_script(held.next_stage(from) + 1),
    decreases TEARDOWN_STAGES - from,
{
    if from < TEARDOWN_STAGES && held.release_at(from) is None {
        lemma_script_unfold(held, from + 1);
    }
}

} // verus!
