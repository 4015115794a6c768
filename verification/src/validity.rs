//! What holds of every session that was created idle and driven by `start`,
//! `step` and `stop`, whatever its caller reported.

use vstd::prelude::*;
use crate::driver::{AlignMode, EventView};
use crate::session::{Negotiation, Phase, Resources, SessionModel};
use crate::teardown::TEARDOWN_STAGES;

verus! {

impl SessionModel {
    /// The session holds the objects that the calls of its phase are made
    /// on.
    pub open spec fn holds_what_it_needs(self) -> bool {
        let phase = self.phase;
        let held = self.held;
        &&& phase != Phase::Idle && phase != Phase::CreatingPipeline ==> held.pipeline is Some
        &&& phase != Phase::Idle && phase != Phase::CreatingPipeline && phase
            != Phase::CreatingConfig ==> held.config is Some
        &&& phase == Phase::SelectingColorProfile ==> held.color_profiles is Some
        &&& phase.is_aligning() ==> held.color_profile is Some
        &&& phase == Phase::CountingHardwareAligned ==> held.hardware_profiles is Some
        &&& phase == Phase::CountingSoftwareAligned ==> held.software_profiles is Some
        &&& phase == Phase::CountingDepthProfiles ==> held.depth_profiles is Some
        &&& self.negotiated.align == AlignMode::HardwareAligned ==> held.hardware_profiles is Some
        &&& self.negotiated.align == AlignMode::SoftwareAligned ==> held.software_profiles is Some
        &&& phase == Phase::ReadingColorRate || phase == Phase::MatchingFrameRate || phase
            == Phase::SelectingDefaultDepth ==> self.depth_list() is Some
        &&& phase == Phase::ReadingCameraParam || phase == Phase::BindingCameraParam
            || phase.is_running() ==> held.filter is Some
    }

    /// The session holds a frameset, a depth frame and a points frame in the
    /// phases that work on them, and in no other phase. In particular it
    /// holds none of them when it polls the shutdown signal.
    pub open spec fn frames_in_place(self) -> bool {
        let phase = self.phase;
        let held = self.held;
        &&& held.frameset is Some <==> phase.is_running() && 2 <= phase.steps_to_poll() <= 10
        &&& held.depth_frame is Some <==> phase == Phase::ReadingDepthScale || phase
            == Phase::ReleasingDepth
        &&& held.points_frame is Some <==> phase == Phase::ReadingPayload || phase
            == Phase::ReleasingPoints
        &&& self.batch is Some ==> phase == Phase::ReleasingPoints || phase
            == Phase::ReleasingFrameset
    }

    /// The negotiation record agrees with the phase: no profile is on
    /// record before it was selected, no mode is adopted before the device
    /// was asked, the aligned lists are asked for only with a color profile
    /// at hand, and the adopted mode is the one that the fallback rule
    /// prefers.
    pub open spec fn negotiation_in_order(self) -> bool {
        let negotiated = self.negotiated;
        &&& negotiated.follows_priority()
        &&& negotiated.color_profile == self.held.color_profile
        &&& negotiated.depth_profile == self.held.depth_profile
        &&& self.phase.is_undecided() ==> negotiated.align == AlignMode::Disabled
            && negotiated.hardware_aligned == 0 && negotiated.software_aligned == 0
        &&& self.phase.is_aligning() ==> negotiated.color_profile is Some
        &&& self.phase.is_before_color() ==> negotiated.color_profile is None
        &&& self.phase.is_before_depth() ==> negotiated.depth_profile is None
    }

    /// The invariant of a session.
    pub open spec fn wf(self) -> bool {
        if self.phase == Phase::Stopped {
            &&& self.held == Resources::empty()
            &&& self.batch is None
            &&& self.negotiated.follows_priority()
        } else if self.phase == Phase::Draining {
            &&& 1 <= self.cursor <= TEARDOWN_STAGES
            &&& self.batch is None
            &&& self.negotiated.follows_priority()
        } else {
            &&& self.failure is None
            &&& self.ran == self.phase.is_running()
            &&& self.phase == Phase::Idle ==> self.held == Resources::empty() && self.negotiated
                == Negotiation::initial()
            &&& self.holds_what_it_needs()
            &&& self.frames_in_place()
            &&& self.negotiation_in_order()
        }
    }
}

/// A new session satisfies the invariant.
pub proof fn lemma_initial_wf()
    ensures
        SessionModel::initial().wf(),
{
}

/// Teardown keeps the invariant, wherever it begins.
pub proof fn lemma_drain_wf(session: SessionModel)
    requires
        session.negotiated.follows_priority(),
        session.phase == Phase::Draining ==> 1 <= session.cursor <= TEARDOWN_STAGES,
    ensures
        session.drain().0.wf(),
        session.drain().0.phase.is_closing(),
{
    let from = if session.phase == Phase::Draining {
        session.cursor
    } else {
        0
    };
    lemma_next_stage_bounds(session.held, from);
}

/// The next stage lies between the stage the search begins at and the
/// number of stages, and it has something to release unless it is the
/// number of stages.
pub proof fn lemma_next_stage_bounds(held: Resources, from: int)
    requires
        from <= TEARDOWN_STAGES,
    ensures
        from <= held.next_stage(from) <= TEARDOWN_STAGES,
        held.next_stage(from) < TEARDOWN_STAGES ==> held.release_at(held.next_stage(from)) is Some,
    decreases TEARDOWN_STAGES - from,
{
    if from < TEARDOWN_STAGES && held.release_at(from) is None {
        lemma_next_stage_bounds(held, from + 1);
    }
}

/// Starting a session keeps the invariant.
pub proof fn lemma_start_wf(session: SessionModel)
    requires
        session.wf(),
    ensures
        session.start().0.wf(),
{
    if session.phase != Phase::Idle {
        if session.phase.is_closing() {
            lemma_drain_wf(session);
        } else {
            lemma_drain_wf(session.note(crate::session::SessionError::Protocol { phase: session.phase }));
        }
    }
}

/// Stopping a session keeps the invariant.
pub proof fn lemma_stop_wf(session: SessionModel)
    requires
        session.wf(),
    ensures
        session.stop().0.wf(),
{
    lemma_drain_wf(session);
}

/// Teardown keeps the invariant, from whatever state it begins.
pub proof fn lemma_every_drain_wf()
    ensures
        forall|session: SessionModel|
            session.negotiated.follows_priority() && (session.phase == Phase::Draining ==> 1
                <= session.cursor <= TEARDOWN_STAGES) ==> (#[trigger] session.drain()).0.wf(),
{
    assert forall|session: SessionModel|
        session.negotiated.follows_priority() && (session.phase == Phase::Draining ==> 1
            <= session.cursor <= TEARDOWN_STAGES) implies (#[trigger] session.drain()).0.wf() by {
        lemma_drain_wf(session);
    }
}

/// A step keeps the invariant, whatever the event.
pub proof fn lemma_step_wf(session: SessionModel, event: EventView)
    requires
        session.wf(),
    ensures
        session.step(event).0.wf(),
{
    lemma_every_drain_wf();
}

} // verus!
