//! What a session negotiates with a given device.
//!
//! A device is taken here as a function from the driver call to its answer:
//! the same question gets the same answer. For such a device the outcome of
//! the negotiation is written down as a function of the device alone, and
//! the session is proved to arrive at exactly that outcome.

use vstd::prelude::*;
use crate::driver::{ActionView, AlignMode, DriverCall, EventView, Handle, SensorKind};
use crate::session::{preferred_alignment, Phase, SessionModel};
use crate::validity::{lemma_start_wf, lemma_step_wf};

verus! {

/// The object that an answer hands out, if it hands out one.
pub open spec fn handle_of(event: EventView) -> Option<Handle> {
    match event {
        EventView::Handle(handle) => handle,
        _ => None,
    }
}

/// The number that an answer reports, or zero if it reports none.
pub open spec fn number_of(event: EventView) -> u32 {
    match event {
        EventView::Number(number) => number,
        _ => 0,
    }
}

/// The answer that a session gets to an action: the device answers the
/// driver calls, the shutdown signal is down, and a batch is taken.
pub open spec fn answer(device: spec_fn(DriverCall) -> EventView, action: ActionView) -> EventView {
    match action {
        ActionView::Call(call) => device(call),
        ActionView::PollShutdown => EventView::Signal(false),
        _ => EventView::Done,
    }
}

/// The session after its start and `steps` answers of the device, with the
/// action it has named last.
pub open spec fn driven(device: spec_fn(DriverCall) -> EventView, steps: nat) -> (
    SessionModel,
    ActionView,
)
    decreases steps,
{
    if steps == 0 {
        SessionModel::initial().start()
    } else {
        let (session, action) = driven(device, (steps - 1) as nat);
        session.step(answer(device, action))
    }
}

/// The pipeline that the device creates.
pub open spec fn pipeline_of(device: spec_fn(DriverCall) -> EventView) -> Option<Handle> {
    handle_of(device(DriverCall::CreatePipeline))
}

/// The list of color profiles of the device, if it has a color sensor.
pub open spec fn color_list_of(device: spec_fn(DriverCall) -> EventView) -> Option<Handle> {
    match pipeline_of(device) {
        Some(pipeline) => handle_of(
            device(DriverCall::StreamProfiles { pipeline, sensor: SensorKind::Color }),
        ),
        None => None,
    }
}

/// The default color profile of the device, if it has one.
pub open spec fn color_profile_of(device: spec_fn(DriverCall) -> EventView) -> Option<Handle> {
    match color_list_of(device) {
        Some(list) => handle_of(device(DriverCall::DefaultProfile { list })),
        None => None,
    }
}

/// The list of depth profiles that the device offers for its color profile
/// under an alignment mode.
pub open spec fn aligned_list_of(
    device: spec_fn(DriverCall) -> EventView,
    mode: AlignMode,
) -> Option<Handle> {
    match (pipeline_of(device), color_profile_of(device)) {
        (Some(pipeline), Some(color_profile)) => handle_of(
            device(DriverCall::AlignedDepthProfiles { pipeline, color_profile, mode }),
        ),
        _ => None,
    }
}

/// The list of depth profiles of the depth sensor.
pub open spec fn plain_list_of(device: spec_fn(DriverCall) -> EventView) -> Option<Handle> {
    match pipeline_of(device) {
        Some(pipeline) => handle_of(
            device(DriverCall::StreamProfiles { pipeline, sensor: SensorKind::Depth }),
        ),
        None => None,
    }
}

/// The number of profiles in a list of the device; an absent list has none.
pub open spec fn count_of(device: spec_fn(DriverCall) -> EventView, list: Option<Handle>) -> u32 {
    match list {
        Some(list) => number_of(device(DriverCall::ProfileCount { list })),
        None => 0,
    }
}

/// The alignment mode that goes with what the device offers.
pub open spec fn align_of(device: spec_fn(DriverCall) -> EventView) -> AlignMode {
    preferred_alignment(
        color_profile_of(device) is Some,
        count_of(device, aligned_list_of(device, AlignMode::HardwareAligned)) as nat,
        count_of(device, aligned_list_of(device, AlignMode::SoftwareAligned)) as nat,
    )
}

/// The list from which the depth profile is taken: the list of the mode that
/// goes with the device or, without alignment, the list of the depth sensor;
/// none if that list is absent or empty.
pub open spec fn depth_list_of(device: spec_fn(DriverCall) -> EventView) -> Option<Handle> {
    let list = match align_of(device) {
        AlignMode::HardwareAligned => aligned_list_of(device, AlignMode::HardwareAligned),
        AlignMode::SoftwareAligned => aligned_list_of(device, AlignMode::SoftwareAligned),
        AlignMode::Disabled => plain_list_of(device),
    };
    if count_of(device, list) > 0 {
        list
    } else {
        None
    }
}

/// The frame rate of the color profile of the device.
pub open spec fn color_rate_of(device: spec_fn(DriverCall) -> EventView) -> Option<u32> {
    match color_profile_of(device) {
        Some(profile) => Some(number_of(device(DriverCall::FrameRate { profile }))),
        None => None,
    }
}

/// The profile of a list that the device picks for the frame rate of its
/// color profile, if it has a color profile and a profile of that rate.
pub open spec fn rate_match_of(device: spec_fn(DriverCall) -> EventView, list: Handle) -> Option<
    Handle,
> {
    match color_rate_of(device) {
        Some(fps) => handle_of(device(DriverCall::MatchFrameRate { list, fps })),
        None => None,
    }
}

/// The depth profile that goes with the device: of the list from which it
/// is taken, the profile that the device picks for the frame rate of the
/// color profile, else the default profile of that list.
pub open spec fn depth_profile_of(device: spec_fn(DriverCall) -> EventView) -> Option<Handle> {
    match depth_list_of(device) {
        Some(list) => match rate_match_of(device, list) {
            Some(profile) => Some(profile),
            None => handle_of(device(DriverCall::DefaultProfile { list })),
        },
        None => None,
    }
}

/// Whether a session has come through its negotiation.
pub open spec fn has_negotiated(session: SessionModel) -> bool {
    session.failure is None && !session.phase.is_before_depth() && session.phase
        != Phase::EnablingDepth && session.phase != Phase::SettingAlignment
}

/// What ties a session to the device that drives it, phase by phase.
pub open spec fn follows_device(
    device: spec_fn(DriverCall) -> EventView,
    session: SessionModel,
    action: ActionView,
) -> bool {
    let held = session.held;
    let negotiated = session.negotiated;
    let phase = session.phase;
    let hardware = aligned_list_of(device, AlignMode::HardwareAligned);
    let software = aligned_list_of(device, AlignMode::SoftwareAligned);
    &&& session.wf()
    &&& phase.is_closing() ==> session.failure is Some
    &&& session.failure is None && phase.is_starting() && phase != Phase::Idle ==> {
        &&& phase != Phase::CreatingPipeline ==> held.pipeline == pipeline_of(device)
        &&& phase == Phase::CreatingPipeline ==> action == ActionView::Call(
            DriverCall::CreatePipeline,
        )
        &&& phase == Phase::CreatingConfig ==> action == ActionView::Call(DriverCall::CreateConfig)
        &&& phase == Phase::QueryingColorProfiles ==> action == ActionView::Call(
            DriverCall::StreamProfiles { pipeline: held.pipeline->0, sensor: SensorKind::Color },
        )
        &&& phase == Phase::DisablingAlignment ==> color_list_of(device) is None && action
            == ActionView::Call(
            DriverCall::SetAlignMode { config: held.config->0, mode: AlignMode::Disabled },
        )
        &&& phase == Phase::SelectingColorProfile ==> held.color_profiles == color_list_of(device)
            && action == ActionView::Call(
            DriverCall::DefaultProfile { list: held.color_profiles->0 },
        )
        &&& !phase.is_before_color() ==> negotiated.color_profile == color_profile_of(device)
        &&& phase == Phase::EnablingColor ==> action is Call && action->Call_0 is EnableStream
        &&& phase == Phase::QueryingHardwareAligned ==> action == ActionView::Call(
            DriverCall::AlignedDepthProfiles {
                pipeline: held.pipeline->0,
                color_profile: held.color_profile->0,
                mode: AlignMode::HardwareAligned,
            },
        )
        &&& phase == Phase::CountingHardwareAligned ==> held.hardware_profiles == hardware
            && action == ActionView::Call(
            DriverCall::ProfileCount { list: held.hardware_profiles->0 },
        )
        &&& phase == Phase::QueryingSoftwareAligned ==> count_of(device, hardware) == 0 && action
            == ActionView::Call(
            DriverCall::AlignedDepthProfiles {
                pipeline: held.pipeline->0,
                color_profile: held.color_profile->0,
                mode: AlignMode::SoftwareAligned,
            },
        )
        &&& phase == Phase::CountingSoftwareAligned ==> count_of(device, hardware) == 0
            && held.software_profiles == software && action == ActionView::Call(
            DriverCall::ProfileCount { list: held.software_profiles->0 },
        )
        &&& phase == Phase::QueryingDepthProfiles ==> align_of(device) == AlignMode::Disabled
            && action == ActionView::Call(
            DriverCall::StreamProfiles { pipeline: held.pipeline->0, sensor: SensorKind::Depth },
        )
        &&& phase == Phase::CountingDepthProfiles ==> align_of(device) == AlignMode::Disabled
            && held.depth_profiles == plain_list_of(device) && action == ActionView::Call(
            DriverCall::ProfileCount { list: held.depth_profiles->0 },
        )
        &&& phase == Phase::ReadingColorRate || phase == Phase::MatchingFrameRate || phase
            == Phase::SelectingDefaultDepth ==> negotiated.align == align_of(device)
            && session.depth_list() == depth_list_of(device)
        &&& phase == Phase::ReadingColorRate ==> held.color_profile is Some && action
            == ActionView::Call(DriverCall::FrameRate { profile: held.color_profile->0 })
        &&& phase == Phase::MatchingFrameRate ==> negotiated.color_rate == color_rate_of(device)
            && held.color_profile is Some && action == ActionView::Call(
            DriverCall::MatchFrameRate {
                list: session.depth_list()->0,
                fps: negotiated.color_rate->0,
            },
        )
        &&& phase == Phase::SelectingDefaultDepth ==> rate_match_of(device, session.depth_list()->0)
            is None && action == ActionView::Call(
            DriverCall::DefaultProfile { list: session.depth_list()->0 },
        )
        &&& !phase.is_before_depth() ==> negotiated.align == align_of(device)
            && negotiated.depth_profile == depth_profile_of(device)
    }
    &&& session.failure is None && phase.is_running() ==> {
        &&& phase == Phase::PollingShutdown ==> action == ActionView::PollShutdown
        &&& negotiated.color_profile == color_profile_of(device)
        &&& negotiated.align == align_of(device)
        &&& negotiated.depth_profile == depth_profile_of(device)
    }
}

/// The tie between session and device holds at the start.
proof fn lemma_start_follows_device(device: spec_fn(DriverCall) -> EventView)
    ensures
        follows_device(device, driven(device, 0).0, driven(device, 0).1),
{
    lemma_start_wf(SessionModel::initial());
}

/// The tie between session and device is kept by every answer of the device.
proof fn lemma_step_follows_device(
    device: spec_fn(DriverCall) -> EventView,
    session: SessionModel,
    action: ActionView,
)
    requires
        follows_device(device, session, action),
    ensures
        follows_device(
            device,
            session.step(answer(device, action)).0,
            session.step(answer(device, action)).1,
        ),
{
    lemma_step_wf(session, answer(device, action));
    let event = answer(device, action);
    assert forall|other: SessionModel| other.failure is Some implies (#[trigger] other.drain()).0.failure is Some by {}
}

/// The tie between session and device holds after any number of answers.
proof fn lemma_driven_follows_device(device: spec_fn(DriverCall) -> EventView, steps: nat)
    ensures
        follows_device(device, driven(device, steps).0, driven(device, steps).1),
    decreases steps,
{
    if steps == 0 {
        lemma_start_follows_device(device);
    } else {
        lemma_driven_follows_device(device, (steps - 1) as nat);
        let (session, action) = driven(device, (steps - 1) as nat);
        lemma_step_follows_device(device, session, action);
    }
}

/// A session that is driven by a device and comes through its negotiation
/// has selected the default color profile of the device, has
/// adopted the alignment mode that the fallback rule prefers for what the
/// device offers, and has selected the depth profile that goes with the
/// device: the one that the device picks for the frame rate of the color
/// profile if there is one, else the default profile of the list.
pub proof fn lemma_negotiation_outcome(device: spec_fn(DriverCall) -> EventView, steps: nat)
    requires
        has_negotiated(driven(device, steps).0),
    ensures
        driven(device, steps).0.negotiated.color_profile == color_profile_of(device),
        driven(device, steps).0.negotiated.align == align_of(device),
        driven(device, steps).0.negotiated.depth_profile == depth_profile_of(device),
{
    lemma_driven_follows_device(device, steps);
}

} // verus!
