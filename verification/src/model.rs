//! The transition function of a capture session.
//!
//! A session alternates with its caller: it names an action, the caller
//! performs it and reports an event, and the session names the next action.
//! This module says, for every state and every event, what the next state
//! and the next action are. The executable session computes exactly this
//! function.

use vstd::prelude::*;
use crate::driver::{ActionView, AlignMode, DriverCall, EventView, Handle, SensorKind,
    CAPTURE_TIMEOUT_MS};
use crate::point::decoded;
use crate::session::{Negotiation, Phase, Resources, SessionError, SessionModel};
use crate::teardown::TEARDOWN_STAGES;

verus! {

impl SessionModel {
    /// The session in another phase.
    pub open spec fn at(self, phase: Phase) -> SessionModel {
        SessionModel { phase, ..self }
    }

    /// The session asks for a driver call and waits for its answer.
    pub open spec fn ask(self, phase: Phase, call: DriverCall) -> (SessionModel, ActionView) {
        (self.at(phase), ActionView::Call(call))
    }

    /// The session holding other objects.
    pub open spec fn holding(self, held: Resources) -> SessionModel {
        SessionModel { held, ..self }
    }

    /// The session with a failure on record. The first failure stays.
    pub open spec fn note(self, error: SessionError) -> SessionModel {
        if self.failure is None {
            SessionModel { failure: Some(error), ..self }
        } else {
            self
        }
    }

    /// The failure that an event stands for when it is not the answer the
    /// session waits for.
    pub open spec fn refusal(self, event: EventView) -> SessionError {
        match event {
            EventView::Failed(error) => SessionError::Device { phase: self.phase, error },
            _ => SessionError::Protocol { phase: self.phase },
        }
    }

    /// One step of teardown: the session asks for the release of the next
    /// object it holds, or halts when nothing is left. A session that is not
    /// yet draining begins with the first stage.
    pub open spec fn drain(self) -> (SessionModel, ActionView) {
        let from = if self.phase == Phase::Draining {
            self.cursor
        } else {
            0
        };
        let stage = self.held.next_stage(from);
        if stage >= TEARDOWN_STAGES {
            (
                SessionModel {
                    phase: Phase::Stopped,
                    held: Resources::empty(),
                    batch: None,
                    cursor: TEARDOWN_STAGES as int,
                    ..self
                },
                ActionView::Halt,
            )
        } else {
            (
                SessionModel {
                    phase: Phase::Draining,
                    held: self.held.without(stage),
                    batch: None,
                    cursor: stage + 1,
                    ..self
                },
                ActionView::Call(self.held.release_at(stage)->0),
            )
        }
    }

    /// The session gives up: it records why and begins teardown.
    pub open spec fn abort(self, event: EventView) -> (SessionModel, ActionView) {
        self.note(self.refusal(event)).drain()
    }

    /// The session gives up because an object it needs is not there.
    pub open spec fn lost(self) -> (SessionModel, ActionView) {
        self.note(SessionError::Protocol { phase: self.phase }).drain()
    }

    /// The session polls the shutdown signal: the head of the capture loop.
    pub open spec fn poll(self) -> (SessionModel, ActionView) {
        (SessionModel { phase: Phase::PollingShutdown, ran: true, ..self }, ActionView::PollShutdown)
    }

    /// The session starts: from `Idle` it asks for the pipeline. A session
    /// that was started before gives up, and one that is closing goes on
    /// closing.
    pub open spec fn start(self) -> (SessionModel, ActionView) {
        if self.phase == Phase::Idle {
            self.ask(Phase::CreatingPipeline, DriverCall::CreatePipeline)
        } else if self.phase.is_closing() {
            self.drain()
        } else {
            self.lost()
        }
    }

    /// The owner stops the session: the action that was asked for last is
    /// not performed, and teardown begins or goes on.
    pub open spec fn stop(self) -> (SessionModel, ActionView) {
        self.drain()
    }

    /// Asks for the profiles of the depth sensor, with alignment off.
    pub open spec fn depth_only(self) -> (SessionModel, ActionView) {
        match self.held.pipeline {
            Some(pipeline) => self.ask(
                Phase::QueryingDepthProfiles,
                DriverCall::StreamProfiles { pipeline, sensor: SensorKind::Depth },
            ),
            None => self.lost(),
        }
    }

    /// Asks for the depth profiles that can be aligned to the color profile
    /// under the given mode.
    pub open spec fn try_aligned(self, phase: Phase, mode: AlignMode) -> (SessionModel, ActionView) {
        match (self.held.pipeline, self.held.color_profile) {
            (Some(pipeline), Some(color_profile)) => self.ask(
                phase,
                DriverCall::AlignedDepthProfiles { pipeline, color_profile, mode },
            ),
            _ => self.lost(),
        }
    }

    /// Asks for the number of profiles in a list.
    pub open spec fn count(self, phase: Phase, list: Handle) -> (SessionModel, ActionView) {
        self.ask(phase, DriverCall::ProfileCount { list })
    }

    /// Selects a depth profile from the list that goes with the adopted
    /// mode: by the frame rate of the color profile where there is one, else
    /// the device's default.
    pub open spec fn select_depth(self) -> (SessionModel, ActionView) {
        match self.depth_list() {
            Some(list) => match self.held.color_profile {
                Some(profile) => self.ask(Phase::ReadingColorRate, DriverCall::FrameRate { profile }),
                None => self.ask(Phase::SelectingDefaultDepth, DriverCall::DefaultProfile { list }),
            },
            None => self.lost(),
        }
    }

    /// Adopts a depth profile and enables its stream.
    pub open spec fn enable_depth(self, profile: Handle) -> (SessionModel, ActionView) {
        let adopted = SessionModel {
            held: Resources { depth_profile: Some(profile), ..self.held },
            negotiated: Negotiation { depth_profile: Some(profile), ..self.negotiated },
            ..self
        };
        match self.held.config {
            Some(config) => adopted.ask(
                Phase::EnablingDepth,
                DriverCall::EnableStream { config, profile },
            ),
            None => adopted.lost(),
        }
    }

    /// Starts the pipeline with the configuration as negotiated.
    pub open spec fn launch(self) -> (SessionModel, ActionView) {
        match (self.held.pipeline, self.held.config) {
            (Some(pipeline), Some(config)) => self.ask(
                Phase::StartingPipeline,
                DriverCall::StartPipeline { pipeline, config },
            ),
            _ => self.lost(),
        }
    }

    /// Releases the frameset at hand.
    pub open spec fn release_frameset(self) -> (SessionModel, ActionView) {
        match self.held.frameset {
            Some(frame) => self.ask(Phase::ReleasingFrameset, DriverCall::ReleaseFrame { frame }),
            None => self.lost(),
        }
    }

    /// Discards the frameset at hand: it yields no batch.
    pub open spec fn discard(self) -> (SessionModel, ActionView) {
        SessionModel { batch: None, ..self }.release_frameset()
    }

    /// The step of a session that creates its pipeline, configuration and
    /// filter and starts the pipeline.
    pub open spec fn setup_step(self, event: EventView) -> (SessionModel, ActionView) {
        match self.phase {
            Phase::CreatingPipeline => match event {
                EventView::Handle(Some(pipeline)) => self.holding(
                    Resources { pipeline: Some(pipeline), ..self.held },
                ).ask(Phase::CreatingConfig, DriverCall::CreateConfig),
                _ => self.abort(event),
            },
            Phase::CreatingConfig => match event {
                EventView::Handle(Some(config)) => {
                    let next = self.holding(Resources { config: Some(config), ..self.held });
                    match self.held.pipeline {
                        Some(pipeline) => next.ask(
                            Phase::QueryingColorProfiles,
                            DriverCall::StreamProfiles { pipeline, sensor: SensorKind::Color },
                        ),
                        None => next.lost(),
                    }
                },
                _ => self.abort(event),
            },
            Phase::StartingPipeline => match event {
                EventView::Done => self.ask(
                    Phase::CreatingFilter,
                    DriverCall::CreatePointCloudFilter,
                ),
                _ => self.abort(event),
            },
            Phase::CreatingFilter => match event {
                EventView::Handle(Some(filter)) => {
                    let next = self.holding(Resources { filter: Some(filter), ..self.held });
                    match self.held.pipeline {
                        Some(pipeline) => next.ask(
                            Phase::ReadingCameraParam,
                            DriverCall::CameraParam { pipeline },
                        ),
                        None => next.lost(),
                    }
                },
                _ => self.abort(event),
            },
            Phase::ReadingCameraParam => match event {
                EventView::Done => match self.held.filter {
                    Some(filter) => self.ask(
                        Phase::BindingCameraParam,
                        DriverCall::BindCameraParam { filter },
                    ),
                    None => self.lost(),
                },
                _ => self.abort(event),
            },
            Phase::BindingCameraParam => match event {
                EventView::Done => self.poll(),
                _ => self.abort(event),
            },
            _ => self.abort(event),
        }
    }

    /// The step of a session that selects its color profile.
    pub open spec fn color_step(self, event: EventView) -> (SessionModel, ActionView) {
        match self.phase {
            Phase::QueryingColorProfiles => match event {
                EventView::Handle(Some(list)) => self.holding(
                    Resources { color_profiles: Some(list), ..self.held },
                ).ask(Phase::SelectingColorProfile, DriverCall::DefaultProfile { list }),
                EventView::Handle(None) => self.depth_only(),
                EventView::Failed(_) => match self.held.config {
                    Some(config) => self.ask(
                        Phase::DisablingAlignment,
                        DriverCall::SetAlignMode { config, mode: AlignMode::Disabled },
                    ),
                    None => self.lost(),
                },
                _ => self.abort(event),
            },
            Phase::DisablingAlignment => match event {
                EventView::Done => self.depth_only(),
                _ => self.abort(event),
            },
            Phase::SelectingColorProfile => match event {
                EventView::Handle(Some(profile)) => {
                    let next = SessionModel {
                        held: Resources { color_profile: Some(profile), ..self.held },
                        negotiated: Negotiation {
                            color_profile: Some(profile),
                            ..self.negotiated
                        },
                        ..self
                    };
                    match self.held.config {
                        Some(config) => next.ask(
                            Phase::EnablingColor,
                            DriverCall::EnableStream { config, profile },
                        ),
                        None => next.lost(),
                    }
                },
                EventView::Handle(None) => self.depth_only(),
                _ => self.abort(event),
            },
            Phase::EnablingColor => match event {
                EventView::Done => self.try_aligned(
                    Phase::QueryingHardwareAligned,
                    AlignMode::HardwareAligned,
                ),
                _ => self.abort(event),
            },
            _ => self.abort(event),
        }
    }

    /// The step of a session that looks for a list of depth profiles and
    /// adopts an alignment mode: hardware alignment first, then software
    /// alignment, then none.
    pub open spec fn alignment_step(self, event: EventView) -> (SessionModel, ActionView) {
        match self.phase {
            Phase::QueryingHardwareAligned => match event {
                EventView::Handle(Some(list)) => self.holding(
                    Resources { hardware_profiles: Some(list), ..self.held },
                ).count(Phase::CountingHardwareAligned, list),
                EventView::Handle(None) => self.try_aligned(
                    Phase::QueryingSoftwareAligned,
                    AlignMode::SoftwareAligned,
                ),
                _ => self.abort(event),
            },
            Phase::CountingHardwareAligned => match event {
                EventView::Number(offered) => if offered > 0 {
                    SessionModel {
                        negotiated: Negotiation {
                            hardware_aligned: offered,
                            align: AlignMode::HardwareAligned,
                            ..self.negotiated
                        },
                        ..self
                    }.select_depth()
                } else {
                    self.try_aligned(Phase::QueryingSoftwareAligned, AlignMode::SoftwareAligned)
                },
                _ => self.abort(event),
            },
            Phase::QueryingSoftwareAligned => match event {
                EventView::Handle(Some(list)) => self.holding(
                    Resources { software_profiles: Some(list), ..self.held },
                ).count(Phase::CountingSoftwareAligned, list),
                EventView::Handle(None) => self.depth_only(),
                _ => self.abort(event),
            },
            Phase::CountingSoftwareAligned => match event {
                EventView::Number(offered) => if offered > 0 {
                    SessionModel {
                        negotiated: Negotiation {
                            software_aligned: offered,
                            align: AlignMode::SoftwareAligned,
                            ..self.negotiated
                        },
                        ..self
                    }.select_depth()
                } else {
                    self.depth_only()
                },
                _ => self.abort(event),
            },
            Phase::QueryingDepthProfiles => match event {
                EventView::Handle(Some(list)) => self.holding(
                    Resources { depth_profiles: Some(list), ..self.held },
                ).count(Phase::CountingDepthProfiles, list),
                EventView::Handle(None) => self.launch(),
                _ => self.abort(event),
            },
            Phase::CountingDepthProfiles => match event {
                EventView::Number(offered) => if offered > 0 {
                    self.select_depth()
                } else {
                    self.launch()
                },
                _ => self.abort(event),
            },
            _ => self.abort(event),
        }
    }

    /// The step of a session that selects its depth profile and sets the
    /// adopted alignment mode.
    pub open spec fn depth_step(self, event: EventView) -> (SessionModel, ActionView) {
        match self.phase {
            Phase::ReadingColorRate => match event {
                EventView::Number(fps) => {
                    let next = SessionModel {
                        negotiated: Negotiation { color_rate: Some(fps), ..self.negotiated },
                        ..self
                    };
                    match self.depth_list() {
                        Some(list) => next.ask(
                            Phase::MatchingFrameRate,
                            DriverCall::MatchFrameRate { list, fps },
                        ),
                        None => next.lost(),
                    }
                },
                _ => self.abort(event),
            },
            Phase::MatchingFrameRate => match event {
                EventView::Handle(Some(profile)) => self.enable_depth(profile),
                EventView::Handle(None) => match self.depth_list() {
                    Some(list) => self.ask(
                        Phase::SelectingDefaultDepth,
                        DriverCall::DefaultProfile { list },
                    ),
                    None => self.lost(),
                },
                _ => self.abort(event),
            },
            Phase::SelectingDefaultDepth => match event {
                EventView::Handle(Some(profile)) => self.enable_depth(profile),
                EventView::Handle(None) => self.launch(),
                _ => self.abort(event),
            },
            Phase::EnablingDepth => match event {
                EventView::Done => match self.held.config {
                    Some(config) => self.ask(
                        Phase::SettingAlignment,
                        DriverCall::SetAlignMode { config, mode: self.negotiated.align },
                    ),
                    None => self.lost(),
                },
                _ => self.abort(event),
            },
            Phase::SettingAlignment => match event {
                EventView::Done => self.launch(),
                _ => self.abort(event),
            },
            _ => self.abort(event),
        }
    }

    /// The step of a session in the capture loop, up to the point where the
    /// filter has run.
    pub open spec fn capture_step(self, event: EventView) -> (SessionModel, ActionView) {
        match self.phase {
            Phase::PollingShutdown => match event {
                EventView::Signal(true) => self.drain(),
                EventView::Signal(false) => match self.held.pipeline {
                    Some(pipeline) => self.ask(
                        Phase::WaitingForFrameset,
                        DriverCall::WaitForFrameset { pipeline, timeout_ms: CAPTURE_TIMEOUT_MS },
                    ),
                    None => self.lost(),
                },
                _ => self.abort(event),
            },
            Phase::WaitingForFrameset => match event {
                EventView::Handle(Some(frameset)) => self.holding(
                    Resources { frameset: Some(frameset), ..self.held },
                ).ask(Phase::ExtractingDepth, DriverCall::DepthFrame { frameset }),
                EventView::Handle(None) => self.poll(),
                _ => self.abort(event),
            },
            Phase::ExtractingDepth => match event {
                EventView::Handle(Some(frame)) => self.holding(
                    Resources { depth_frame: Some(frame), ..self.held },
                ).ask(Phase::ReadingDepthScale, DriverCall::DepthScale { frame }),
                EventView::Handle(None) => self.discard(),
                _ => self.abort(event),
            },
            Phase::ReadingDepthScale => match event {
                EventView::Number(scale) => {
                    let next = SessionModel { scale, ..self };
                    match self.held.depth_frame {
                        Some(frame) => next.ask(
                            Phase::ReleasingDepth,
                            DriverCall::ReleaseFrame { frame },
                        ),
                        None => next.lost(),
                    }
                },
                _ => self.abort(event),
            },
            Phase::ReleasingDepth => {
                let next = self.holding(Resources { depth_frame: None, ..self.held });
                match event {
                    EventView::Done => match self.held.filter {
                        Some(filter) => next.ask(
                            Phase::SettingScale,
                            DriverCall::SetPositionScale { filter, scale: self.scale },
                        ),
                        None => next.lost(),
                    },
                    _ => next.abort(event),
                }
            },
            Phase::SettingScale => match event {
                EventView::Done => match self.held.filter {
                    Some(filter) => self.ask(
                        Phase::SettingFormat,
                        DriverCall::SetPointFormat { filter },
                    ),
                    None => self.lost(),
                },
                _ => self.abort(event),
            },
            Phase::SettingFormat => match event {
                EventView::Done => match (self.held.filter, self.held.frameset) {
                    (Some(filter), Some(frameset)) => self.ask(
                        Phase::Filtering,
                        DriverCall::Process { filter, frameset },
                    ),
                    _ => self.lost(),
                },
                _ => self.abort(event),
            },
            _ => self.abort(event),
        }
    }

    /// The step of a session that turns the result of the filter into a
    /// batch, releases the frames and publishes the batch.
    pub open spec fn batch_step(self, event: EventView) -> (SessionModel, ActionView) {
        match self.phase {
            Phase::Filtering => match event {
                EventView::Handle(Some(frame)) => self.holding(
                    Resources { points_frame: Some(frame), ..self.held },
                ).ask(Phase::ReadingPayload, DriverCall::ReadPayload { frame }),
                EventView::Handle(None) => self.discard(),
                _ => self.abort(event),
            },
            Phase::ReadingPayload => match event {
                EventView::Payload(bytes) => {
                    let next = SessionModel { batch: Some(decoded(bytes)), ..self };
                    match self.held.points_frame {
                        Some(frame) => next.ask(
                            Phase::ReleasingPoints,
                            DriverCall::ReleaseFrame { frame },
                        ),
                        None => next.lost(),
                    }
                },
                _ => self.abort(event),
            },
            Phase::ReleasingPoints => {
                let next = self.holding(Resources { points_frame: None, ..self.held });
                match event {
                    EventView::Done => next.release_frameset(),
                    _ => next.abort(event),
                }
            },
            Phase::ReleasingFrameset => {
                let next = self.holding(Resources { frameset: None, ..self.held });
                match event {
                    EventView::Done => match self.batch {
                        Some(batch) => (
                            SessionModel { phase: Phase::Publishing, batch: None, ..next },
                            ActionView::Publish(batch),
                        ),
                        None => next.poll(),
                    },
                    _ => next.abort(event),
                }
            },
            Phase::Publishing => match event {
                EventView::Done => self.poll(),
                _ => self.abort(event),
            },
            _ => self.abort(event),
        }
    }

    /// The step of a session that is being torn down: a failed release goes
    /// on record and teardown goes on.
    pub open spec fn closing_step(self, event: EventView) -> (SessionModel, ActionView) {
        if self.phase == Phase::Stopped {
            (self, ActionView::Halt)
        } else {
            match event {
                EventView::Failed(_) => self.note(self.refusal(event)).drain(),
                _ => self.drain(),
            }
        }
    }

    /// The next state and the next action of a session that receives an
    /// event.
    pub open spec fn step(self, event: EventView) -> (SessionModel, ActionView) {
        match self.phase {
            Phase::Idle => self.abort(event),
            Phase::CreatingPipeline
            | Phase::CreatingConfig
            | Phase::StartingPipeline
            | Phase::CreatingFilter
            | Phase::ReadingCameraParam
            | Phase::BindingCameraParam => self.setup_step(event),
            Phase::QueryingColorProfiles
            | Phase::DisablingAlignment
            | Phase::SelectingColorProfile
            | Phase::EnablingColor => self.color_step(event),
            Phase::QueryingHardwareAligned
            | Phase::CountingHardwareAligned
            | Phase::QueryingSoftwareAligned
            | Phase::CountingSoftwareAligned
            | Phase::QueryingDepthProfiles
            | Phase::CountingDepthProfiles => self.alignment_step(event),
            Phase::ReadingColorRate
            | Phase::MatchingFrameRate
            | Phase::SelectingDefaultDepth
            | Phase::EnablingDepth
            | Phase::SettingAlignment => self.depth_step(event),
            Phase::PollingShutdown
            | Phase::WaitingForFrameset
            | Phase::ExtractingDepth
            | Phase::ReadingDepthScale
            | Phase::ReleasingDepth
            | Phase::SettingScale
            | Phase::SettingFormat => self.capture_step(event),
            Phase::Filtering
            | Phase::ReadingPayload
            | Phase::ReleasingPoints
            | Phase::ReleasingFrameset
            | Phase::Publishing => self.batch_step(event),
            Phase::Draining | Phase::Stopped => self.closing_step(event),
        }
    }

    /// The state and the actions after a run of events, one step for each
    /// event in turn.
    pub open spec fn run(self, events: Seq<EventView>) -> (SessionModel, Seq<ActionView>)
        decreases events.len(),
    {
        if events.len() == 0 {
            (self, Seq::empty())
        } else {
            let (before, actions) = self.run(events.drop_last());
            let (after, action) = before.step(events.last());
            (after, actions.push(action))
        }
    }
}

} // verus!
