//! The capture session: the decisions of a sensor connection from setup to
//! teardown.
//!
//! [`Orbbec`] holds no device. Its caller owns the driver and the frame
//! channel, performs each [`Action`] the session names and reports the
//! outcome as an [`Event`]:
//!
//! 1. [`Orbbec::start`] names the first action;
//! 2. [`Orbbec::step`] takes the outcome of the action named last and names
//!    the next one;
//! 3. [`Action::Halt`] ends the session: everything it held is released.
//!
//! The session creates the pipeline and its configuration, negotiates the
//! stream profiles and the alignment mode, starts the pipeline and then
//! turns framesets into batches until the shutdown signal is seen. A driver
//! error ends it, after the release of what it holds.

use vstd::prelude::*;
use crate::driver::{action_views, event_views, Action, AlignMode, DriverCall, Event, Handle,
    SensorKind, CAPTURE_TIMEOUT_MS};
use crate::point::{decode_points, PointRecord};
use crate::session::{Negotiation, Phase, Resources, SessionError, SessionModel, WorkerState};
use crate::teardown::TEARDOWN_STAGES;
use crate::validity::{lemma_start_wf, lemma_step_wf, lemma_stop_wf};

verus! {

/// A capture session.
pub struct Orbbec {
    phase: Phase,
    held: Resources,
    negotiated: Negotiation,
    scale: u32,
    batch: Option<Vec<PointRecord>>,
    failure: Option<SessionError>,
    cursor: u8,
    ran: bool,
}

impl View for Orbbec {
    type V = SessionModel;

    closed spec fn view(&self) -> SessionModel {
        SessionModel {
            phase: self.phase,
            held: self.held,
            negotiated: self.negotiated,
            scale: self.scale,
            batch: match self.batch {
                Some(batch) => Some(batch@),
                None => None,
            },
            failure: self.failure,
            cursor: self.cursor as int,
            ran: self.ran,
        }
    }
}

impl Orbbec {
    /// Creates a session that holds nothing and has asked for nothing.
    pub fn new() -> (session: Orbbec)
        ensures
            session@ == SessionModel::initial(),
            session@.wf(),
    {
        Orbbec {
            phase: Phase::Idle,
            held: Resources::new(),
            negotiated: Negotiation::new(),
            scale: 0,
            batch: None,
            failure: None,
            cursor: 0,
            ran: false,
        }
    }

    /// The phase the session is in.
    pub fn phase(&self) -> (phase: Phase)
        ensures
            phase == self@.phase,
    {
        self.phase
    }

    /// The state of the worker that runs this session.
    pub fn worker_state(&self) -> (state: WorkerState)
        ensures
            state == self@.worker_state(),
    {
        match self.phase {
            Phase::Stopped => WorkerState::Stopped,
            Phase::Draining => if self.ran {
                WorkerState::Draining
            } else {
                WorkerState::Starting
            },
            Phase::PollingShutdown
            | Phase::WaitingForFrameset
            | Phase::ExtractingDepth
            | Phase::ReadingDepthScale
            | Phase::ReleasingDepth
            | Phase::SettingScale
            | Phase::SettingFormat
            | Phase::Filtering
            | Phase::ReadingPayload
            | Phase::ReleasingPoints
            | Phase::ReleasingFrameset
            | Phase::Publishing => WorkerState::Running,
            _ => WorkerState::Starting,
        }
    }

    /// Whether the session has ended.
    pub fn is_stopped(&self) -> (stopped: bool)
        ensures
            stopped == (self@.phase == Phase::Stopped),
    {
        match self.phase {
            Phase::Stopped => true,
            _ => false,
        }
    }

    /// The driver objects the session holds.
    pub fn resources(&self) -> (held: Resources)
        ensures
            held == self@.held,
    {
        self.held
    }

    /// What the session has negotiated with the device so far.
    pub fn negotiation(&self) -> (negotiated: Negotiation)
        ensures
            negotiated == self@.negotiated,
    {
        self.negotiated
    }

    /// The first failure of the session, if there was one.
    pub fn failure(&self) -> (failure: &Option<SessionError>)
        ensures
            *failure == self@.failure,
    {
        &self.failure
    }

    fn ask(&mut self, phase: Phase, call: DriverCall) -> (action: Action)
        ensures
            (final(self)@, action@) == old(self)@.ask(phase, call),
    {
        self.phase = phase;
        Action::Call(call)
    }

    fn note(&mut self, error: SessionError)
        ensures
            final(self)@ == old(self)@.note(error),
    {
        if self.failure.is_none() {
            self.failure = Some(error);
        }
    }

    fn drain(&mut self) -> (action: Action)
        ensures
            (final(self)@, action@) == old(self)@.drain(),
    {
        let from: u8 = match self.phase {
            Phase::Draining => self.cursor,
            _ => 0,
        };
        let stage: u8 = self.held.find_stage(from);
        self.batch = None;
        match self.held.release_call(stage) {
            Some(call) => {
                self.held.clear(stage);
                self.phase = Phase::Draining;
                self.cursor = stage + 1;
                Action::Call(call)
            },
            None => {
                self.held = Resources::new();
                self.phase = Phase::Stopped;
                self.cursor = TEARDOWN_STAGES;
                Action::Halt
            },
        }
    }

    fn abort(&mut self, event: Event) -> (action: Action)
        ensures
            (final(self)@, action@) == old(self)@.abort(event@),
    {
        let error = match event {
            Event::Failed(error) => SessionError::Device { phase: self.phase, error },
            _ => SessionError::Protocol { phase: self.phase },
        };
        self.note(error);
        self.drain()
    }

    fn lost(&mut self) -> (action: Action)
        ensures
            (final(self)@, action@) == old(self)@.lost(),
    {
        self.note(SessionError::Protocol { phase: self.phase });
        self.drain()
    }

    fn poll(&mut self) -> (action: Action)
        ensures
            (final(self)@, action@) == old(self)@.poll(),
    {
        self.phase = Phase::PollingShutdown;
        self.ran = true;
        Action::PollShutdown
    }
}

impl Orbbec {
    fn depth_list(&self) -> (list: Option<Handle>)
        ensures
            list == self@.depth_list(),
    {
        match self.negotiated.align {
            AlignMode::HardwareAligned => self.held.hardware_profiles,
            AlignMode::SoftwareAligned => self.held.software_profiles,
            AlignMode::Disabled => self.held.depth_profiles,
        }
    }

    fn depth_only(&mut self) -> (action: Action)
        ensures
            (final(self)@, action@) == old(self)@.depth_only(),
    {
        match self.held.pipeline {
            Some(pipeline) => self.ask(
                Phase::QueryingDepthProfiles,
                DriverCall::StreamProfiles { pipeline, sensor: SensorKind::Depth },
            ),
            None => self.lost(),
        }
    }

    fn try_aligned(&mut self, phase: Phase, mode: AlignMode) -> (action: Action)
        ensures
            (final(self)@, action@) == old(self)@.try_aligned(phase, mode),
    {
        match (self.held.pipeline, self.held.color_profile) {
            (Some(pipeline), Some(color_profile)) => self.ask(
                phase,
                DriverCall::AlignedDepthProfiles { pipeline, color_profile, mode },
            ),
            _ => self.lost(),
        }
    }

    fn select_depth(&mut self) -> (action: Action)
        ensures
            (final(self)@, action@) == old(self)@.select_depth(),
    {
        match self.depth_list() {
            Some(list) => match self.held.color_profile {
                Some(profile) => self.ask(Phase::ReadingColorRate, DriverCall::FrameRate { profile }),
                None => self.ask(Phase::SelectingDefaultDepth, DriverCall::DefaultProfile { list }),
            },
            None => self.lost(),
        }
    }

    fn enable_depth(&mut self, profile: Handle) -> (action: Action)
        ensures
            (final(self)@, action@) == old(self)@.enable_depth(profile),
    {
        let config = self.held.config;
        self.held.depth_profile = Some(profile);
        self.negotiated.depth_profile = Some(profile);
        match config {
            Some(config) => self.ask(Phase::EnablingDepth, DriverCall::EnableStream { config, profile }),
            None => self.lost(),
        }
    }

    fn launch(&mut self) -> (action: Action)
        ensures
            (final(self)@, action@) == old(self)@.launch(),
    {
        match (self.held.pipeline, self.held.config) {
            (Some(pipeline), Some(config)) => self.ask(
                Phase::StartingPipeline,
                DriverCall::StartPipeline { pipeline, config },
            ),
            _ => self.lost(),
        }
    }

    fn release_frameset(&mut self) -> (action: Action)
        ensures
            (final(self)@, action@) == old(self)@.release_frameset(),
    {
        match self.held.frameset {
            Some(frame) => self.ask(Phase::ReleasingFrameset, DriverCall::ReleaseFrame { frame }),
            None => self.lost(),
        }
    }

    fn discard(&mut self) -> (action: Action)
        ensures
            (final(self)@, action@) == old(self)@.discard(),
    {
        self.batch = None;
        self.release_frameset()
    }

    fn setup_step(&mut self, event: Event) -> (action: Action)
        ensures
            (final(self)@, action@) == old(self)@.setup_step(event@),
    {
        match self.phase {
            Phase::CreatingPipeline => match event {
                Event::Handle(Some(pipeline)) => {
                    self.held.pipeline = Some(pipeline);
                    self.ask(Phase::CreatingConfig, DriverCall::CreateConfig)
                },
                other => self.abort(other),
            },
            Phase::CreatingConfig => match event {
                Event::Handle(Some(config)) => {
                    self.held.config = Some(config);
                    match self.held.pipeline {
                        Some(pipeline) => self.ask(
                            Phase::QueryingColorProfiles,
                            DriverCall::StreamProfiles { pipeline, sensor: SensorKind::Color },
                        ),
                        None => self.lost(),
                    }
                },
                other => self.abort(other),
            },
            Phase::StartingPipeline => match event {
                Event::Done => self.ask(Phase::CreatingFilter, DriverCall::CreatePointCloudFilter),
                other => self.abort(other),
            },
            Phase::CreatingFilter => match event {
                Event::Handle(Some(filter)) => {
                    self.held.filter = Some(filter);
                    match self.held.pipeline {
                        Some(pipeline) => self.ask(
                            Phase::ReadingCameraParam,
                            DriverCall::CameraParam { pipeline },
                        ),
                        None => self.lost(),
                    }
                },
                other => self.abort(other),
            },
            Phase::ReadingCameraParam => match event {
                Event::Done => match self.held.filter {
                    Some(filter) => self.ask(
                        Phase::BindingCameraParam,
                        DriverCall::BindCameraParam { filter },
                    ),
                    None => self.lost(),
                },
                other => self.abort(other),
            },
            Phase::BindingCameraParam => match event {
                Event::Done => self.poll(),
                other => self.abort(other),
            },
            _ => self.abort(event),
        }
    }

    fn color_step(&mut self, event: Event) -> (action: Action)
        ensures
            (final(self)@, action@) == old(self)@.color_step(event@),
    {
        match self.phase {
            Phase::QueryingColorProfiles => match event {
                Event::Handle(Some(list)) => {
                    self.held.color_profiles = Some(list);
                    self.ask(Phase::SelectingColorProfile, DriverCall::DefaultProfile { list })
                },
                Event::Handle(None) => self.depth_only(),
                Event::Failed(_) => match self.held.config {
                    Some(config) => self.ask(
                        Phase::DisablingAlignment,
                        DriverCall::SetAlignMode { config, mode: AlignMode::Disabled },
                    ),
                    None => self.lost(),
                },
                other => self.abort(other),
            },
            Phase::DisablingAlignment => match event {
                Event::Done => self.depth_only(),
                other => self.abort(other),
            },
            Phase::SelectingColorProfile => match event {
                Event::Handle(Some(profile)) => {
                    let config = self.held.config;
                    self.held.color_profile = Some(profile);
                    self.negotiated.color_profile = Some(profile);
                    match config {
                        Some(config) => self.ask(
                            Phase::EnablingColor,
                            DriverCall::EnableStream { config, profile },
                        ),
                        None => self.lost(),
                    }
                },
                Event::Handle(None) => self.depth_only(),
                other => self.abort(other),
            },
            Phase::EnablingColor => match event {
                Event::Done => self.try_aligned(
                    Phase::QueryingHardwareAligned,
                    AlignMode::HardwareAligned,
                ),
                other => self.abort(other),
            },
            _ => self.abort(event),
        }
    }

    fn alignment_step(&mut self, event: Event) -> (action: Action)
        ensures
            (final(self)@, action@) == old(self)@.alignment_step(event@),
    {
        match self.phase {
            Phase::QueryingHardwareAligned => match event {
                Event::Handle(Some(list)) => {
                    self.held.hardware_profiles = Some(list);
                    self.ask(Phase::CountingHardwareAligned, DriverCall::ProfileCount { list })
                },
                Event::Handle(None) => self.try_aligned(
                    Phase::QueryingSoftwareAligned,
                    AlignMode::SoftwareAligned,
                ),
                other => self.abort(other),
            },
            Phase::CountingHardwareAligned => match event {
                Event::Number(offered) => if offered > 0 {
                    self.negotiated.hardware_aligned = offered;
                    self.negotiated.align = AlignMode::HardwareAligned;
                    self.select_depth()
                } else {
                    self.try_aligned(Phase::QueryingSoftwareAligned, AlignMode::SoftwareAligned)
                },
                other => self.abort(other),
            },
            Phase::QueryingSoftwareAligned => match event {
                Event::Handle(Some(list)) => {
                    self.held.software_profiles = Some(list);
                    self.ask(Phase::CountingSoftwareAligned, DriverCall::ProfileCount { list })
                },
                Event::Handle(None) => self.depth_only(),
                other => self.abort(other),
            },
            Phase::CountingSoftwareAligned => match event {
                Event::Number(offered) => if offered > 0 {
                    self.negotiated.software_aligned = offered;
                    self.negotiated.align = AlignMode::SoftwareAligned;
                    self.select_depth()
                } else {
                    self.depth_only()
                },
                other => self.abort(other),
            },
            Phase::QueryingDepthProfiles => match event {
                Event::Handle(Some(list)) => {
                    self.held.depth_profiles = Some(list);
                    self.ask(Phase::CountingDepthProfiles, DriverCall::ProfileCount { list })
                },
                Event::Handle(None) => self.launch(),
                other => self.abort(other),
            },
            Phase::CountingDepthProfiles => match event {
                Event::Number(offered) => if offered > 0 {
                    self.select_depth()
                } else {
                    self.launch()
                },
                other => self.abort(other),
            },
            _ => self.abort(event),
        }
    }

    fn depth_step(&mut self, event: Event) -> (action: Action)
        ensures
            (final(self)@, action@) == old(self)@.depth_step(event@),
    {
        match self.phase {
            Phase::ReadingColorRate => match event {
                Event::Number(fps) => {
                    let list = self.depth_list();
                    self.negotiated.color_rate = Some(fps);
                    match list {
                        Some(list) => self.ask(
                            Phase::MatchingFrameRate,
                            DriverCall::MatchFrameRate { list, fps },
                        ),
                        None => self.lost(),
                    }
                },
                other => self.abort(other),
            },
            Phase::MatchingFrameRate => match event {
                Event::Handle(Some(profile)) => self.enable_depth(profile),
                Event::Handle(None) => match self.depth_list() {
                    Some(list) => self.ask(
                        Phase::SelectingDefaultDepth,
                        DriverCall::DefaultProfile { list },
                    ),
                    None => self.lost(),
                },
                other => self.abort(other),
            },
            Phase::SelectingDefaultDepth => match event {
                Event::Handle(Some(profile)) => self.enable_depth(profile),
                Event::Handle(None) => self.launch(),
                other => self.abort(other),
            },
            Phase::EnablingDepth => match event {
                Event::Done => match self.held.config {
                    Some(config) => self.ask(
                        Phase::SettingAlignment,
                        DriverCall::SetAlignMode { config, mode: self.negotiated.align },
                    ),
                    None => self.lost(),
                },
                other => self.abort(other),
            },
            Phase::SettingAlignment => match event {
                Event::Done => self.launch(),
                other => self.abort(other),
            },
            _ => self.abort(event),
        }
    }

    fn capture_step(&mut self, event: Event) -> (action: Action)
        ensures
            (final(self)@, action@) == old(self)@.capture_step(event@),
    {
        match self.phase {
            Phase::PollingShutdown => match event {
                Event::Signal(true) => self.drain(),
                Event::Signal(false) => match self.held.pipeline {
                    Some(pipeline) => self.ask(
                        Phase::WaitingForFrameset,
                        DriverCall::WaitForFrameset { pipeline, timeout_ms: CAPTURE_TIMEOUT_MS },
                    ),
                    None => self.lost(),
                },
                other => self.abort(other),
            },
            Phase::WaitingForFrameset => match event {
                Event::Handle(Some(frameset)) => {
                    self.held.frameset = Some(frameset);
                    self.ask(Phase::ExtractingDepth, DriverCall::DepthFrame { frameset })
                },
                Event::Handle(None) => self.poll(),
                other => self.abort(other),
            },
            Phase::ExtractingDepth => match event {
                Event::Handle(Some(frame)) => {
                    self.held.depth_frame = Some(frame);
                    self.ask(Phase::ReadingDepthScale, DriverCall::DepthScale { frame })
                },
                Event::Handle(None) => self.discard(),
                other => self.abort(other),
            },
            Phase::ReadingDepthScale => match event {
                Event::Number(scale) => {
                    self.scale = scale;
                    match self.held.depth_frame {
                        Some(frame) => self.ask(
                            Phase::ReleasingDepth,
                            DriverCall::ReleaseFrame { frame },
                        ),
                        None => self.lost(),
                    }
                },
                other => self.abort(other),
            },
            Phase::ReleasingDepth => {
                self.held.depth_frame = None;
                match event {
                    Event::Done => match self.held.filter {
                        Some(filter) => self.ask(
                            Phase::SettingScale,
                            DriverCall::SetPositionScale { filter, scale: self.scale },
                        ),
                        None => self.lost(),
                    },
                    other => self.abort(other),
                }
            },
            Phase::SettingScale => match event {
                Event::Done => match self.held.filter {
                    Some(filter) => self.ask(
                        Phase::SettingFormat,
                        DriverCall::SetPointFormat { filter },
                    ),
                    None => self.lost(),
                },
                other => self.abort(other),
            },
            Phase::SettingFormat => match event {
                Event::Done => match (self.held.filter, self.held.frameset) {
                    (Some(filter), Some(frameset)) => self.ask(
                        Phase::Filtering,
                        DriverCall::Process { filter, frameset },
                    ),
                    _ => self.lost(),
                },
                other => self.abort(other),
            },
            _ => self.abort(event),
        }
    }

    fn batch_step(&mut self, event: Event) -> (action: Action)
        ensures
            (final(self)@, action@) == old(self)@.batch_step(event@),
    {
        match self.phase {
            Phase::Filtering => match event {
                Event::Handle(Some(frame)) => {
                    self.held.points_frame = Some(frame);
                    self.ask(Phase::ReadingPayload, DriverCall::ReadPayload { frame })
                },
                Event::Handle(None) => self.discard(),
                other => self.abort(other),
            },
            Phase::ReadingPayload => match event {
                Event::Payload(bytes) => {
                    self.batch = Some(decode_points(bytes.as_slice()));
                    match self.held.points_frame {
                        Some(frame) => self.ask(
                            Phase::ReleasingPoints,
                            DriverCall::ReleaseFrame { frame },
                        ),
                        None => self.lost(),
                    }
                },
                other => self.abort(other),
            },
            Phase::ReleasingPoints => {
                self.held.points_frame = None;
                match event {
                    Event::Done => self.release_frameset(),
                    other => self.abort(other),
                }
            },
            Phase::ReleasingFrameset => {
                self.held.frameset = None;
                match event {
                    Event::Done => match self.batch.take() {
                        Some(batch) => {
                            self.phase = Phase::Publishing;
                            Action::Publish(batch)
                        },
                        None => self.poll(),
                    },
                    other => self.abort(other),
                }
            },
            Phase::Publishing => match event {
                Event::Done => self.poll(),
                other => self.abort(other),
            },
            _ => self.abort(event),
        }
    }

    fn closing_step(&mut self, event: Event) -> (action: Action)
        ensures
            (final(self)@, action@) == old(self)@.closing_step(event@),
    {
        match self.phase {
            Phase::Stopped => Action::Halt,
            _ => match event {
                Event::Failed(error) => {
                    self.note(SessionError::Device { phase: self.phase, error });
                    self.drain()
                },
                _ => self.drain(),
            },
        }
    }

    /// Starts the session and names its first action.
    ///
    /// An idle session asks for the pipeline. A session that was started
    /// before is torn down, with a protocol failure on record; one that is
    /// closing goes on closing.
    pub fn start(&mut self) -> (action: Action)
        ensures
            (final(self)@, action@) == old(self)@.start(),
            old(self)@.wf() ==> final(self)@.wf(),
    {
        proof {
            if self@.wf() {
                lemma_start_wf(self@);
            }
        }
        match self.phase {
            Phase::Idle => self.ask(Phase::CreatingPipeline, DriverCall::CreatePipeline),
            Phase::Draining | Phase::Stopped => self.drain(),
            _ => self.lost(),
        }
    }

    /// Takes the outcome of the action named last and names the next one.
    ///
    /// The next state and the action are those of [`SessionModel::step`]. An
    /// event that reports a driver error, or that does not answer the action
    /// named last, ends the session: the failure goes on record and teardown
    /// begins. The one error that does not end it is that of the query for
    /// color profiles, which means that the device has no color sensor.
    pub fn step(&mut self, event: Event) -> (action: Action)
        ensures
            (final(self)@, action@) == old(self)@.step(event@),
            old(self)@.wf() ==> final(self)@.wf(),
    {
        proof {
            if self@.wf() {
                lemma_step_wf(self@, event@);
            }
        }
        match self.phase {
            Phase::Idle => self.abort(event),
            Phase::CreatingPipeline
            | Phase::CreatingConfig
            | Phase::StartingPipeline
            | Phase::CreatingFilter
            | Phase::ReadingCameraParam
            | Phase::BindingCameraParam => self.setup_step(event),
            Phase::QueryingColorProfiles
            | Phase::DisablingAlignment
            | Phase::SelectingColorProfile
            | Phase::EnablingColor => self.color_step(event),
            Phase::QueryingHardwareAligned
            | Phase::CountingHardwareAligned
            | Phase::QueryingSoftwareAligned
            | Phase::CountingSoftwareAligned
            | Phase::QueryingDepthProfiles
            | Phase::CountingDepthProfiles => self.alignment_step(event),
            Phase::ReadingColorRate
            | Phase::MatchingFrameRate
            | Phase::SelectingDefaultDepth
            | Phase::EnablingDepth
            | Phase::SettingAlignment => self.depth_step(event),
            Phase::PollingShutdown
            | Phase::WaitingForFrameset
            | Phase::ExtractingDepth
            | Phase::ReadingDepthScale
            | Phase::ReleasingDepth
            | Phase::SettingScale
            | Phase::SettingFormat => self.capture_step(event),
            Phase::Filtering
            | Phase::ReadingPayload
            | Phase::ReleasingPoints
            | Phase::ReleasingFrameset
            | Phase::Publishing => self.batch_step(event),
            Phase::Draining | Phase::Stopped => self.closing_step(event),
        }
    }

    /// Stops the session on behalf of its owner.
    ///
    /// The action named last is not performed. The session names the first
    /// release of its teardown, or the next one if teardown has begun, and
    /// `Halt` when it holds nothing.
    pub fn stop(&mut self) -> (action: Action)
        ensures
            (final(self)@, action@) == old(self)@.stop(),
            old(self)@.wf() ==> final(self)@.wf(),
    {
        proof {
            if self@.wf() {
                lemma_stop_wf(self@);
            }
        }
        self.drain()
    }

    /// Runs the session over a record of events: starts it, then takes the
    /// events in turn. Returns the action of the start followed by the
    /// action of each step.
    pub fn run(&mut self, events: Vec<Event>) -> (actions: Vec<Action>)
        ensures
            actions@.len() == events@.len() + 1,
            ({
                let (started, first) = old(self)@.start();
                let (finished, rest) = started.run(event_views(events@));
                final(self)@ == finished && action_views(actions@) == seq![first] + rest
            }),
            old(self)@.wf() ==> final(self)@.wf(),
    {
        let ghost before = self@;
        let ghost record = event_views(events@);
        let mut actions: Vec<Action> = Vec::new();
        let first = self.start();
        actions.push(first);
        assert(action_views(actions@) =~= seq![before.start().1] + before.start().0.run(
            record.take(0),
        ).1);
        for event in iter: events
            invariant
                iter.seq() == events@,
                record == event_views(events@),
                actions@.len() == iter.index() + 1,
                self@ == before.start().0.run(record.take(iter.index() as int)).0,
                action_views(actions@) == seq![before.start().1] + before.start().0.run(
                    record.take(iter.index() as int),
                ).1,
                before.wf() ==> self@.wf(),
        {
            let ghost index = iter.index() as int;
            let ghost actions_before = actions@;
            assert(record.take(index + 1).drop_last() =~= record.take(index));
            assert(record.take(index + 1).last() == event@);
            let action = self.step(event);
            actions.push(action);
            assert(action_views(actions@) =~= action_views(actions_before).push(action@));
            assert(action_views(actions@) =~= seq![before.start().1] + before.start().0.run(
                record.take(index + 1),
            ).1);
        }
        assert(record.take(events@.len() as int) =~= record);
        actions
    }
}

} // verus!
