//! What a capture session guarantees, proved of its transition function.

use vstd::prelude::*;
use crate::driver::{ActionView, AlignMode, DriverCall, EventView, Handle, CAPTURE_TIMEOUT_MS};
use crate::session::{preferred_alignment, Phase, Resources, SessionError, SessionModel,
    WorkerState};
use crate::teardown::{lemma_script_after_release, lemma_script_shape, lemma_script_unfold,
    TEARDOWN_STAGES};
use crate::validity::{lemma_next_stage_bounds, lemma_start_wf, lemma_step_wf};

verus! {

impl SessionModel {
    /// What is left of the teardown script: everything for a session that
    /// has not begun teardown, the stages from the cursor on for one that is
    /// draining, nothing for one that has stopped.
    pub open spec fn remaining_script(self) -> Seq<ActionView> {
        if self.phase == Phase::Stopped {
            Seq::empty()
        } else if self.phase == Phase::Draining {
            self.held.teardown_script(self.cursor)
        } else {
            self.held.teardown_script(0)
        }
    }

    /// Whether the cursor of a draining session points into the stages.
    pub open spec fn cursor_in_range(self) -> bool {
        self.phase == Phase::Draining ==> 1 <= self.cursor <= TEARDOWN_STAGES
    }
}

/// A run keeps the invariant, whatever the events.
pub proof fn lemma_run_wf(session: SessionModel, events: Seq<EventView>)
    requires
        session.wf(),
    ensures
        session.run(events).0.wf(),
        session.run(events).1.len() == events.len(),
    decreases events.len(),
{
    if events.len() > 0 {
        lemma_run_wf(session, events.drop_last());
        lemma_step_wf(session.run(events.drop_last()).0, events.last());
    }
}

/// One step of teardown asks for the first action of the remaining script
/// and leaves the rest of it.
pub proof fn lemma_drain_step(session: SessionModel)
    requires
        session.phase != Phase::Stopped,
        session.cursor_in_range(),
    ensures
        session.remaining_script().len() >= 1,
        session.drain().1 == session.remaining_script()[0],
        session.drain().0.remaining_script() == session.remaining_script().skip(1),
        session.drain().0.phase.is_closing(),
        session.drain().0.cursor_in_range(),
        session.drain().0.failure == session.failure,
{
    let from = if session.phase == Phase::Draining {
        session.cursor
    } else {
        0
    };
    let stage = session.held.next_stage(from);
    lemma_next_stage_bounds(session.held, from);
    lemma_script_unfold(session.held, from);
    if stage < TEARDOWN_STAGES {
        lemma_script_after_release(session.held, stage, stage + 1);
        assert(session.drain().0.remaining_script() =~= session.remaining_script().skip(1));
    } else {
        assert(session.drain().0.remaining_script() =~= session.remaining_script().skip(1));
    }
}

/// A draining session goes through the remaining script, one action per
/// answer and whatever the answers are, and stops with the halt.
pub proof fn lemma_draining_run(session: SessionModel, answers: Seq<EventView>)
    requires
        session.phase == Phase::Draining,
        session.cursor_in_range(),
        answers.len() <= session.remaining_script().len(),
    ensures
        session.run(answers).1 == session.remaining_script().take(answers.len() as int),
        session.run(answers).0.remaining_script() == session.remaining_script().skip(
            answers.len() as int,
        ),
        session.run(answers).0.phase.is_closing(),
        session.run(answers).0.cursor_in_range(),
    decreases answers.len(),
{
    let script = session.remaining_script();
    if answers.len() == 0 {
        assert(session.run(answers).1 =~= script.take(0));
        assert(script.skip(0) =~= script);
    } else {
        let count = answers.len() as int;
        lemma_draining_run(session, answers.drop_last());
        let (before, actions) = session.run(answers.drop_last());
        assert(before.remaining_script().len() == script.len() - (count - 1));
        assert(before.phase == Phase::Draining);
        let noted = match answers.last() {
            EventView::Failed(_) => before.note(before.refusal(answers.last())),
            _ => before,
        };
        assert(noted.remaining_script() == before.remaining_script());
        lemma_drain_step(noted);
        assert(before.step(answers.last()) == noted.drain());
        assert(script.skip(count - 1).skip(1) =~= script.skip(count));
        assert(script.take(count - 1).push(script[count - 1]) =~= script.take(count));
    }
}

/// A session that is stopped asks for the release of everything it holds
/// and of nothing else: its actions from the stop on are the teardown script
/// of what it held, one release per object in the order of the teardown
/// stages, whatever the driver answers. It ends stopped and holds nothing.
/// A poll that finds the shutdown signal up is such a stop.
pub proof fn lemma_stop_releases_everything(session: SessionModel, answers: Seq<EventView>)
    requires
        !session.phase.is_closing(),
        answers.len() + 1 == session.held.teardown_script(0).len(),
    ensures
        seq![session.stop().1] + session.stop().0.run(answers).1 == session.held.teardown_script(0),
        session.stop().0.run(answers).0.phase == Phase::Stopped,
        session.stop().0.run(answers).0.held == Resources::empty(),
        session.phase == Phase::PollingShutdown ==> session.step(EventView::Signal(true))
            == session.stop(),
{
    let script = session.held.teardown_script(0);
    let (stopping, first) = session.stop();
    lemma_drain_step(session);
    lemma_script_shape(session.held, 0);
    if stopping.phase == Phase::Stopped {
        assert(answers.len() == 0);
        assert(seq![first] + stopping.run(answers).1 =~= script);
    } else {
        lemma_draining_run(stopping, answers);
        let (stopped, rest) = stopping.run(answers);
        assert(rest =~= script.skip(1));
        assert(seq![first] + rest =~= script);
        assert(stopped.remaining_script().len() == 0);
        if stopped.phase == Phase::Draining {
            lemma_script_shape(stopped.held, stopped.cursor);
        }
        lemma_stopped_holds_nothing(stopping, answers);
    }
}

impl SessionModel {
    /// What the session holds once the action it named last is answered: a
    /// frame whose release it asked for is gone, whatever the answer.
    pub open spec fn settled(self) -> Resources {
        match self.phase {
            Phase::ReleasingPoints => self.held.without(0),
            Phase::ReleasingDepth => self.held.without(1),
            Phase::ReleasingFrameset => self.held.without(2),
            _ => self.held,
        }
    }
}

/// Every way out releases everything. Whenever an event takes a session
/// into teardown, be it a driver error, an answer that does not fit or the
/// shutdown signal, the actions of the session from that step on are the
/// teardown script of what it held, and it ends stopped and holds nothing.
pub proof fn lemma_exit_releases_everything(
    session: SessionModel,
    event: EventView,
    answers: Seq<EventView>,
)
    requires
        session.wf(),
        !session.phase.is_closing(),
        session.step(event).0.phase.is_closing(),
        answers.len() + 1 == session.settled().teardown_script(0).len(),
    ensures
        seq![session.step(event).1] + session.step(event).0.run(answers).1
            == session.settled().teardown_script(0),
        session.step(event).0.run(answers).0.phase == Phase::Stopped,
        session.step(event).0.run(answers).0.held == Resources::empty(),
{
    let settled = session.holding(session.settled());
    let failed = settled.note(settled.refusal(event));
    if session.step(event) == settled.drain() {
        lemma_stop_releases_everything(settled, answers);
    } else {
        assert(session.step(event) == failed.drain());
        lemma_stop_releases_everything(failed, answers);
    }
}

/// A session that has stopped after a run of teardown holds nothing.
proof fn lemma_stopped_holds_nothing(session: SessionModel, answers: Seq<EventView>)
    requires
        session.phase == Phase::Draining,
        session.cursor_in_range(),
        session.run(answers).0.phase == Phase::Stopped,
    ensures
        session.run(answers).0.held == Resources::empty(),
    decreases answers.len(),
{
    if answers.len() > 0 {
        let before = session.run(answers.drop_last()).0;
        if before.phase == Phase::Stopped {
            lemma_stopped_holds_nothing(session, answers.drop_last());
        } else {
            lemma_closing_stays_closing(session, answers.drop_last());
        }
    }
}

/// A session that is closing stays closing.
pub proof fn lemma_closing_stays_closing(session: SessionModel, events: Seq<EventView>)
    requires
        session.phase.is_closing(),
    ensures
        session.run(events).0.phase.is_closing(),
    decreases events.len(),
{
    if events.len() > 0 {
        lemma_closing_stays_closing(session, events.drop_last());
    }
}

/// Every state that a session reaches from its start satisfies the
/// invariant.
pub proof fn lemma_reachable_wf(events: Seq<EventView>)
    ensures
        SessionModel::initial().start().0.run(events).0.wf(),
{
    lemma_start_wf(SessionModel::initial());
    lemma_run_wf(SessionModel::initial().start().0, events);
}

/// Whatever the device answers, the alignment mode that a session has
/// adopted is hardware alignment if there is a color profile and the device
/// offered a depth profile for it, else software alignment if there is a
/// color profile and the driver offered a depth profile for it, else none.
pub proof fn lemma_negotiation_fallback(events: Seq<EventView>)
    ensures
        ({
            let negotiated = SessionModel::initial().start().0.run(events).0.negotiated;
            negotiated.align == preferred_alignment(
                negotiated.color_profile is Some,
                negotiated.hardware_aligned as nat,
                negotiated.software_aligned as nat,
            )
        }),
{
    lemma_reachable_wf(events);
}

/// The questions of the fallback rule, in order. With a color stream
/// enabled the session asks for the hardware-aligned depth profiles first.
/// It records how many the device offers; with one or more it adopts
/// hardware alignment and asks no further, with none it asks for the
/// software-aligned ones. With one or more of those it adopts software
/// alignment, with none it keeps alignment off and asks for the profiles of
/// the depth sensor. The mode it later sets on the configuration is the one
/// it adopted.
pub proof fn lemma_alignment_queries(session: SessionModel, offered: u32)
    requires
        session.wf(),
    ensures
        session.phase == Phase::EnablingColor ==> session.step(EventView::Done).1
            == ActionView::Call(
            DriverCall::AlignedDepthProfiles {
                pipeline: session.held.pipeline->0,
                color_profile: session.held.color_profile->0,
                mode: AlignMode::HardwareAligned,
            },
        ),
        session.phase == Phase::CountingHardwareAligned ==> {
            let (next, action) = session.step(EventView::Number(offered));
            &&& next.negotiated.hardware_aligned == offered
            &&& offered > 0 ==> next.negotiated.align == AlignMode::HardwareAligned && action
                == ActionView::Call(DriverCall::FrameRate { profile: session.held.color_profile->0 })
            &&& offered == 0 ==> next.negotiated.align == AlignMode::Disabled && action
                == ActionView::Call(
                DriverCall::AlignedDepthProfiles {
                    pipeline: session.held.pipeline->0,
                    color_profile: session.held.color_profile->0,
                    mode: AlignMode::SoftwareAligned,
                },
            )
        },
        session.phase == Phase::CountingSoftwareAligned ==> {
            let (next, action) = session.step(EventView::Number(offered));
            &&& next.negotiated.software_aligned == offered
            &&& next.negotiated.hardware_aligned == 0
            &&& offered > 0 ==> next.negotiated.align == AlignMode::SoftwareAligned && action
                == ActionView::Call(DriverCall::FrameRate { profile: session.held.color_profile->0 })
            &&& offered == 0 ==> next.negotiated.align == AlignMode::Disabled && action
                == ActionView::Call(
                DriverCall::StreamProfiles {
                    pipeline: session.held.pipeline->0,
                    sensor: crate::driver::SensorKind::Depth,
                },
            )
        },
        session.phase == Phase::EnablingDepth ==> session.step(EventView::Done).1
            == ActionView::Call(
            DriverCall::SetAlignMode {
                config: session.held.config->0,
                mode: session.negotiated.align,
            },
        ),
{
}

/// A device without a color sensor, or without a color profile, gets no
/// alignment: the session goes on with the profiles of the depth sensor and
/// records no failure.
pub proof fn lemma_depth_only_fallback(session: SessionModel, error: crate::driver::DeviceError)
    requires
        session.wf(),
    ensures
        session.phase == Phase::QueryingColorProfiles ==> {
            let (next, action) = session.step(EventView::Failed(error));
            &&& next.failure is None
            &&& next.negotiated.align == AlignMode::Disabled
            &&& action == ActionView::Call(
                DriverCall::SetAlignMode {
                    config: session.held.config->0,
                    mode: AlignMode::Disabled,
                },
            )
            &&& next.step(EventView::Done) == next.depth_only()
        },
        session.phase == Phase::QueryingColorProfiles || session.phase
            == Phase::SelectingColorProfile ==> {
            let (next, action) = session.step(EventView::Handle(None));
            &&& next.failure is None
            &&& next.negotiated.color_profile is None
            &&& next.negotiated.align == AlignMode::Disabled
            &&& action == ActionView::Call(
                DriverCall::StreamProfiles {
                    pipeline: session.held.pipeline->0,
                    sensor: crate::driver::SensorKind::Depth,
                },
            )
        },
{
}

/// A session that reads the frame rate of its color profile asks the list
/// of depth profiles for a profile of exactly that rate, and the profile
/// that the device answers with is the depth profile of the session: it
/// enables that stream and asks for no other profile. Only when the device
/// has no profile of that rate does the session ask for the default profile
/// of the list.
pub proof fn lemma_frame_rate_match(session: SessionModel, fps: u32, profile: Handle)
    requires
        session.wf(),
        session.phase == Phase::ReadingColorRate,
    ensures
        ({
            let (asked, query) = session.step(EventView::Number(fps));
            let (matched, enable) = asked.step(EventView::Handle(Some(profile)));
            let (unmatched, fallback) = asked.step(EventView::Handle(None));
            &&& session.depth_list() is Some
            &&& query == ActionView::Call(
                DriverCall::MatchFrameRate { list: session.depth_list()->0, fps },
            )
            &&& asked.negotiated.color_rate == Some(fps)
            &&& matched.negotiated.depth_profile == Some(profile)
            &&& matched.held.depth_profile == Some(profile)
            &&& matched.failure is None
            &&& enable == ActionView::Call(
                DriverCall::EnableStream { config: session.held.config->0, profile },
            )
            &&& unmatched.negotiated.depth_profile is None
            &&& fallback == ActionView::Call(
                DriverCall::DefaultProfile { list: session.depth_list()->0 },
            )
        }),
{
}

/// A device without any depth profile leaves the depth stream disabled: the
/// session starts the pipeline with what it has and records no failure.
pub proof fn lemma_no_depth_profile(session: SessionModel)
    requires
        session.wf(),
    ensures
        session.phase == Phase::CountingDepthProfiles ==> session.step(EventView::Number(0))
            == session.launch(),
        session.phase == Phase::QueryingDepthProfiles || session.phase
            == Phase::SelectingDefaultDepth ==> session.step(EventView::Handle(None))
            == session.launch(),
        session.phase == Phase::CountingDepthProfiles || session.phase
            == Phase::QueryingDepthProfiles || session.phase == Phase::SelectingDefaultDepth ==> {
            &&& session.launch().0.failure is None
            &&& session.launch().0.negotiated.depth_profile is None
            &&& session.launch().1 == ActionView::Call(
                DriverCall::StartPipeline {
                    pipeline: session.held.pipeline->0,
                    config: session.held.config->0,
                },
            )
        },
{
}

/// The absence of a frame is no failure. A wait that times out leads back
/// to the poll of the shutdown signal. A frameset without a depth frame, or
/// one for which the filter yields nothing, is released and leads back to
/// the poll with nothing published.
pub proof fn lemma_absent_frame_is_no_failure(session: SessionModel)
    requires
        session.wf(),
    ensures
        session.phase == Phase::WaitingForFrameset ==> {
            let (next, action) = session.step(EventView::Handle(None));
            next.failure is None && next.phase == Phase::PollingShutdown && action
                == ActionView::PollShutdown
        },
        session.phase == Phase::ExtractingDepth || session.phase == Phase::Filtering ==> {
            let (next, action) = session.step(EventView::Handle(None));
            let (after, then) = next.step(EventView::Done);
            &&& next.failure is None
            &&& action == ActionView::Call(
                DriverCall::ReleaseFrame { frame: session.held.frameset->0 },
            )
            &&& after.failure is None
            &&& after.phase == Phase::PollingShutdown
            &&& after.held.frameset is None
            &&& then == ActionView::PollShutdown
        },
{
}

/// No frame outlives its capture. Whenever a session polls the shutdown
/// signal, and whenever it publishes a batch, it holds no frameset, no depth
/// frame and no points frame.
pub proof fn lemma_frames_are_released(events: Seq<EventView>)
    ensures
        ({
            let session = SessionModel::initial().start().0.run(events).0;
            session.phase == Phase::PollingShutdown || session.phase == Phase::Publishing ==> {
                &&& session.held.frameset is None
                &&& session.held.depth_frame is None
                &&& session.held.points_frame is None
            }
        }),
{
    lemma_reachable_wf(events);
}

/// A payload becomes a batch. The session decodes the payload of the points
/// frame, releases the points frame and the frameset, and then publishes
/// exactly the decoded batch.
pub proof fn lemma_payload_is_published(session: SessionModel, bytes: Seq<u8>)
    requires
        session.wf(),
        session.phase == Phase::ReadingPayload,
    ensures
        ({
            let (decoded, first) = session.step(EventView::Payload(bytes));
            let (released, second) = decoded.step(EventView::Done);
            let (publishing, third) = released.step(EventView::Done);
            let (polling, fourth) = publishing.step(EventView::Done);
            &&& first == ActionView::Call(
                DriverCall::ReleaseFrame { frame: session.held.points_frame->0 },
            )
            &&& second == ActionView::Call(
                DriverCall::ReleaseFrame { frame: session.held.frameset->0 },
            )
            &&& third == ActionView::Publish(crate::point::decoded(bytes))
            &&& fourth == ActionView::PollShutdown
            &&& polling.failure is None
        }),
{
}

/// A failure comes from the driver or from the caller, never from the
/// session: a step records a failure only when the event reports a driver
/// error or is not an answer to the action that the session named last.
pub proof fn lemma_failures_are_reported(session: SessionModel, event: EventView)
    requires
        session.wf(),
        session.failure is None,
        session.step(event).0.failure is Some,
    ensures
        session.step(event).0.failure == Some(session.refusal(event)),
        session.step(event).0.phase.is_closing(),
        event is Failed || !session.answers(event),
{
}

impl SessionModel {
    /// Whether an event is an answer to the action that the session named
    /// last. An object that a call must produce cannot be absent; a profile,
    /// a list or a frame can.
    pub open spec fn answers(self, event: EventView) -> bool {
        match self.phase {
            Phase::Idle | Phase::Stopped => false,
            Phase::Draining => true,
            Phase::CreatingPipeline | Phase::CreatingConfig | Phase::CreatingFilter => event
                matches EventView::Handle(Some(_)),
            Phase::QueryingColorProfiles
            | Phase::SelectingColorProfile
            | Phase::QueryingHardwareAligned
            | Phase::QueryingSoftwareAligned
            | Phase::QueryingDepthProfiles
            | Phase::MatchingFrameRate
            | Phase::SelectingDefaultDepth
            | Phase::WaitingForFrameset
            | Phase::ExtractingDepth
            | Phase::Filtering => event is Handle,
            Phase::CountingHardwareAligned
            | Phase::CountingSoftwareAligned
            | Phase::CountingDepthProfiles
            | Phase::ReadingColorRate
            | Phase::ReadingDepthScale => event is Number,
            Phase::ReadingPayload => event is Payload,
            Phase::PollingShutdown => event is Signal,
            _ => event is Done,
        }
    }
}

impl SessionModel {
    /// An upper bound on the number of events after which a session of the
    /// capture loop has stopped, once the shutdown signal is up: the rest of
    /// the capture at hand, the poll, and the teardown.
    pub open spec fn shutdown_distance(self) -> nat {
        if self.phase == Phase::Stopped {
            0
        } else if self.phase == Phase::Draining {
            self.remaining_script().len()
        } else {
            self.phase.steps_to_poll() + TEARDOWN_STAGES as nat + 2
        }
    }

    /// Whether the session is in the capture loop or closing.
    pub open spec fn is_past_setup(self) -> bool {
        (self.phase.is_running() || self.phase.is_closing()) && self.cursor_in_range()
    }
}

/// Teardown asks for releases and for the stop of the pipeline, and for
/// nothing else.
pub proof fn lemma_drain_only_releases(session: SessionModel)
    ensures
        session.drain().1 is Halt || session.drain().1 is Call,
        session.drain().1 matches ActionView::Call(call) ==> call is ReleaseFrame || call
            is ReleaseFilter || call is StopPipeline || call is ReleasePipeline || call
            is ReleaseConfig || call is ReleaseProfile || call is ReleaseProfileList,
{
    let from = if session.phase == Phase::Draining {
        session.cursor
    } else {
        0
    };
    if from <= TEARDOWN_STAGES {
        lemma_next_stage_bounds(session.held, from);
    }
}

/// A session waits for a frameset only when a poll has just found the
/// shutdown signal down, and it never waits longer than the capture timeout.
pub proof fn lemma_wait_follows_poll(session: SessionModel, event: EventView)
    requires
        is_wait(session.step(event).1),
    ensures
        session.phase == Phase::PollingShutdown,
        event == EventView::Signal(false),
        session.step(event).1 == ActionView::Call(
            DriverCall::WaitForFrameset {
                pipeline: session.held.pipeline->0,
                timeout_ms: CAPTURE_TIMEOUT_MS,
            },
        ),
{
    assert forall|other: SessionModel|
        !((#[trigger] other.drain()).1 matches ActionView::Call(call) && call
            is WaitForFrameset) by {
        lemma_drain_only_releases(other);
    }
}

/// A session that begins teardown is at most one script away from its stop.
pub proof fn lemma_drain_bound(session: SessionModel)
    requires
        !session.phase.is_closing(),
    ensures
        session.drain().0.phase.is_closing(),
        session.drain().0.cursor_in_range(),
        session.drain().0.shutdown_distance() <= TEARDOWN_STAGES,
{
    lemma_drain_step(session);
    lemma_script_shape(session.held, 0);
    let after = session.drain().0;
    if after.phase == Phase::Draining {
        lemma_script_shape(after.held, after.cursor);
    }
}

/// What one step of the capture loop does to the distance to the stop.
pub open spec fn comes_closer(session: SessionModel, next: SessionModel) -> bool {
    &&& next.is_past_setup()
    &&& next.shutdown_distance() < session.shutdown_distance()
}

proof fn lemma_every_drain_comes_closer(session: SessionModel)
    requires
        session.phase.is_running(),
    ensures
        forall|other: SessionModel|
            !other.phase.is_closing() ==> comes_closer(session, (#[trigger] other.drain()).0),
{
    assert forall|other: SessionModel| !other.phase.is_closing() implies comes_closer(
        session,
        (#[trigger] other.drain()).0,
    ) by {
        lemma_drain_bound(other);
    }
}

proof fn lemma_capture_step_comes_closer(session: SessionModel, event: EventView)
    requires
        session.phase.is_running(),
        session.phase.steps_to_poll() > 5 || session.phase == Phase::PollingShutdown,
        event != EventView::Signal(false),
    ensures
        comes_closer(session, session.capture_step(event).0),
{
    lemma_every_drain_comes_closer(session);
}

proof fn lemma_batch_step_comes_closer(session: SessionModel, event: EventView)
    requires
        session.phase.is_running(),
        1 <= session.phase.steps_to_poll() <= 5,
    ensures
        comes_closer(session, session.batch_step(event).0),
{
    lemma_every_drain_comes_closer(session);
}

/// Once the shutdown signal is up, every event brings a session of the
/// capture loop closer to its stop: unless the event is a poll that found
/// the signal down, the distance to the stop goes down with the step.
pub proof fn lemma_shutdown_step(session: SessionModel, event: EventView)
    requires
        session.is_past_setup(),
        event != EventView::Signal(false),
    ensures
        session.step(event).0.is_past_setup(),
        session.phase != Phase::Stopped ==> session.step(event).0.shutdown_distance()
            < session.shutdown_distance(),
        session.phase == Phase::Stopped ==> session.step(event).0 == session,
        session.shutdown_distance() <= 26,
        session.shutdown_distance() == 0 <==> session.phase == Phase::Stopped,
{
    if session.phase == Phase::Draining {
        let noted = match event {
            EventView::Failed(_) => session.note(session.refusal(event)),
            _ => session,
        };
        lemma_drain_step(noted);
        lemma_script_shape(session.held, session.cursor);
        let after = session.step(event).0;
        if after.phase == Phase::Draining {
            lemma_script_shape(after.held, after.cursor);
        }
    } else if session.phase != Phase::Stopped {
        if session.phase.steps_to_poll() > 5 || session.phase == Phase::PollingShutdown {
            lemma_capture_step_comes_closer(session, event);
        } else {
            lemma_batch_step_comes_closer(session, event);
        }
    }
}

/// Whether an action is a wait for a frameset.
pub open spec fn is_wait(action: ActionView) -> bool {
    action matches ActionView::Call(call) && call is WaitForFrameset
}

/// A session of the capture loop whose polls find the shutdown signal up
/// stops within a bounded number of events, whatever else the driver
/// answers: after as many events as its distance to the stop, which is never
/// more than 26, it has stopped. It starts no wait for a frameset on the
/// way, so the one wait that may be under way when the signal goes up is
/// all that the stop waits for.
pub proof fn lemma_shutdown_stops_the_worker(session: SessionModel, events: Seq<EventView>)
    requires
        session.is_past_setup(),
        forall|i: int| 0 <= i < events.len() ==> events[i] != EventView::Signal(false),
    ensures
        session.run(events).0.is_past_setup(),
        session.run(events).0.shutdown_distance() + events.len() <= session.shutdown_distance()
            || session.run(events).0.phase == Phase::Stopped,
        events.len() >= session.shutdown_distance() ==> session.run(events).0.phase
            == Phase::Stopped,
        session.shutdown_distance() <= 26,
        session.run(events).1.len() == events.len(),
        forall|i: int| 0 <= i < events.len() ==> !is_wait(#[trigger] session.run(events).1[i]),
    decreases events.len(),
{
    lemma_shutdown_step(session, EventView::Done);
    if events.len() > 0 {
        let before = session.run(events.drop_last());
        lemma_shutdown_stops_the_worker(session, events.drop_last());
        lemma_shutdown_step(before.0, events.last());
        lemma_shutdown_step(session.run(events).0, EventView::Done);
        if is_wait(before.0.step(events.last()).1) {
            lemma_wait_follows_poll(before.0, events.last());
        }
        assert forall|i: int| 0 <= i < events.len() implies !is_wait(
            #[trigger] session.run(events).1[i],
        ) by {
            if i < events.len() - 1 {
                assert(session.run(events).1[i] == before.1[i]);
            }
        }
    }
}

/// A session that fails during setup never enters the capture loop: it
/// releases what it got and stops, and its worker is seen `Starting` and
/// then `Stopped`, never `Running` or `Draining`.
pub proof fn lemma_failed_start_never_runs(
    session: SessionModel,
    event: EventView,
    events: Seq<EventView>,
)
    requires
        session.wf(),
        session.phase.is_starting(),
        session.step(event).0.phase.is_closing(),
    ensures
        ({
            let after = session.step(event).0.run(events).0;
            &&& after.phase.is_closing()
            &&& !after.ran
            &&& after.worker_state() == WorkerState::Starting || after.worker_state()
                == WorkerState::Stopped
        }),
    decreases events.len(),
{
    lemma_step_wf(session, event);
    if events.len() > 0 {
        lemma_failed_start_never_runs(session, event, events.drop_last());
    }
}

} // verus!
