use std::collections::HashMap;

use orbbec_capture::{
    Action, AlignMode, DeviceError, DriverCall, Event, Handle, Negotiation, Orbbec, OrbbecRx,
    Phase, PointRecord, Resources, SensorKind, SessionError, WorkerState, CAPTURE_TIMEOUT_MS,
};

/// What one wait for a frameset yields.
#[derive(Clone, Copy, Debug, PartialEq, Eq)]
enum Capture {
    Timeout,
    NoDepth,
    NoPoints,
    Points(usize),
}

/// A driver that answers from tables and keeps books on its objects.
struct Device {
    color: Option<Vec<u32>>,
    hardware: Vec<u32>,
    software: Vec<u32>,
    depth: Vec<u32>,
    captures: Vec<Capture>,
    scale: f32,
    fail_at: Option<usize>,
    next: Handle,
    rates_of_list: HashMap<Handle, Vec<u32>>,
    rate_of_profile: HashMap<Handle, u32>,
    capture_of_frameset: HashMap<Handle, Capture>,
    payload_of_frame: HashMap<Handle, Vec<u8>>,
    live: Vec<Handle>,
    released: Vec<Handle>,
    calls: Vec<DriverCall>,
    polls: usize,
}

impl Device {
    fn new(color: Option<Vec<u32>>, hardware: Vec<u32>, software: Vec<u32>, depth: Vec<u32>) -> Device {
        Device {
            color,
            hardware,
            software,
            depth,
            captures: Vec::new(),
            scale: 1.0,
            fail_at: None,
            next: 100,
            rates_of_list: HashMap::new(),
            rate_of_profile: HashMap::new(),
            capture_of_frameset: HashMap::new(),
            payload_of_frame: HashMap::new(),
            live: Vec::new(),
            released: Vec::new(),
            calls: Vec::new(),
            polls: 0,
        }
    }

    fn with_captures(mut self, captures: &[Capture]) -> Device {
        self.captures = captures.to_vec();
        self.captures.reverse();
        self
    }

    fn failing_at(mut self, call_index: usize) -> Device {
        self.fail_at = Some(call_index);
        self
    }

    fn fresh(&mut self) -> Handle {
        self.next += 1;
        self.live.push(self.next);
        self.next
    }

    fn list(&mut self, rates: Vec<u32>) -> Event {
        let handle = self.fresh();
        self.rates_of_list.insert(handle, rates);
        Event::Handle(Some(handle))
    }

    fn profile(&mut self, rate: Option<u32>) -> Event {
        match rate {
            Some(rate) => {
                let handle = self.fresh();
                self.rate_of_profile.insert(handle, rate);
                Event::Handle(Some(handle))
            }
            None => Event::Handle(None),
        }
    }

    fn release(&mut self, handle: Handle) -> Event {
        let at = self.live.iter().position(|live| *live == handle);
        match at {
            Some(at) => {
                self.live.remove(at);
                self.released.push(handle);
                Event::Done
            }
            None => panic!("handle {} released but not live", handle),
        }
    }

    fn error(call: &DriverCall) -> DeviceError {
        DeviceError { call: format!("{:?}", call), message: "refused".to_string(), category: 3 }
    }

    fn perform(&mut self, call: DriverCall) -> Event {
        let index = self.calls.len();
        self.calls.push(call);
        if self.fail_at == Some(index) {
            return Event::Failed(Device::error(&call));
        }
        match call {
            DriverCall::CreatePipeline
            | DriverCall::CreateConfig
            | DriverCall::CreatePointCloudFilter => Event::Handle(Some(self.fresh())),
            DriverCall::StreamProfiles { sensor: SensorKind::Color, .. } => match self.color.clone() {
                Some(rates) => self.list(rates),
                None => Event::Failed(Device::error(&call)),
            },
            DriverCall::StreamProfiles { sensor: SensorKind::Depth, .. } => {
                let rates = self.depth.clone();
                self.list(rates)
            }
            DriverCall::AlignedDepthProfiles { mode, .. } => {
                let rates = match mode {
                    AlignMode::HardwareAligned => self.hardware.clone(),
                    AlignMode::SoftwareAligned => self.software.clone(),
                    AlignMode::Disabled => panic!("aligned profiles asked for without a mode"),
                };
                self.list(rates)
            }
            DriverCall::ProfileCount { list } => Event::Number(self.rates_of_list[&list].len() as u32),
            DriverCall::DefaultProfile { list } => {
                let rate = self.rates_of_list[&list].first().copied();
                self.profile(rate)
            }
            DriverCall::FrameRate { profile } => Event::Number(self.rate_of_profile[&profile]),
            DriverCall::MatchFrameRate { list, fps } => {
                let rate = self.rates_of_list[&list].iter().copied().find(|rate| *rate == fps);
                self.profile(rate)
            }
            DriverCall::EnableStream { .. }
            | DriverCall::SetAlignMode { .. }
            | DriverCall::StartPipeline { .. }
            | DriverCall::CameraParam { .. }
            | DriverCall::BindCameraParam { .. }
            | DriverCall::SetPositionScale { .. }
            | DriverCall::SetPointFormat { .. }
            | DriverCall::StopPipeline { .. } => Event::Done,
            DriverCall::WaitForFrameset { .. } => match self.captures.pop() {
                None | Some(Capture::Timeout) => Event::Handle(None),
                Some(capture) => {
                    let handle = self.fresh();
                    self.capture_of_frameset.insert(handle, capture);
                    Event::Handle(Some(handle))
                }
            },
            DriverCall::DepthFrame { frameset } => match self.capture_of_frameset[&frameset] {
                Capture::NoDepth => Event::Handle(None),
                _ => Event::Handle(Some(self.fresh())),
            },
            DriverCall::DepthScale { .. } => Event::Number(self.scale.to_bits()),
            DriverCall::Process { frameset, .. } => match self.capture_of_frameset[&frameset] {
                Capture::Points(count) => {
                    let handle = self.fresh();
                    self.payload_of_frame.insert(handle, payload(count));
                    Event::Handle(Some(handle))
                }
                _ => Event::Handle(None),
            },
            DriverCall::ReadPayload { frame } => Event::Payload(self.payload_of_frame[&frame].clone()),
            DriverCall::ReleaseFrame { frame } => self.release(frame),
            DriverCall::ReleaseFilter { filter } => self.release(filter),
            DriverCall::ReleasePipeline { pipeline } => self.release(pipeline),
            DriverCall::ReleaseConfig { config } => self.release(config),
            DriverCall::ReleaseProfile { profile } => self.release(profile),
            DriverCall::ReleaseProfileList { list } => self.release(list),
        }
    }
}

/// A payload of `count` records; record `i` has every component equal to `i`.
fn payload(count: usize) -> Vec<u8> {
    let mut bytes = Vec::new();
    for index in 0..count {
        for _ in 0..6 {
            bytes.extend_from_slice(&(index as u32).to_le_bytes());
        }
    }
    bytes
}

/// Everything that happened in one drive of a session.
struct Trace {
    actions: Vec<Action>,
    events: Vec<Event>,
    batches: Vec<Vec<PointRecord>>,
    states: Vec<WorkerState>,
}

/// Performs the actions of a session until it halts. The consumer drains the
/// channel after every publish; shutdown is asked for before the poll with
/// the given number, counted from zero.
fn drive(session: &mut Orbbec, device: &mut Device, shutdown_at_poll: usize) -> Trace {
    let mut rx = OrbbecRx::new();
    let mut trace = Trace { actions: Vec::new(), events: Vec::new(), batches: Vec::new(), states: Vec::new() };
    let mut action = session.start();
    for _ in 0..10_000 {
        trace.actions.push(action.clone());
        trace.states.push(session.worker_state());
        let event = match action {
            Action::Halt => return trace,
            Action::Call(call) => device.perform(call),
            Action::PollShutdown => {
                if device.polls == shutdown_at_poll {
                    rx.request_shutdown();
                }
                device.polls += 1;
                Event::Signal(rx.shutdown_requested())
            }
            Action::Publish(batch) => {
                assert_eq!(rx.publish(batch), Ok(()));
                if let Some(batch) = rx.try_get_data() {
                    trace.batches.push(batch);
                }
                Event::Done
            }
        };
        trace.events.push(event.clone());
        action = session.step(event);
    }
    panic!("the session did not halt");
}

fn calls(trace: &Trace) -> Vec<DriverCall> {
    trace
        .actions
        .iter()
        .filter_map(|action| match action {
            Action::Call(call) => Some(*call),
            _ => None,
        })
        .collect()
}

fn align_set(trace: &Trace) -> Vec<AlignMode> {
    calls(trace)
        .iter()
        .filter_map(|call| match call {
            DriverCall::SetAlignMode { mode, .. } => Some(*mode),
            _ => None,
        })
        .collect()
}

fn negotiate(color: Option<Vec<u32>>, hardware: Vec<u32>, software: Vec<u32>, depth: Vec<u32>) -> (Negotiation, Device, Trace) {
    let mut device = Device::new(color, hardware, software, depth);
    let mut session = Orbbec::new();
    let trace = drive(&mut session, &mut device, 0);
    assert_eq!(session.failure(), &None);
    (session.negotiation(), device, trace)
}

#[test]
fn new_session_is_idle_and_holds_nothing() {
    let session = Orbbec::new();
    assert_eq!(session.phase(), Phase::Idle);
    assert_eq!(session.worker_state(), WorkerState::Starting);
    assert!(!session.is_stopped());
    assert_eq!(session.failure(), &None);
    let held = session.resources();
    assert_eq!(
        held,
        Resources {
            pipeline: None,
            config: None,
            color_profiles: None,
            color_profile: None,
            hardware_profiles: None,
            software_profiles: None,
            depth_profiles: None,
            depth_profile: None,
            filter: None,
            frameset: None,
            depth_frame: None,
            points_frame: None,
        }
    );
    assert_eq!(
        session.negotiation(),
        Negotiation {
            color_profile: None,
            depth_profile: None,
            align: AlignMode::Disabled,
            color_rate: None,
            hardware_aligned: 0,
            software_aligned: 0,
        }
    );
}

#[test]
fn capture_timeout_is_100_ms() {
    assert_eq!(CAPTURE_TIMEOUT_MS, 100);
}

#[test]
fn hardware_alignment_is_preferred() {
    let (negotiated, _, trace) = negotiate(Some(vec![30]), vec![30], vec![30], vec![30]);
    assert_eq!(negotiated.align, AlignMode::HardwareAligned);
    assert_eq!(negotiated.hardware_aligned, 1);
    assert_eq!(negotiated.software_aligned, 0);
    assert_eq!(align_set(&trace), vec![AlignMode::HardwareAligned]);
}

#[test]
fn hardware_alignment_without_software_profiles() {
    let (negotiated, _, trace) = negotiate(Some(vec![30]), vec![15, 30], vec![], vec![30]);
    assert_eq!(negotiated.align, AlignMode::HardwareAligned);
    assert_eq!(negotiated.hardware_aligned, 2);
    assert_eq!(align_set(&trace), vec![AlignMode::HardwareAligned]);
}

#[test]
fn software_alignment_is_the_second_choice() {
    let (negotiated, _, trace) = negotiate(Some(vec![30]), vec![], vec![30, 60, 90], vec![30]);
    assert_eq!(negotiated.align, AlignMode::SoftwareAligned);
    assert_eq!(negotiated.hardware_aligned, 0);
    assert_eq!(negotiated.software_aligned, 3);
    assert_eq!(align_set(&trace), vec![AlignMode::SoftwareAligned]);
}

#[test]
fn no_aligned_profiles_disable_alignment() {
    let (negotiated, device, trace) = negotiate(Some(vec![30]), vec![], vec![], vec![30]);
    assert_eq!(negotiated.align, AlignMode::Disabled);
    assert_eq!(align_set(&trace), vec![AlignMode::Disabled]);
    assert!(negotiated.color_profile.is_some());
    let depth = negotiated.depth_profile.expect("a depth profile of the depth sensor");
    assert_eq!(device.rate_of_profile[&depth], 30);
    assert!(calls(&trace)
        .iter()
        .any(|call| matches!(call, DriverCall::StreamProfiles { sensor: SensorKind::Depth, .. })));
}

#[test]
fn no_color_sensor_disables_alignment_whatever_is_offered() {
    for hardware in [vec![], vec![30]] {
        for software in [vec![], vec![30]] {
            let (negotiated, _, trace) = negotiate(None, hardware.clone(), software.clone(), vec![30]);
            assert_eq!(negotiated.align, AlignMode::Disabled);
            assert_eq!(negotiated.color_profile, None);
            assert!(negotiated.depth_profile.is_some());
            assert_eq!(align_set(&trace), vec![AlignMode::Disabled, AlignMode::Disabled]);
            assert!(!calls(&trace)
                .iter()
                .any(|call| matches!(call, DriverCall::AlignedDepthProfiles { .. })));
        }
    }
}

#[test]
fn empty_color_list_disables_alignment_whatever_is_offered() {
    for hardware in [vec![], vec![30]] {
        for software in [vec![], vec![30]] {
            let (negotiated, _, trace) = negotiate(Some(vec![]), hardware.clone(), software.clone(), vec![30]);
            assert_eq!(negotiated.align, AlignMode::Disabled);
            assert_eq!(negotiated.color_profile, None);
            assert_eq!(align_set(&trace), vec![AlignMode::Disabled]);
        }
    }
}

#[test]
fn alignment_follows_the_priority_in_every_combination() {
    for color in [false, true] {
        for hardware in [false, true] {
            for software in [false, true] {
                let (negotiated, _, _) = negotiate(
                    if color { Some(vec![30]) } else { None },
                    if hardware { vec![30] } else { vec![] },
                    if software { vec![30] } else { vec![] },
                    vec![30],
                );
                let expected = if color && hardware {
                    AlignMode::HardwareAligned
                } else if color && software {
                    AlignMode::SoftwareAligned
                } else {
                    AlignMode::Disabled
                };
                assert_eq!(negotiated.align, expected, "color {} hardware {} software {}", color, hardware, software);
            }
        }
    }
}

#[test]
fn software_list_is_asked_for_only_after_an_empty_hardware_list() {
    let asked = |trace: &Trace| -> Vec<AlignMode> {
        calls(trace)
            .iter()
            .filter_map(|call| match call {
                DriverCall::AlignedDepthProfiles { mode, .. } => Some(*mode),
                _ => None,
            })
            .collect()
    };
    let (_, _, trace) = negotiate(Some(vec![30]), vec![30], vec![30], vec![30]);
    assert_eq!(asked(&trace), vec![AlignMode::HardwareAligned]);
    let (_, _, trace) = negotiate(Some(vec![30]), vec![], vec![30], vec![30]);
    assert_eq!(asked(&trace), vec![AlignMode::HardwareAligned, AlignMode::SoftwareAligned]);
}

#[test]
fn depth_profile_matches_the_color_frame_rate() {
    let (negotiated, device, trace) = negotiate(Some(vec![30, 15]), vec![15, 60, 30, 5], vec![], vec![]);
    let color = negotiated.color_profile.expect("a color profile");
    let depth = negotiated.depth_profile.expect("a depth profile");
    assert_eq!(device.rate_of_profile[&color], 30);
    assert_eq!(negotiated.color_rate, Some(30));
    assert_eq!(device.rate_of_profile[&depth], 30);
    assert!(calls(&trace)
        .iter()
        .any(|call| matches!(call, DriverCall::MatchFrameRate { fps: 30, .. })));
    assert!(!calls(&trace).iter().any(|call| matches!(
        call,
        DriverCall::DefaultProfile { list } if device.rates_of_list[list] == vec![15, 60, 30, 5]
    )));
}

#[test]
fn depth_profile_matches_the_color_frame_rate_under_software_alignment() {
    let (negotiated, device, _) = negotiate(Some(vec![60]), vec![], vec![30, 60], vec![30]);
    assert_eq!(negotiated.align, AlignMode::SoftwareAligned);
    let depth = negotiated.depth_profile.expect("a depth profile");
    assert_eq!(device.rate_of_profile[&depth], 60);
}

#[test]
fn default_depth_profile_when_no_rate_matches() {
    let (negotiated, device, trace) = negotiate(Some(vec![30]), vec![15, 60], vec![], vec![]);
    assert_eq!(negotiated.align, AlignMode::HardwareAligned);
    let depth = negotiated.depth_profile.expect("the default depth profile");
    assert_eq!(device.rate_of_profile[&depth], 15);
    let asked: Vec<DriverCall> = calls(&trace)
        .into_iter()
        .filter(|call| matches!(call, DriverCall::MatchFrameRate { .. } | DriverCall::DefaultProfile { .. }))
        .collect();
    assert_eq!(asked.len(), 3);
    assert!(matches!(asked[0], DriverCall::DefaultProfile { .. }));
    assert!(matches!(asked[1], DriverCall::MatchFrameRate { fps: 30, .. }));
    assert!(matches!(asked[2], DriverCall::DefaultProfile { .. }));
}

#[test]
fn depth_only_device_takes_the_default_depth_profile() {
    let (negotiated, device, trace) = negotiate(None, vec![], vec![], vec![90, 30]);
    let depth = negotiated.depth_profile.expect("the default depth profile");
    assert_eq!(device.rate_of_profile[&depth], 90);
    assert_eq!(negotiated.color_rate, None);
    assert!(!calls(&trace).iter().any(|call| matches!(call, DriverCall::MatchFrameRate { .. })));
}

#[test]
fn no_depth_profile_leaves_the_depth_stream_disabled() {
    let (negotiated, _, trace) = negotiate(Some(vec![30]), vec![], vec![], vec![]);
    assert_eq!(negotiated.depth_profile, None);
    assert_eq!(negotiated.align, AlignMode::Disabled);
    assert_eq!(align_set(&trace), vec![]);
    let enabled = calls(&trace)
        .iter()
        .filter(|call| matches!(call, DriverCall::EnableStream { .. }))
        .count();
    assert_eq!(enabled, 1);
    assert!(calls(&trace).iter().any(|call| matches!(call, DriverCall::StartPipeline { .. })));
}

#[test]
fn start_asks_for_everything_in_order() {
    let mut device = Device::new(Some(vec![30]), vec![30], vec![], vec![]);
    let mut session = Orbbec::new();
    let trace = drive(&mut session, &mut device, 0);
    let expected = vec![
        Action::Call(DriverCall::CreatePipeline),
        Action::Call(DriverCall::CreateConfig),
        Action::Call(DriverCall::StreamProfiles { pipeline: 101, sensor: SensorKind::Color }),
        Action::Call(DriverCall::DefaultProfile { list: 103 }),
        Action::Call(DriverCall::EnableStream { config: 102, profile: 104 }),
        Action::Call(DriverCall::AlignedDepthProfiles {
            pipeline: 101,
            color_profile: 104,
            mode: AlignMode::HardwareAligned,
        }),
        Action::Call(DriverCall::ProfileCount { list: 105 }),
        Action::Call(DriverCall::FrameRate { profile: 104 }),
        Action::Call(DriverCall::MatchFrameRate { list: 105, fps: 30 }),
        Action::Call(DriverCall::EnableStream { config: 102, profile: 106 }),
        Action::Call(DriverCall::SetAlignMode { config: 102, mode: AlignMode::HardwareAligned }),
        Action::Call(DriverCall::StartPipeline { pipeline: 101, config: 102 }),
        Action::Call(DriverCall::CreatePointCloudFilter),
        Action::Call(DriverCall::CameraParam { pipeline: 101 }),
        Action::Call(DriverCall::BindCameraParam { filter: 107 }),
        Action::PollShutdown,
        Action::Call(DriverCall::ReleaseFilter { filter: 107 }),
        Action::Call(DriverCall::StopPipeline { pipeline: 101 }),
        Action::Call(DriverCall::ReleasePipeline { pipeline: 101 }),
        Action::Call(DriverCall::ReleaseConfig { config: 102 }),
        Action::Call(DriverCall::ReleaseProfile { profile: 106 }),
        Action::Call(DriverCall::ReleaseProfile { profile: 104 }),
        Action::Call(DriverCall::ReleaseProfileList { list: 103 }),
        Action::Call(DriverCall::ReleaseProfileList { list: 105 }),
        Action::Halt,
    ];
    assert_eq!(trace.actions, expected);
    assert!(session.is_stopped());
    assert_eq!(session.failure(), &None);
}

#[test]
fn one_capture_asks_for_everything_in_order() {
    let mut device = Device::new(None, vec![], vec![], vec![30]).with_captures(&[Capture::Points(2)]);
    device.scale = 0.5;
    let mut session = Orbbec::new();
    let trace = drive(&mut session, &mut device, 1);
    let first_poll = trace.actions.iter().position(|action| *action == Action::PollShutdown).unwrap();
    let capture: Vec<Action> = trace.actions[first_poll..first_poll + 13].to_vec();
    let pipeline = 101;
    let filter = 105;
    let batch = vec![
        PointRecord { x: 0, y: 0, z: 0, r: 0, g: 0, b: 0 },
        PointRecord { x: 1, y: 1, z: 1, r: 1, g: 1, b: 1 },
    ];
    let expected = vec![
        Action::PollShutdown,
        Action::Call(DriverCall::WaitForFrameset { pipeline, timeout_ms: 100 }),
        Action::Call(DriverCall::DepthFrame { frameset: 106 }),
        Action::Call(DriverCall::DepthScale { frame: 107 }),
        Action::Call(DriverCall::ReleaseFrame { frame: 107 }),
        Action::Call(DriverCall::SetPositionScale { filter, scale: 0.5f32.to_bits() }),
        Action::Call(DriverCall::SetPointFormat { filter }),
        Action::Call(DriverCall::Process { filter, frameset: 106 }),
        Action::Call(DriverCall::ReadPayload { frame: 108 }),
        Action::Call(DriverCall::ReleaseFrame { frame: 108 }),
        Action::Call(DriverCall::ReleaseFrame { frame: 106 }),
        Action::Publish(batch.clone()),
        Action::PollShutdown,
    ];
    assert_eq!(capture, expected);
    assert_eq!(trace.batches, vec![batch]);
}

#[test]
fn stop_releases_every_handle_once_in_order() {
    let mut device = Device::new(Some(vec![30]), vec![], vec![30], vec![]).with_captures(&[Capture::Points(1)]);
    let mut session = Orbbec::new();
    let trace = drive(&mut session, &mut device, 1);
    assert!(session.is_stopped());
    assert_eq!(device.live, Vec::<Handle>::new());
    let mut once = device.released.clone();
    once.sort();
    once.dedup();
    assert_eq!(once.len(), device.released.len());
    assert_eq!(device.released.len(), (device.next - 100) as usize);
    let teardown: Vec<DriverCall> = calls(&trace).into_iter().rev().take(9).rev().collect();
    let held_before = trace
        .actions
        .iter()
        .rev()
        .take(10)
        .rev()
        .cloned()
        .collect::<Vec<Action>>();
    assert_eq!(held_before.last(), Some(&Action::Halt));
    assert!(matches!(teardown[0], DriverCall::ReleaseFilter { .. }));
    assert!(matches!(teardown[1], DriverCall::StopPipeline { pipeline: 101 }));
    assert!(matches!(teardown[2], DriverCall::ReleasePipeline { pipeline: 101 }));
    assert!(matches!(teardown[3], DriverCall::ReleaseConfig { config: 102 }));
    let negotiated = session.negotiation();
    assert_eq!(teardown[4], DriverCall::ReleaseProfile { profile: negotiated.depth_profile.unwrap() });
    assert_eq!(teardown[5], DriverCall::ReleaseProfile { profile: negotiated.color_profile.unwrap() });
    assert_eq!(teardown[6], DriverCall::ReleaseProfileList { list: 103 });
    assert_eq!(teardown[7], DriverCall::ReleaseProfileList { list: 105 });
    assert_eq!(teardown[8], DriverCall::ReleaseProfileList { list: 106 });
    assert_eq!(device.rates_of_list[&105], Vec::<u32>::new());
    assert_eq!(device.rates_of_list[&106], vec![30]);
    assert_eq!(session.resources().pipeline, None);
    assert_eq!(session.resources().filter, None);
}

#[test]
fn superseded_lists_are_released_too() {
    let mut device = Device::new(Some(vec![30]), vec![], vec![], vec![30]);
    let mut session = Orbbec::new();
    let trace = drive(&mut session, &mut device, 0);
    let lists = calls(&trace)
        .iter()
        .filter(|call| matches!(call, DriverCall::ReleaseProfileList { .. }))
        .count();
    assert_eq!(lists, 4);
    assert_eq!(device.live, Vec::<Handle>::new());
}

#[test]
fn owner_stop_during_setup_releases_what_was_acquired() {
    let mut device = Device::new(Some(vec![30]), vec![30], vec![], vec![]);
    let mut session = Orbbec::new();
    let mut action = session.start();
    for _ in 0..5 {
        let event = match action {
            Action::Call(call) => device.perform(call),
            _ => unreachable!(),
        };
        action = session.step(event);
    }
    assert_eq!(session.phase(), Phase::QueryingHardwareAligned);
    let mut action = session.stop();
    let mut released = Vec::new();
    while action != Action::Halt {
        let event = match action {
            Action::Call(call) => {
                released.push(call);
                device.perform(call)
            }
            _ => unreachable!(),
        };
        action = session.step(event);
    }
    assert_eq!(
        released,
        vec![
            DriverCall::StopPipeline { pipeline: 101 },
            DriverCall::ReleasePipeline { pipeline: 101 },
            DriverCall::ReleaseConfig { config: 102 },
            DriverCall::ReleaseProfile { profile: 104 },
            DriverCall::ReleaseProfileList { list: 103 },
        ]
    );
    assert_eq!(device.live, Vec::<Handle>::new());
    assert!(session.is_stopped());
    assert_eq!(session.failure(), &None);
    assert_eq!(session.worker_state(), WorkerState::Stopped);
    assert_eq!(session.stop(), Action::Halt);
    assert_eq!(session.step(Event::Done), Action::Halt);
}

#[test]
fn stop_of_an_idle_session_halts_at_once() {
    let mut session = Orbbec::new();
    assert_eq!(session.stop(), Action::Halt);
    assert!(session.is_stopped());
    assert_eq!(session.failure(), &None);
}

#[test]
fn driver_error_during_setup_ends_the_session_without_running() {
    for failing in 0..15 {
        let mut device = Device::new(Some(vec![30]), vec![30], vec![], vec![]).failing_at(failing);
        let mut session = Orbbec::new();
        let trace = drive(&mut session, &mut device, 5);
        assert!(session.is_stopped());
        assert_eq!(device.live, Vec::<Handle>::new(), "call {} failed", failing);
        if failing == 2 {
            assert_eq!(session.failure(), &None);
            assert_eq!(session.negotiation().color_profile, None);
            assert!(trace.states.contains(&WorkerState::Running));
        } else {
            assert!(!trace.states.contains(&WorkerState::Running));
            assert!(!trace.states.contains(&WorkerState::Draining));
            assert!(!trace.actions.contains(&Action::PollShutdown));
            match session.failure() {
                Some(SessionError::Device { error, .. }) => {
                    assert_eq!(error, &Device::error(&device.calls[failing]));
                }
                other => panic!("call {} failed but the session recorded {:?}", failing, other),
            }
        }
    }
}

#[test]
fn failure_names_the_phase_and_the_error() {
    let mut device = Device::new(Some(vec![30]), vec![30], vec![], vec![]).failing_at(11);
    let mut session = Orbbec::new();
    drive(&mut session, &mut device, 5);
    assert_eq!(
        session.failure(),
        &Some(SessionError::Device {
            phase: Phase::StartingPipeline,
            error: DeviceError {
                call: "StartPipeline { pipeline: 101, config: 102 }".to_string(),
                message: "refused".to_string(),
                category: 3,
            },
        })
    );
}

#[test]
fn driver_error_during_capture_ends_the_worker_after_teardown() {
    for failing in 15..25 {
        let mut device = Device::new(Some(vec![30]), vec![30], vec![], vec![])
            .with_captures(&[Capture::Points(3), Capture::Points(3)])
            .failing_at(failing);
        let mut session = Orbbec::new();
        let trace = drive(&mut session, &mut device, 5);
        assert!(session.is_stopped());
        let unreleased = match device.calls[failing] {
            DriverCall::ReleaseFrame { frame } => vec![frame],
            _ => Vec::new(),
        };
        assert_eq!(device.live, unreleased, "call {} failed", failing);
        assert!(matches!(session.failure(), Some(SessionError::Device { .. })));
        assert!(trace.states.contains(&WorkerState::Running));
        assert!(trace.states.contains(&WorkerState::Draining));
        assert_eq!(trace.states.last(), Some(&WorkerState::Stopped));
        assert!(trace.batches.len() <= 1);
    }
}

#[test]
fn failed_release_is_not_asked_for_again() {
    let mut device = Device::new(None, vec![], vec![], vec![30])
        .with_captures(&[Capture::Points(1)])
        .failing_at(16);
    let mut session = Orbbec::new();
    let trace = drive(&mut session, &mut device, 5);
    assert_eq!(device.calls[16], DriverCall::ReleaseFrame { frame: 107 });
    let again = calls(&trace)
        .iter()
        .filter(|call| **call == DriverCall::ReleaseFrame { frame: 107 })
        .count();
    assert_eq!(again, 1);
    assert_eq!(device.live, vec![107]);
    assert!(matches!(
        session.failure(),
        Some(SessionError::Device { phase: Phase::ReleasingDepth, .. })
    ));
}

#[test]
fn failure_during_teardown_is_recorded_and_teardown_goes_on() {
    let mut device = Device::new(None, vec![], vec![], vec![30]).failing_at(14);
    let mut session = Orbbec::new();
    let trace = drive(&mut session, &mut device, 0);
    assert_eq!(device.calls[14], DriverCall::StopPipeline { pipeline: 101 });
    assert!(matches!(
        session.failure(),
        Some(SessionError::Device { phase: Phase::Draining, .. })
    ));
    assert_eq!(trace.actions.last(), Some(&Action::Halt));
    assert_eq!(device.live, Vec::<Handle>::new());
}

#[test]
fn first_failure_stays_on_record() {
    let mut session = Orbbec::new();
    assert_eq!(session.start(), Action::Call(DriverCall::CreatePipeline));
    assert_eq!(session.step(Event::Handle(Some(1))), Action::Call(DriverCall::CreateConfig));
    let first = DeviceError { call: "create config".to_string(), message: "first".to_string(), category: 1 };
    let second = DeviceError { call: "stop".to_string(), message: "second".to_string(), category: 2 };
    assert_eq!(
        session.step(Event::Failed(first.clone())),
        Action::Call(DriverCall::StopPipeline { pipeline: 1 })
    );
    assert_eq!(
        session.step(Event::Failed(second)),
        Action::Call(DriverCall::ReleasePipeline { pipeline: 1 })
    );
    assert_eq!(session.step(Event::Done), Action::Halt);
    assert_eq!(
        session.failure(),
        &Some(SessionError::Device { phase: Phase::CreatingConfig, error: first })
    );
}

#[test]
fn event_before_start_is_a_protocol_failure() {
    let mut session = Orbbec::new();
    assert_eq!(session.step(Event::Done), Action::Halt);
    assert!(session.is_stopped());
    assert_eq!(session.failure(), &Some(SessionError::Protocol { phase: Phase::Idle }));
}

#[test]
fn answer_of_the_wrong_kind_is_a_protocol_failure() {
    let mut session = Orbbec::new();
    session.start();
    session.step(Event::Handle(Some(1)));
    assert_eq!(
        session.step(Event::Number(4)),
        Action::Call(DriverCall::StopPipeline { pipeline: 1 })
    );
    assert_eq!(session.phase(), Phase::Draining);
    assert_eq!(session.worker_state(), WorkerState::Starting);
    assert_eq!(session.failure(), &Some(SessionError::Protocol { phase: Phase::CreatingConfig }));
}

#[test]
fn absent_pipeline_is_a_protocol_failure() {
    let mut session = Orbbec::new();
    session.start();
    assert_eq!(session.step(Event::Handle(None)), Action::Halt);
    assert_eq!(session.failure(), &Some(SessionError::Protocol { phase: Phase::CreatingPipeline }));
}

#[test]
fn second_start_is_a_protocol_failure() {
    let mut session = Orbbec::new();
    session.start();
    session.step(Event::Handle(Some(9)));
    assert_eq!(session.start(), Action::Call(DriverCall::StopPipeline { pipeline: 9 }));
    assert_eq!(session.failure(), &Some(SessionError::Protocol { phase: Phase::CreatingConfig }));
}

#[test]
fn timeouts_and_missing_depth_do_not_stop_the_loop() {
    let mut device = Device::new(Some(vec![30]), vec![30], vec![], vec![]).with_captures(&[
        Capture::Timeout,
        Capture::NoDepth,
        Capture::Timeout,
        Capture::NoPoints,
        Capture::Points(4),
    ]);
    let mut session = Orbbec::new();
    let trace = drive(&mut session, &mut device, 5);
    assert_eq!(session.failure(), &None);
    assert_eq!(trace.batches.len(), 1);
    assert_eq!(trace.batches[0].len(), 4);
    let waits = calls(&trace)
        .iter()
        .filter(|call| matches!(call, DriverCall::WaitForFrameset { timeout_ms: 100, .. }))
        .count();
    assert_eq!(waits, 5);
    assert_eq!(device.live, Vec::<Handle>::new());
}

#[test]
fn discarded_frameset_is_released_before_the_next_poll() {
    let mut device = Device::new(None, vec![], vec![], vec![30]).with_captures(&[Capture::NoDepth]);
    let mut session = Orbbec::new();
    let trace = drive(&mut session, &mut device, 1);
    let wait = trace
        .actions
        .iter()
        .position(|action| matches!(action, Action::Call(DriverCall::WaitForFrameset { .. })))
        .unwrap();
    assert_eq!(
        trace.actions[wait + 1..wait + 4].to_vec(),
        vec![
            Action::Call(DriverCall::DepthFrame { frameset: 106 }),
            Action::Call(DriverCall::ReleaseFrame { frame: 106 }),
            Action::PollShutdown,
        ]
    );
    assert_eq!(trace.batches, Vec::<Vec<PointRecord>>::new());
}

#[test]
fn empty_points_frame_is_published_as_an_empty_batch() {
    let mut device = Device::new(None, vec![], vec![], vec![30]).with_captures(&[Capture::Points(0)]);
    let mut session = Orbbec::new();
    let trace = drive(&mut session, &mut device, 1);
    assert_eq!(trace.batches, vec![Vec::<PointRecord>::new()]);
}

#[test]
fn depth_scale_of_the_frameset_is_handed_to_the_filter() {
    let mut device = Device::new(None, vec![], vec![], vec![30]).with_captures(&[Capture::Points(1)]);
    device.scale = 0.125;
    let mut session = Orbbec::new();
    let trace = drive(&mut session, &mut device, 1);
    let scales: Vec<u32> = calls(&trace)
        .iter()
        .filter_map(|call| match call {
            DriverCall::SetPositionScale { scale, .. } => Some(*scale),
            _ => None,
        })
        .collect();
    assert_eq!(scales, vec![0.125f32.to_bits()]);
    assert_eq!(f32::from_bits(scales[0]), 0.125);
}

#[test]
fn shutdown_signal_stops_the_worker_within_one_iteration() {
    let mut device = Device::new(Some(vec![30]), vec![30], vec![], vec![])
        .with_captures(&[Capture::Points(5), Capture::Points(5), Capture::Points(5)]);
    let mut session = Orbbec::new();
    let trace = drive(&mut session, &mut device, 2);
    let polls: Vec<usize> = trace
        .actions
        .iter()
        .enumerate()
        .filter(|(_, action)| **action == Action::PollShutdown)
        .map(|(at, _)| at)
        .collect();
    assert_eq!(polls.len(), 3);
    let after_signal = &trace.actions[polls[2] + 1..];
    assert!(after_signal.len() <= 26);
    assert!(!after_signal
        .iter()
        .any(|action| matches!(action, Action::Call(DriverCall::WaitForFrameset { .. }))));
    assert_eq!(after_signal.last(), Some(&Action::Halt));
    assert_eq!(trace.batches.len(), 2);
    assert_eq!(session.worker_state(), WorkerState::Stopped);
    assert_eq!(trace.states[polls[2] + 1], WorkerState::Draining);
}

#[test]
fn worker_goes_through_its_states_in_order() {
    let mut device = Device::new(Some(vec![30]), vec![30], vec![], vec![]).with_captures(&[Capture::Points(1)]);
    let mut session = Orbbec::new();
    let mut trace = drive(&mut session, &mut device, 1);
    trace.states.push(session.worker_state());
    trace.states.dedup();
    assert_eq!(
        trace.states,
        vec![WorkerState::Starting, WorkerState::Running, WorkerState::Draining, WorkerState::Stopped]
    );
}

#[test]
fn end_to_end_two_batches_in_order() {
    let mut device = Device::new(Some(vec![30]), vec![30], vec![], vec![])
        .with_captures(&[Capture::Points(100), Capture::NoDepth, Capture::Points(50)]);
    let mut session = Orbbec::new();
    let trace = drive(&mut session, &mut device, 3);
    let negotiated = session.negotiation();
    assert_eq!(negotiated.align, AlignMode::HardwareAligned);
    let depth = negotiated.depth_profile.expect("the hardware-aligned depth profile");
    assert_eq!(device.rate_of_profile[&depth], 30);
    assert_eq!(device.rates_of_list[&105], vec![30]);
    let sizes: Vec<usize> = trace.batches.iter().map(|batch| batch.len()).collect();
    assert_eq!(sizes, vec![100, 50]);
    assert_eq!(trace.batches[0][99], PointRecord { x: 99, y: 99, z: 99, r: 99, g: 99, b: 99 });
    assert_eq!(trace.batches[1][49], PointRecord { x: 49, y: 49, z: 49, r: 49, g: 49, b: 49 });
    assert_eq!(session.failure(), &None);
    assert!(session.is_stopped());
    assert_eq!(device.live, Vec::<Handle>::new());
}

#[test]
fn run_replays_a_recorded_session() {
    let mut device = Device::new(Some(vec![30]), vec![], vec![60, 30], vec![])
        .with_captures(&[Capture::Points(2), Capture::Timeout, Capture::NoDepth]);
    let mut session = Orbbec::new();
    let trace = drive(&mut session, &mut device, 3);
    let mut replayed = Orbbec::new();
    let actions = replayed.run(trace.events.clone());
    assert_eq!(actions, trace.actions);
    assert_eq!(replayed.phase(), session.phase());
    assert_eq!(replayed.negotiation(), session.negotiation());
    assert_eq!(replayed.resources(), session.resources());
    assert_eq!(replayed.failure(), session.failure());
}

#[test]
fn run_of_no_events_is_the_start() {
    let mut session = Orbbec::new();
    assert_eq!(session.run(Vec::new()), vec![Action::Call(DriverCall::CreatePipeline)]);
    assert_eq!(session.phase(), Phase::CreatingPipeline);
}

#[test]
fn run_goes_on_halting_after_the_stop() {
    let mut session = Orbbec::new();
    let actions = session.run(vec![Event::Handle(None), Event::Done, Event::Signal(false)]);
    assert_eq!(
        actions,
        vec![Action::Call(DriverCall::CreatePipeline), Action::Halt, Action::Halt, Action::Halt]
    );
}
