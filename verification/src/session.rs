//! The state of a capture session: where it stands, which driver objects it
//! holds, what it negotiated and why it failed.

use vstd::prelude::*;
use crate::driver::{AlignMode, DeviceError, Handle};
use crate::point::PointRecord;

verus! {

/// Where the session stands. But for `Idle`, `Draining` and `Stopped` each
/// phase is named after the request whose answer the session waits for.
#[derive(Clone, Copy, Debug, PartialEq, Eq, Structural)]
pub enum Phase {
    /// Nothing was asked yet.
    Idle,
    CreatingPipeline,
    CreatingConfig,
    QueryingColorProfiles,
    /// The device has no color sensor: alignment is being switched off.
    DisablingAlignment,
    SelectingColorProfile,
    EnablingColor,
    QueryingHardwareAligned,
    CountingHardwareAligned,
    QueryingSoftwareAligned,
    CountingSoftwareAligned,
    QueryingDepthProfiles,
    CountingDepthProfiles,
    ReadingColorRate,
    MatchingFrameRate,
    SelectingDefaultDepth,
    EnablingDepth,
    SettingAlignment,
    StartingPipeline,
    CreatingFilter,
    ReadingCameraParam,
    BindingCameraParam,
    PollingShutdown,
    WaitingForFrameset,
    ExtractingDepth,
    ReadingDepthScale,
    ReleasingDepth,
    SettingScale,
    SettingFormat,
    Filtering,
    ReadingPayload,
    ReleasingPoints,
    ReleasingFrameset,
    Publishing,
    /// The session releases what it holds, one object per step.
    Draining,
    /// Everything is released; the session asks for nothing more.
    Stopped,
}

/// The state of the capture worker as its owner sees it.
#[derive(Clone, Copy, Debug, PartialEq, Eq, Structural)]
pub enum WorkerState {
    Starting,
    Running,
    Draining,
    Stopped,
}

impl Phase {
    /// The phases of the capture loop.
    pub open spec fn is_running(self) -> bool {
        match self {
            Phase::PollingShutdown
            | Phase::WaitingForFrameset
            | Phase::ExtractingDepth
            | Phase::ReadingDepthScale
            | Phase::ReleasingDepth
            | Phase::SettingScale
            | Phase::SettingFormat
            | Phase::Filtering
            | Phase::ReadingPayload
            | Phase::ReleasingPoints
            | Phase::ReleasingFrameset
            | Phase::Publishing => true,
            _ => false,
        }
    }

    /// The phases in which the session is being torn down or is gone.
    pub open spec fn is_closing(self) -> bool {
        self == Phase::Draining || self == Phase::Stopped
    }

    /// The phases of setup, before the capture loop is entered.
    pub open spec fn is_starting(self) -> bool {
        !self.is_running() && !self.is_closing()
    }

    /// The phases in which no alignment mode can have been adopted yet.
    pub open spec fn is_undecided(self) -> bool {
        match self {
            Phase::Idle
            | Phase::CreatingPipeline
            | Phase::CreatingConfig
            | Phase::QueryingColorProfiles
            | Phase::DisablingAlignment
            | Phase::SelectingColorProfile
            | Phase::EnablingColor
            | Phase::QueryingHardwareAligned
            | Phase::CountingHardwareAligned
            | Phase::QueryingSoftwareAligned
            | Phase::CountingSoftwareAligned
            | Phase::QueryingDepthProfiles
            | Phase::CountingDepthProfiles => true,
            _ => false,
        }
    }

    /// The phases in which no color profile can have been selected yet.
    pub open spec fn is_before_color(self) -> bool {
        match self {
            Phase::Idle
            | Phase::CreatingPipeline
            | Phase::CreatingConfig
            | Phase::QueryingColorProfiles
            | Phase::DisablingAlignment
            | Phase::SelectingColorProfile => true,
            _ => false,
        }
    }

    /// The phases in which no depth profile can have been selected yet.
    pub open spec fn is_before_depth(self) -> bool {
        self.is_undecided() || self == Phase::ReadingColorRate || self == Phase::MatchingFrameRate
            || self == Phase::SelectingDefaultDepth
    }

    /// The phases in which the session asks for depth profiles aligned to
    /// the color profile.
    pub open spec fn is_aligning(self) -> bool {
        match self {
            Phase::EnablingColor
            | Phase::QueryingHardwareAligned
            | Phase::CountingHardwareAligned
            | Phase::QueryingSoftwareAligned
            | Phase::CountingSoftwareAligned => true,
            _ => false,
        }
    }

    /// An upper bound on the number of answers after which a session in the
    /// capture loop polls the shutdown signal again.
    pub open spec fn steps_to_poll(self) -> nat {
        match self {
            Phase::WaitingForFrameset => 11,
            Phase::ExtractingDepth => 10,
            Phase::ReadingDepthScale => 9,
            Phase::ReleasingDepth => 8,
            Phase::SettingScale => 7,
            Phase::SettingFormat => 6,
            Phase::Filtering => 5,
            Phase::ReadingPayload => 4,
            Phase::ReleasingPoints => 3,
            Phase::ReleasingFrameset => 2,
            Phase::Publishing => 1,
            _ => 0,
        }
    }
}

/// The driver objects a session holds. Each slot is filled when the driver
/// hands the object out and emptied when the session asks for its release.
#[derive(Clone, Copy, Debug, PartialEq, Eq, Structural)]
pub struct Resources {
    pub pipeline: Option<Handle>,
    pub config: Option<Handle>,
    pub color_profiles: Option<Handle>,
    pub color_profile: Option<Handle>,
    /// The depth profiles that the device aligns to color, if asked for.
    pub hardware_profiles: Option<Handle>,
    /// The depth profiles that the driver aligns to color, if asked for.
    pub software_profiles: Option<Handle>,
    /// The depth profiles of the depth sensor, if asked for.
    pub depth_profiles: Option<Handle>,
    pub depth_profile: Option<Handle>,
    pub filter: Option<Handle>,
    pub frameset: Option<Handle>,
    pub depth_frame: Option<Handle>,
    pub points_frame: Option<Handle>,
}

impl Resources {
    /// No object held.
    pub open spec fn empty() -> Resources {
        Resources {
            pipeline: None,
            config: None,
            color_profiles: None,
            color_profile: None,
            hardware_profiles: None,
            software_profiles: None,
            depth_profiles: None,
            depth_profile: None,
            filter: None,
            frameset: None,
            depth_frame: None,
            points_frame: None,
        }
    }

    /// Creates the record of a session that holds nothing.
    pub fn new() -> (held: Resources)
        ensures
            held == Resources::empty(),
    {
        Resources {
            pipeline: None,
            config: None,
            color_profiles: None,
            color_profile: None,
            hardware_profiles: None,
            software_profiles: None,
            depth_profiles: None,
            depth_profile: None,
            filter: None,
            frameset: None,
            depth_frame: None,
            points_frame: None,
        }
    }
}

/// The mode that the fallback rule prefers: hardware alignment where the
/// device offers a depth profile for it, else software alignment where the
/// driver offers one, else none; and none without a color profile.
pub open spec fn preferred_alignment(color: bool, hardware: nat, software: nat) -> AlignMode {
    if !color {
        AlignMode::Disabled
    } else if hardware > 0 {
        AlignMode::HardwareAligned
    } else if software > 0 {
        AlignMode::SoftwareAligned
    } else {
        AlignMode::Disabled
    }
}

/// What the negotiation with the device has established so far.
#[derive(Clone, Copy, Debug, PartialEq, Eq, Structural)]
pub struct Negotiation {
    /// The color profile that was selected, if the device has one.
    pub color_profile: Option<Handle>,
    /// The depth profile that was selected, if the device has one.
    pub depth_profile: Option<Handle>,
    /// The alignment mode that was adopted.
    pub align: AlignMode,
    /// The frame rate of the color profile, once it was read.
    pub color_rate: Option<u32>,
    /// How many depth profiles the device offered under hardware alignment.
    pub hardware_aligned: u32,
    /// How many depth profiles the driver offered under software alignment.
    pub software_aligned: u32,
}

impl Negotiation {
    /// Nothing negotiated yet.
    pub open spec fn initial() -> Negotiation {
        Negotiation {
            color_profile: None,
            depth_profile: None,
            align: AlignMode::Disabled,
            color_rate: None,
            hardware_aligned: 0,
            software_aligned: 0,
        }
    }

    /// Creates the record of a negotiation that has not begun.
    pub fn new() -> (negotiated: Negotiation)
        ensures
            negotiated == Negotiation::initial(),
    {
        Negotiation {
            color_profile: None,
            depth_profile: None,
            align: AlignMode::Disabled,
            color_rate: None,
            hardware_aligned: 0,
            software_aligned: 0,
        }
    }

    /// Whether the adopted mode is the one the fallback rule prefers.
    pub open spec fn follows_priority(self) -> bool {
        self.align == preferred_alignment(
            self.color_profile is Some,
            self.hardware_aligned as nat,
            self.software_aligned as nat,
        )
    }
}

/// Why a session was torn down before its owner asked for it.
#[derive(Clone, Debug, PartialEq, Eq)]
pub enum SessionError {
    /// The driver call of the given phase reported an error.
    Device { phase: Phase, error: DeviceError },
    /// The answer reported in the given phase does not belong to its call.
    Protocol { phase: Phase },
}

/// A session as mathematical values.
pub ghost struct SessionModel {
    pub phase: Phase,
    pub held: Resources,
    pub negotiated: Negotiation,
    /// The depth value scale of the frameset at hand, as a bit pattern.
    pub scale: u32,
    /// The batch decoded from the frameset at hand, while its frames are
    /// being released.
    pub batch: Option<Seq<PointRecord>>,
    /// The first failure, if there was one.
    pub failure: Option<SessionError>,
    /// While draining: the teardown stage that comes next.
    pub cursor: int,
    /// Whether the capture loop was entered.
    pub ran: bool,
}

impl SessionModel {
    /// A session that has asked for nothing.
    pub open spec fn initial() -> SessionModel {
        SessionModel {
            phase: Phase::Idle,
            held: Resources::empty(),
            negotiated: Negotiation::initial(),
            scale: 0,
            batch: None,
            failure: None,
            cursor: 0,
            ran: false,
        }
    }

    /// The state of the worker that runs this session. A session that fails
    /// during setup releases what it got as part of that setup, so its
    /// worker goes from `Starting` to `Stopped` without passing through
    /// `Running` or `Draining`.
    pub open spec fn worker_state(self) -> WorkerState {
        if self.phase == Phase::Stopped {
            WorkerState::Stopped
        } else if self.phase == Phase::Draining {
            if self.ran {
                WorkerState::Draining
            } else {
                WorkerState::Starting
            }
        } else if self.phase.is_running() {
            WorkerState::Running
        } else {
            WorkerState::Starting
        }
    }

    /// The list of depth profiles that goes with the adopted alignment mode.
    pub open spec fn depth_list(self) -> Option<Handle> {
        match self.negotiated.align {
            AlignMode::HardwareAligned => self.held.hardware_profiles,
            AlignMode::SoftwareAligned => self.held.software_profiles,
            AlignMode::Disabled => self.held.depth_profiles,
        }
    }
}

} // verus!
