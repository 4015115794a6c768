//! The boundary between the capture session and the sensor driver.
//!
//! The session never touches the device. It names the next driver call as a
//! [`DriverCall`], the caller performs it and reports what came back as an
//! [`Event`]. Handles are opaque numbers that the caller gives to the objects
//! of the driver; an absent object is `None`.

use vstd::prelude::*;
use crate::point::PointRecord;

verus! {

/// An opaque name for an object of the driver.
pub type Handle = u64;

/// The longest the worker waits for a frameset, in milliseconds.
pub const CAPTURE_TIMEOUT_MS: u32 = 100;

/// The sensors whose stream profiles the session asks for.
#[derive(Clone, Copy, Debug, PartialEq, Eq, Structural)]
pub enum SensorKind {
    Color,
    Depth,
}

/// How depth samples are mapped onto the pixel grid of the color sensor.
#[derive(Clone, Copy, Debug, PartialEq, Eq, Structural)]
pub enum AlignMode {
    /// Depth is delivered as the depth sensor sees it.
    Disabled,
    /// The device aligns depth to color.
    HardwareAligned,
    /// The driver aligns depth to color after capture.
    SoftwareAligned,
}

/// One call into the sensor driver, with the handles it is made on.
///
/// The comment on each call names the event that answers it. Every call may
/// also be answered by [`Event::Failed`].
#[derive(Clone, Copy, Debug, PartialEq, Eq, Structural)]
pub enum DriverCall {
    /// Create the pipeline. Answer: `Handle`.
    CreatePipeline,
    /// Create the stream configuration. Answer: `Handle`.
    CreateConfig,
    /// List the stream profiles of one sensor. Answer: `Handle`.
    StreamProfiles { pipeline: Handle, sensor: SensorKind },
    /// List the depth profiles that can be aligned to the color profile under
    /// the given mode. Answer: `Handle`.
    AlignedDepthProfiles { pipeline: Handle, color_profile: Handle, mode: AlignMode },
    /// Count the profiles of a list. Answer: `Number`.
    ProfileCount { list: Handle },
    /// Take the device's default profile of a list. Answer: `Handle`.
    DefaultProfile { list: Handle },
    /// Read the frame rate of a video profile. Answer: `Number`.
    FrameRate { profile: Handle },
    /// Take a profile of the list with the given frame rate, any resolution
    /// and any format. Answer: `Handle`, `None` when no profile has the rate.
    MatchFrameRate { list: Handle, fps: u32 },
    /// Enable the stream of a profile on the configuration. Answer: `Done`.
    EnableStream { config: Handle, profile: Handle },
    /// Set the alignment mode on the configuration. Answer: `Done`.
    SetAlignMode { config: Handle, mode: AlignMode },
    /// Start the pipeline with the configuration. Answer: `Done`.
    StartPipeline { pipeline: Handle, config: Handle },
    /// Create the point-cloud filter. Answer: `Handle`.
    CreatePointCloudFilter,
    /// Read the camera parameters of the started pipeline and keep them for
    /// the next call. Answer: `Done`.
    CameraParam { pipeline: Handle },
    /// Hand the camera parameters just read to the filter. Answer: `Done`.
    BindCameraParam { filter: Handle },
    /// Wait for the next frameset, no longer than the timeout. Answer:
    /// `Handle`, `None` when the wait timed out.
    WaitForFrameset { pipeline: Handle, timeout_ms: u32 },
    /// Take the depth frame of a frameset. Answer: `Handle`, `None` when the
    /// frameset has no depth frame.
    DepthFrame { frameset: Handle },
    /// Read the value scale of a depth frame. Answer: `Number`, the bit
    /// pattern of the scale.
    DepthScale { frame: Handle },
    /// Set the position scale of the filter to the given bit pattern.
    /// Answer: `Done`.
    SetPositionScale { filter: Handle, scale: u32 },
    /// Ask the filter for interleaved position and color. Answer: `Done`.
    SetPointFormat { filter: Handle },
    /// Run the filter over a frameset. Answer: `Handle`, `None` when the
    /// filter yields no points frame.
    Process { filter: Handle, frameset: Handle },
    /// Read the payload of a frame. Answer: `Payload`.
    ReadPayload { frame: Handle },
    /// Release a frameset or a frame. Answer: `Done`.
    ReleaseFrame { frame: Handle },
    /// Release the point-cloud filter. Answer: `Done`.
    ReleaseFilter { filter: Handle },
    /// Stop the pipeline. Answer: `Done`.
    StopPipeline { pipeline: Handle },
    /// Destroy the pipeline. Answer: `Done`.
    ReleasePipeline { pipeline: Handle },
    /// Destroy the configuration. Answer: `Done`.
    ReleaseConfig { config: Handle },
    /// Destroy a stream profile. Answer: `Done`.
    ReleaseProfile { profile: Handle },
    /// Destroy a list of stream profiles. Answer: `Done`.
    ReleaseProfileList { list: Handle },
}

/// The error object of a driver call, as plain values.
#[derive(Clone, Debug, PartialEq, Eq)]
pub struct DeviceError {
    /// The driver function that failed, with its arguments.
    pub call: String,
    /// The driver's message.
    pub message: String,
    /// The driver's exception category.
    pub category: u32,
}

/// What the caller reports back to the session.
#[derive(Clone, Debug, PartialEq, Eq)]
pub enum Event {
    /// The call succeeded and returns nothing.
    Done,
    /// The call succeeded and returned an object, or none.
    Handle(Option<Handle>),
    /// The call succeeded and returned a number.
    Number(u32),
    /// The call succeeded and returned the bytes of a frame.
    Payload(Vec<u8>),
    /// The shutdown signal was polled: `true` when shutdown was asked for.
    Signal(bool),
    /// The call reported an error.
    Failed(DeviceError),
}

/// An event as mathematical values.
pub ghost enum EventView {
    Done,
    Handle(Option<Handle>),
    Number(u32),
    Payload(Seq<u8>),
    Signal(bool),
    Failed(DeviceError),
}

impl View for Event {
    type V = EventView;

    open spec fn view(&self) -> EventView {
        match *self {
            Event::Done => EventView::Done,
            Event::Handle(handle) => EventView::Handle(handle),
            Event::Number(number) => EventView::Number(number),
            Event::Payload(bytes) => EventView::Payload(bytes@),
            Event::Signal(asked) => EventView::Signal(asked),
            Event::Failed(error) => EventView::Failed(error),
        }
    }
}

/// What the session asks its caller to do next.
#[derive(Clone, Debug, PartialEq, Eq)]
pub enum Action {
    /// Perform the driver call and report its outcome.
    Call(DriverCall),
    /// Poll the shutdown signal without waiting and report `Signal`.
    PollShutdown,
    /// Hand the batch to the frame channel and report `Done`.
    Publish(Vec<PointRecord>),
    /// Nothing is left to do: every resource is released.
    Halt,
}

/// An action as mathematical values.
pub ghost enum ActionView {
    Call(DriverCall),
    PollShutdown,
    Publish(Seq<PointRecord>),
    Halt,
}

impl View for Action {
    type V = ActionView;

    open spec fn view(&self) -> ActionView {
        match *self {
            Action::Call(call) => ActionView::Call(call),
            Action::PollShutdown => ActionView::PollShutdown,
            Action::Publish(batch) => ActionView::Publish(batch@),
            Action::Halt => ActionView::Halt,
        }
    }
}

/// A run of events as mathematical values.
pub open spec fn event_views(events: Seq<Event>) -> Seq<EventView> {
    events.map_values(|event: Event| event@)
}

/// A run of actions as mathematical values.
pub open spec fn action_views(actions: Seq<Action>) -> Seq<ActionView> {
    actions.map_values(|action: Action| action@)
}

} // verus!
