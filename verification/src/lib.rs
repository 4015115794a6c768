//! Capture pipeline for a depth and color sensor: the decisions of a device
//! session, the decoding of point-cloud payloads and the hand-off of batches
//! to a consumer.
//!
//! The library owns no device and no thread. [`Orbbec`] decides what a
//! capture worker does next, from what its driver reported last;
//! [`OrbbecRx`] is the slot through which the worker hands batches to the
//! consumer; [`decode_points`] turns the payload of a points frame into
//! point records.

pub mod channel;
pub mod device;
pub mod driver;
pub mod laws;
pub mod model;
pub mod orbbec;
pub mod point;
pub mod session;
pub mod teardown;
pub mod validity;

pub use crate::channel::OrbbecRx;
pub use crate::driver::{Action, AlignMode, DeviceError, DriverCall, Event, Handle, SensorKind,
    CAPTURE_TIMEOUT_MS};
pub use crate::orbbec::Orbbec;
pub use crate::point::{decode_points, PointRecord, POINT_RECORD_BYTES};
pub use crate::session::{Negotiation, Phase, Resources, SessionError, WorkerState};
