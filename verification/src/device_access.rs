//! Device access observations (camera, microphone, location, USB storage).
//! Nothing is collected yet: an observation is a placeholder.
use vstd::prelude::*;
use crate::text::owned;

verus! {

#[derive(Debug, Clone, Copy, PartialEq, Eq, Structural)]
pub enum DeviceKind {
    Camera,
    Microphone,
    Location,
    UsbStorage,
    Unknown,
}

#[derive(Debug, Clone, PartialEq, Eq)]
pub struct DeviceAccessObservation {
    pub device_kind: DeviceKind,
    pub process_name: String,
    pub observed_locally: bool,
}

impl DeviceAccessObservation {
    /// An observation of this device kind that records nothing yet.
    pub fn placeholder(device_kind: DeviceKind) -> (r: Self)
        ensures
            r.device_kind == device_kind,
            r.process_name@ == "not-collected-yet"@,
            !r.observed_locally,
    {
        DeviceAccessObservation {
            device_kind,
            process_name: owned("not-collected-yet"),
            observed_locally: false,
        }
    }
}

} // verus!
