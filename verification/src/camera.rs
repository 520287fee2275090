//! The validation status a camera configuration can come back with.

use vstd::prelude::*;

verus! {

/// Outcome of validating a camera configuration.
#[derive(Debug, Clone, Copy, PartialEq, Eq, Structural)]
pub enum CameraConfigurationStatus {
    /// The configuration was validated without issues.
    Valid,
    /// The configuration is usable, but some fields were adjusted.
    Adjusted,
    /// The configuration is invalid.
    Invalid,
}

impl CameraConfigurationStatus {
    pub fn is_valid(&self) -> (r: bool)
        ensures
            r == (*self == CameraConfigurationStatus::Valid),
    {
        matches!(self, CameraConfigurationStatus::Valid)
    }

    pub fn is_adjusted(&self) -> (r: bool)
        ensures
            r == (*self == CameraConfigurationStatus::Adjusted),
    {
        matches!(self, CameraConfigurationStatus::Adjusted)
    }

    pub fn is_invalid(&self) -> (r: bool)
        ensures
            r == (*self == CameraConfigurationStatus::Invalid),
    {
        matches!(self, CameraConfigurationStatus::Invalid)
    }

    /// The status a native code denotes, in the runtime's declared order.
    pub open spec fn spec_from_code(value: u32) -> Option<CameraConfigurationStatus> {
        if value == 0 {
            Some(CameraConfigurationStatus::Valid)
        } else if value == 1 {
            Some(CameraConfigurationStatus::Adjusted)
        } else if value == 2 {
            Some(CameraConfigurationStatus::Invalid)
        } else {
            None
        }
    }

    pub fn try_from(value: u32) -> (r: Result<CameraConfigurationStatus, ()>)
        ensures
            match Self::spec_from_code(value) {
                Some(s) => r == Ok::<CameraConfigurationStatus, ()>(s),
                None => r is Err,
            },
    {
        if value == 0 {
            Ok(CameraConfigurationStatus::Valid)
        } else if value == 1 {
            Ok(CameraConfigurationStatus::Adjusted)
        } else if value == 2 {
            Ok(CameraConfigurationStatus::Invalid)
        } else {
            Err(())
        }
    }
}

} // verus!
