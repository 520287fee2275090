//! Stream role hints used when a configuration is generated.

use vstd::prelude::*;

verus! {

/// What a stream is meant for; a hint used to generate a configuration.
#[derive(Debug, Clone, Copy, PartialEq, Eq, Structural)]
pub enum StreamRole {
    Raw,
    StillCapture,
    VideoRecording,
    ViewFinder,
}

impl StreamRole {
    /// The role a native code denotes, in the runtime's declared order.
    pub open spec fn spec_from_code(value: u32) -> Option<StreamRole> {
        if value == 0 {
            Some(StreamRole::Raw)
        } else if value == 1 {
            Some(StreamRole::StillCapture)
        } else if value == 2 {
            Some(StreamRole::VideoRecording)
        } else if value == 3 {
            Some(StreamRole::ViewFinder)
        } else {
            None
        }
    }

    /// The native code of each role.
    pub open spec fn spec_code(self) -> u32 {
        match self {
            StreamRole::Raw => 0,
            StreamRole::StillCapture => 1,
            StreamRole::VideoRecording => 2,
            StreamRole::ViewFinder => 3,
        }
    }

    pub fn try_from(value: u32) -> (r: Result<StreamRole, ()>)
        ensures
            match Self::spec_from_code(value) {
                Some(s) => r == Ok::<StreamRole, ()>(s),
                None => r is Err,
            },
    {
        if value == 0 {
            Ok(StreamRole::Raw)
        } else if value == 1 {
            Ok(StreamRole::StillCapture)
        } else if value == 2 {
            Ok(StreamRole::VideoRecording)
        } else if value == 3 {
            Ok(StreamRole::ViewFinder)
        } else {
            Err(())
        }
    }

    pub fn code(&self) -> (r: u32)
        ensures
            r == self.spec_code(),
    {
        match self {
            StreamRole::Raw => 0,
            StreamRole::StillCapture => 1,
            StreamRole::VideoRecording => 2,
            StreamRole::ViewFinder => 3,
        }
    }
}

} // verus!
