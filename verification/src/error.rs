//! Error kinds shared by every component of the recorder.

use vstd::prelude::*;

verus! {

/// One of the two capture devices.
#[derive(Clone, Copy, Debug, PartialEq, Eq, Structural)]
pub enum Device {
    /// The device feeding the first (left) channel.
    A,
    /// The device feeding the second (right) channel.
    B,
}

/// Everything that can end a component of the recorder.
#[derive(Clone, Copy, Debug, PartialEq, Eq, Structural)]
pub enum RecorderError {
    /// A configuration value is outside the range the recorder can work with.
    InvalidConfig,
    /// A device reported a fault and the single recovery attempt failed too.
    RecoveryFailed(Device),
    /// The two devices did not both become ready within the timeout window.
    AlignmentTimeout,
    /// Creating, writing, patching or renaming a segment file failed.
    FileIo,
    /// The peer thread dropped its end of the queue.
    QueueDisconnected,
    /// The container cannot describe the data: a size field would overflow
    /// or the file is shorter than its own header.
    ContainerSize,
}

impl RecorderError {
    /// A stable numeric code, for process exit statuses and logs.
    pub fn code(&self) -> (c: u8)
        ensures
            c == self.spec_code(),
    {
        match self {
            RecorderError::InvalidConfig => 1,
            RecorderError::RecoveryFailed(Device::A) => 2,
            RecorderError::RecoveryFailed(Device::B) => 3,
            RecorderError::AlignmentTimeout => 4,
            RecorderError::FileIo => 5,
            RecorderError::QueueDisconnected => 6,
            RecorderError::ContainerSize => 7,
        }
    }

    /// The code reported by [`RecorderError::code`].
    pub open spec fn spec_code(&self) -> u8 {
        match self {
            RecorderError::InvalidConfig => 1,
            RecorderError::RecoveryFailed(Device::A) => 2,
            RecorderError::RecoveryFailed(Device::B) => 3,
            RecorderError::AlignmentTimeout => 4,
            RecorderError::FileIo => 5,
            RecorderError::QueueDisconnected => 6,
            RecorderError::ContainerSize => 7,
        }
    }
}

} // verus!
