use vstd::prelude::*;

verus! {

/// Failures of the framing layer and of the control protocol.
#[derive(Debug, Clone)]
pub enum ProtocolError {
    InvalidMagic,
    MessageTooLarge,
    SerializationFailed(String),
    DeserializationFailed(String),
    ConnectionReset,
    UnexpectedMessage,
    VersionMismatch,
}

/// Failures of session management.
#[derive(Debug, Clone)]
pub enum SessionError {
    NotAuthorized,
    SessionExpired,
    SessionNotFound,
    AlreadyConnected,
    HostRejected(String),
}

/// Failures of screen capture.
#[derive(Debug, Clone)]
pub enum CaptureError {
    InitFailed(String),
    CaptureFailed(String),
    UnsupportedPlatform,
    DeviceLost,
}

/// Failures of input injection.
#[derive(Debug, Clone)]
pub enum InputError {
    InjectionFailed(String),
    PermissionDenied,
    InvalidCoordinates,
}

} // verus!
