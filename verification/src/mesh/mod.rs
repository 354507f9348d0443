//! Bluetooth Mesh: the replies of a mesh application to the daemon, the
//! object paths it publishes, its elements and models, and the
//! provisioner's address allocation.
use vstd::prelude::*;

pub mod agent;
pub mod application;
pub mod element;
pub mod management;
pub mod provisioner;
pub mod types;

verus! {

/// Error response from us to a Bluetooth mesh request.
#[derive(Clone, Copy, Debug, PartialEq, Eq, Structural)]
pub enum ReqError {
    /// Bluetooth request failed
    Failed,
    /// Bluetooth request already in progress
    InProgress,
    /// Invalid offset for Bluetooth GATT property
    InvalidOffset,
    /// Invalid value length for Bluetooth GATT property
    InvalidValueLength,
    /// Bluetooth request not permitted
    NotPermitted,
    /// Bluetooth request not authorized
    NotAuthorized,
    /// Bluetooth request not supported
    NotSupported,
}

/// The standard D-Bus errors that mesh request errors are answered with.
#[derive(Clone, Copy, Debug, PartialEq, Eq, Structural)]
pub enum FdoErrorKind {
    /// `org.freedesktop.DBus.Error.Failed`.
    Failed,
    /// `org.freedesktop.DBus.Error.InvalidArgs`.
    InvalidArgs,
    /// `org.freedesktop.DBus.Error.AccessDenied`.
    AccessDenied,
    /// `org.freedesktop.DBus.Error.NotSupported`.
    NotSupported,
}

/// The D-Bus error kind and message that answer a mesh request error.
pub open spec fn fdo_reply(e: ReqError) -> (FdoErrorKind, Seq<char>) {
    match e {
        ReqError::Failed => (FdoErrorKind::Failed, "Failed"@),
        ReqError::InProgress => (FdoErrorKind::Failed, "In Progress"@),
        ReqError::InvalidOffset => (FdoErrorKind::InvalidArgs, "Invalid Offset"@),
        ReqError::InvalidValueLength => (FdoErrorKind::InvalidArgs, "Invalid Value Length"@),
        ReqError::NotPermitted => (FdoErrorKind::AccessDenied, "Not Permitted"@),
        ReqError::NotAuthorized => (FdoErrorKind::AccessDenied, "Not Authorized"@),
        ReqError::NotSupported => (FdoErrorKind::NotSupported, "Not Supported"@),
    }
}

impl ReqError {
    /// The default error: `Failed`.
    pub fn default() -> (r: ReqError)
        ensures
            r == ReqError::Failed,
    {
        ReqError::Failed
    }

    /// The D-Bus error kind and message of the reply.
    pub fn to_fdo(&self) -> (r: (FdoErrorKind, &'static str))
        ensures
            (r.0, r.1@) == fdo_reply(*self),
    {
        match self {
            ReqError::Failed => (FdoErrorKind::Failed, "Failed"),
            ReqError::InProgress => (FdoErrorKind::Failed, "In Progress"),
            ReqError::InvalidOffset => (FdoErrorKind::InvalidArgs, "Invalid Offset"),
            ReqError::InvalidValueLength => (FdoErrorKind::InvalidArgs, "Invalid Value Length"),
            ReqError::NotPermitted => (FdoErrorKind::AccessDenied, "Not Permitted"),
            ReqError::NotAuthorized => (FdoErrorKind::AccessDenied, "Not Authorized"),
            ReqError::NotSupported => (FdoErrorKind::NotSupported, "Not Supported"),
        }
    }
}

} // verus!
