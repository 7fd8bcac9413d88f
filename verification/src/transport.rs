//! Errors of the transport that carries APDU commands to the device.
use vstd::prelude::*;
use vstd::string::StringExecFns;
use crate::protocol::{apdu_error_message, ApduError, ApduErrorView};

verus! {

/// Errors that can occur during transport operations.
pub enum TransportError {
    /// The device is not found or not connected.
    DeviceNotFound,
    /// The device is locked.
    DeviceLocked,
    /// The device could not be opened, with the reason.
    OpenFailed(String),
    /// The device was disconnected.
    Disconnected,
    /// A command could not be sent, with the reason.
    SendFailed(String),
    /// A response could not be received, with the reason.
    ReceiveFailed(String),
    /// The APDU protocol failed.
    ProtocolError(ApduError),
    /// The user cancelled the operation.
    UserCancelled,
    /// The platform offers no HID access.
    NotSupported,
    /// Any other failure, with its message.
    Other(String),
}

/// Mathematical value of a [`TransportError`].
pub enum TransportErrorView {
    DeviceNotFound,
    DeviceLocked,
    OpenFailed(Seq<char>),
    Disconnected,
    SendFailed(Seq<char>),
    ReceiveFailed(Seq<char>),
    ProtocolError(ApduErrorView),
    UserCancelled,
    NotSupported,
    Other(Seq<char>),
}

impl View for TransportError {
    type V = TransportErrorView;

    open spec fn view(&self) -> TransportErrorView {
        match self {
            TransportError::DeviceNotFound => TransportErrorView::DeviceNotFound,
            TransportError::DeviceLocked => TransportErrorView::DeviceLocked,
            TransportError::OpenFailed(m) => TransportErrorView::OpenFailed(m@),
            TransportError::Disconnected => TransportErrorView::Disconnected,
            TransportError::SendFailed(m) => TransportErrorView::SendFailed(m@),
            TransportError::ReceiveFailed(m) => TransportErrorView::ReceiveFailed(m@),
            TransportError::ProtocolError(e) => TransportErrorView::ProtocolError(e@),
            TransportError::UserCancelled => TransportErrorView::UserCancelled,
            TransportError::NotSupported => TransportErrorView::NotSupported,
            TransportError::Other(m) => TransportErrorView::Other(m@),
        }
    }
}

/// The text of a transport error.
pub open spec fn transport_error_message(e: TransportErrorView) -> Seq<char> {
    match e {
        TransportErrorView::DeviceNotFound => "Device not found or not connected"@,
        TransportErrorView::DeviceLocked => "Device is locked - please unlock your Ledger"@,
        TransportErrorView::OpenFailed(m) => "Failed to open device: "@ + m,
        TransportErrorView::Disconnected => "Device disconnected"@,
        TransportErrorView::SendFailed(m) => "Failed to send command: "@ + m,
        TransportErrorView::ReceiveFailed(m) => "Failed to receive response: "@ + m,
        TransportErrorView::ProtocolError(a) => "APDU protocol error: "@ + apdu_error_message(a),
        TransportErrorView::UserCancelled => "User cancelled operation"@,
        TransportErrorView::NotSupported => "WebHID not supported in this browser"@,
        TransportErrorView::Other(m) => "Transport error: "@ + m,
    }
}

impl TransportError {
    /// The text of this error.
    pub fn message(&self) -> (m: String)
        ensures
            m@ == transport_error_message(self@),
    {
        match self {
            TransportError::DeviceNotFound => "Device not found or not connected".to_string(),
            TransportError::DeviceLocked => "Device is locked - please unlock your Ledger".to_string(),
            TransportError::OpenFailed(r) => "Failed to open device: ".to_string().concat(r.as_str()),
            TransportError::Disconnected => "Device disconnected".to_string(),
            TransportError::SendFailed(r) => "Failed to send command: ".to_string().concat(r.as_str()),
            TransportError::ReceiveFailed(r) => "Failed to receive response: ".to_string().concat(r.as_str()),
            TransportError::ProtocolError(a) => {
                let inner = a.message();
                "APDU protocol error: ".to_string().concat(inner.as_str())
            },
            TransportError::UserCancelled => "User cancelled operation".to_string(),
            TransportError::NotSupported => "WebHID not supported in this browser".to_string(),
            TransportError::Other(r) => "Transport error: ".to_string().concat(r.as_str()),
        }
    }
}

impl From<ApduError> for TransportError {
    fn from(e: ApduError) -> (t: TransportError) {
        TransportError::ProtocolError(e)
    }
}

impl vstd::std_specs::convert::FromSpecImpl<ApduError> for TransportError {
    open spec fn obeys_from_spec() -> bool {
        true
    }

    open spec fn from_spec(e: ApduError) -> TransportError {
        TransportError::ProtocolError(e)
    }
}

} // verus!
