//! Error types for device communication and app management.
use vstd::prelude::*;
use vstd::string::StringExecFns;
use crate::text::{decimal, hex_lower_fixed, push_decimal, push_hex_lower};

verus! {

/// Status codes returned by Ledger device APDU responses.
#[derive(Debug, Clone, Copy, PartialEq, Eq, Structural)]
pub enum StatusCode {
    /// Device is locked and requires PIN entry (0x5515).
    LockedDevice,
    /// Operation completed successfully (0x9000).
    OK,
}

impl StatusCode {
    /// The numeric status word of this code.
    pub open spec fn spec_code(self) -> u16 {
        match self {
            StatusCode::LockedDevice => 0x5515,
            StatusCode::OK => 0x9000,
        }
    }

    /// The numeric status word of this code.
    pub fn code(self) -> (c: u16)
        ensures
            c == self.spec_code(),
    {
        match self {
            StatusCode::LockedDevice => 0x5515,
            StatusCode::OK => 0x9000,
        }
    }
}

/// Errors that can occur during device communication.
#[derive(Debug)]
pub enum DeviceError {
    /// Device is locked and requires PIN entry.
    Locked,
    /// Device returned an unexpected status code.
    NotReady(u16),
    /// Response did not contain enough data.
    InsufficientData,
    /// Response contained invalid UTF-8, with the text of the decoding error.
    InvalidUtf8(String),
    /// Response data format was invalid.
    InvalidFormat(String),
}

/// Mathematical value of a [`DeviceError`].
pub enum DeviceErrorView {
    Locked,
    NotReady(u16),
    InsufficientData,
    InvalidUtf8(Seq<char>),
    InvalidFormat(Seq<char>),
}

impl View for DeviceError {
    type V = DeviceErrorView;

    open spec fn view(&self) -> DeviceErrorView {
        match self {
            DeviceError::Locked => DeviceErrorView::Locked,
            DeviceError::NotReady(c) => DeviceErrorView::NotReady(*c),
            DeviceError::InsufficientData => DeviceErrorView::InsufficientData,
            DeviceError::InvalidUtf8(m) => DeviceErrorView::InvalidUtf8(m@),
            DeviceError::InvalidFormat(m) => DeviceErrorView::InvalidFormat(m@),
        }
    }
}

/// The text of a device error.
pub open spec fn device_error_message(e: DeviceErrorView) -> Seq<char> {
    match e {
        DeviceErrorView::Locked => "device is locked"@,
        DeviceErrorView::NotReady(c) => "device not ready: status code 0x"@ + hex_lower_fixed(c as nat, 4),
        DeviceErrorView::InsufficientData => "insufficient data in response"@,
        DeviceErrorView::InvalidUtf8(_) => "invalid UTF-8 in device response"@,
        DeviceErrorView::InvalidFormat(m) => "invalid data format: "@ + m,
    }
}

impl DeviceError {
    /// The text of this error.
    pub fn message(&self) -> (m: String)
        ensures
            m@ == device_error_message(self@),
    {
        match self {
            DeviceError::Locked => "device is locked".to_string(),
            DeviceError::NotReady(c) => {
                let mut m = "device not ready: status code 0x".to_string();
                push_hex_lower(&mut m, *c as u64, 4);
                m
            },
            DeviceError::InsufficientData => "insufficient data in response".to_string(),
            DeviceError::InvalidUtf8(_) => "invalid UTF-8 in device response".to_string(),
            DeviceError::InvalidFormat(f) => "invalid data format: ".to_string().concat(f.as_str()),
        }
    }
}

/// The text with which the readers of the device's answers ([`crate::device::DeviceInfo::new`],
/// the pages of the list of installed apps) report an error: the status word in decimal,
/// the decoding error's own text for invalid UTF-8, the message itself for an invalid
/// format.
pub open spec fn device_read_message(e: DeviceErrorView) -> Seq<char> {
    match e {
        DeviceErrorView::Locked => "Device is locked."@,
        DeviceErrorView::NotReady(c) => "Device isn't ready. Return code: "@ + decimal(c as nat) + "."@,
        DeviceErrorView::InsufficientData => "Not enough data"@,
        DeviceErrorView::InvalidUtf8(m) => m,
        DeviceErrorView::InvalidFormat(m) => m,
    }
}

impl DeviceError {
    /// The text with which the readers of the device's answers report this error (see
    /// [`device_read_message`]).
    pub fn read_message(&self) -> (m: String)
        ensures
            m@ == device_read_message(self@),
    {
        match self {
            DeviceError::Locked => "Device is locked.".to_string(),
            DeviceError::NotReady(c) => {
                let mut m = "Device isn't ready. Return code: ".to_string();
                push_decimal(&mut m, *c as u64);
                m.append(".");
                m
            },
            DeviceError::InsufficientData => "Not enough data".to_string(),
            DeviceError::InvalidUtf8(m) => m.clone(),
            DeviceError::InvalidFormat(m) => m.clone(),
        }
    }
}

/// Errors that can occur during Bitcoin app installation.
#[derive(Debug)]
pub enum InstallErr {
    /// The Bitcoin application is already installed on the device.
    AlreadyInstalled,
    /// Could not find Bitcoin app information from the Ledger API.
    AppNotFound,
    /// A general error occurred during installation, with its message.
    Any(String),
}

/// Errors that can occur during Bitcoin app update.
#[derive(Debug)]
pub enum UpdateErr {
    /// The Bitcoin application is not installed on the device.
    NotInstalled,
    /// Could not find Bitcoin app information from the Ledger API.
    AppNotFound,
    /// The installed app is already at the latest version.
    AlreadyLatest,
    /// A general error occurred during update, with its message.
    Any(String),
}

} // verus!
