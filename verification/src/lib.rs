//! Management of Bitcoin applications and firmware on Ledger hardware wallets.
//!
//! The library holds the verified core: the HID framing of APDU commands, the readers
//! of the device's answers, the URLs of the Ledger API and of the remote HSM sessions,
//! the decisions taken on the HSM's messages, and the flows of installing or updating
//! the Bitcoin app, checking that a device is genuine, updating its firmware and
//! repairing it, each as a step function that the caller drives by performing the
//! requests it asks for.
pub mod constants;
pub mod protocol;
pub mod transport;
pub mod text;
pub mod hexcodec;
pub mod apdu;
pub mod error;
pub mod device;
pub mod hsm;
pub mod version;
pub mod firmware;
pub mod urls;
pub mod apps;
pub mod fwupdate;
pub mod operations;
pub mod web;
