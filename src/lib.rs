//! Error taxonomy of the plugin pipeline service: stable error codes, the
//! conversions from each subsystem's failure into one wire record, and the
//! rendering of that record as a JSON payload.
pub mod status;
pub mod err;
pub mod wellknown;
pub mod codec;
pub mod http_utils;
