//! The gateway's own error type.

use vstd::prelude::*;

verus! {

/// What went wrong in the gateway's own plumbing.
#[derive(Clone, Copy, Debug, PartialEq, Eq, Structural)]
pub enum StmError {
    InvalidConfigData,
    ConfigDeserializeError,
    FileNotFound,
    InvalidFileName,
    InvalidHttpRequest,
    InvalidIpDetails,
    InvalidDnsDetails,
    BadMqttIp,
    BadMqttPort,
}

impl StmError {
    /// A short description of the error.
    pub fn message(&self) -> (r: &'static str)
        ensures
            self == StmError::InvalidConfigData ==> r@ == "Invalid config data"@,
            self == StmError::FileNotFound ==> r@ == "File not found"@,
    {
        match self {
            StmError::InvalidConfigData => "Invalid config data",
            StmError::ConfigDeserializeError => "Error deserializing config",
            StmError::FileNotFound => "File not found",
            StmError::InvalidFileName => "Bad filename",
            StmError::InvalidHttpRequest => "InvalidHttpRequest",
            StmError::InvalidIpDetails => "InvalidIpDetails",
            StmError::InvalidDnsDetails => "InvalidDnsDetails",
            StmError::BadMqttIp => "BadMqttIp",
            StmError::BadMqttPort => "BadMqttPort",
        }
    }
}

} // verus!
