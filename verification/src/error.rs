//! The failure modes of the capability engine, with exact human-readable
//! descriptions.

use vstd::prelude::*;
use vstd::string::StringExecFns;

use crate::flags::{Capability, HaveCapsResult};
use crate::text::{dec_i32, dec_u64, spec_dec_i32, spec_dec_u64};

verus! {

/// Everything a capability operation can fail with. The variants that name a
/// kernel-facing failure (`ApplyCapabilities`, `ChangeTargetId`,
/// `GetProcessCapabilities`, `LockCapabilities` and the two file-descriptor
/// variants) are produced by the unverified layer that owns the system calls;
/// the resolution and update variants are produced here.
#[derive(Debug)]
pub enum Error {
    /// Failed to sync capabilities with the kernel.
    ApplyCapabilities,
    /// Failed to write capabilities to the extended attributes of the file
    /// behind the given descriptor.
    ApplyCapsFile(i32),
    /// Failed to change the target process id.
    ChangeTargetId,
    /// Failed to convert a capability name for the platform interface.
    ConvertCapabilityName,
    /// No capability with this symbolic name exists on the platform.
    GetCapabilityId(String),
    /// Failed to read the capabilities from the extended attributes of the
    /// file behind the given descriptor.
    GetCapsFile(i32),
    /// Failed to get process capabilities.
    GetProcessCapabilities,
    /// The platform interface handed back a have-capabilities classification
    /// code outside the defined four-value range.
    InvalidHaveCapsResult(i32),
    /// Failed to lock capabilities.
    LockCapabilities,
    /// No capability with this numeric id exists on the platform.
    NameToCapability(Capability),
    /// An update of this capability was rejected.
    UpdateCapability(Capability),
}

/// The description `Error::message` returns for each variant.
pub open spec fn spec_error_message(e: Error) -> Seq<char> {
    match e {
        Error::ApplyCapabilities => "failed to sync capabilities with the kernel"@,
        Error::ApplyCapsFile(fd) => "failed to write capabilities to the extended attributes of file descriptor "@
            + spec_dec_i32(fd),
        Error::ChangeTargetId => "failed to change target process id"@,
        Error::ConvertCapabilityName => "failed to convert capability name for the platform interface"@,
        Error::GetCapabilityId(name) => "failed to get the ID for the capability with name "@
            + name@,
        Error::GetCapsFile(fd) => "failed to read the capabilities from the extended attributes of file descriptor "@
            + spec_dec_i32(fd),
        Error::GetProcessCapabilities => "failed to get process capabilities"@,
        Error::InvalidHaveCapsResult(v) => "invalid value "@ + spec_dec_i32(v)
            + " for HaveCapsResult"@,
        Error::LockCapabilities => "failed to lock capabilities"@,
        Error::NameToCapability(c) => "failed to find the name for capability "@
            + spec_dec_u64(c as u64),
        Error::UpdateCapability(c) => "failed to update the status of the capability with name "@
            + spec_dec_u64(c as u64),
    }
}

impl Error {
    /// A human-readable description of the error.
    pub fn message(&self) -> (s: String)
        ensures
            s@ == spec_error_message(*self),
    {
        match self {
            Error::ApplyCapabilities => String::from_str(
                "failed to sync capabilities with the kernel",
            ),
            Error::ApplyCapsFile(fd) => {
                let mut s = String::from_str(
                    "failed to write capabilities to the extended attributes of file descriptor ",
                );
                let v = dec_i32(*fd);
                s.append(v.as_str());
                s
            },
            Error::ChangeTargetId => String::from_str("failed to change target process id"),
            Error::ConvertCapabilityName => String::from_str(
                "failed to convert capability name for the platform interface",
            ),
            Error::GetCapabilityId(name) => {
                let mut s = String::from_str(
                    "failed to get the ID for the capability with name ",
                );
                s.append(name.as_str());
                s
            },
            Error::GetCapsFile(fd) => {
                let mut s = String::from_str(
                    "failed to read the capabilities from the extended attributes of file descriptor ",
                );
                let v = dec_i32(*fd);
                s.append(v.as_str());
                s
            },
            Error::GetProcessCapabilities => String::from_str(
                "failed to get process capabilities",
            ),
            Error::InvalidHaveCapsResult(v) => {
                let mut s = String::from_str("invalid value ");
                let d = dec_i32(*v);
                s.append(d.as_str());
                s.append(" for HaveCapsResult");
                s
            },
            Error::LockCapabilities => String::from_str("failed to lock capabilities"),
            Error::NameToCapability(c) => {
                let mut s = String::from_str("failed to find the name for capability ");
                let d = dec_u64(*c as u64);
                s.append(d.as_str());
                s
            },
            Error::UpdateCapability(c) => {
                let mut s = String::from_str(
                    "failed to update the status of the capability with name ",
                );
                let d = dec_u64(*c as u64);
                s.append(d.as_str());
                s
            },
        }
    }
}

/// Decode the classification code the platform's query interface reports; a
/// code outside the defined four-value range is a defect of the platform
/// binding, reported as `InvalidHaveCapsResult`, never silently coerced.
pub open spec fn spec_have_caps_result_of(n: i32) -> Result<HaveCapsResult, Error> {
    if n == -1 {
        Ok(HaveCapsResult::FAIL)
    } else if n == 0 {
        Ok(HaveCapsResult::NONE)
    } else if n == 1 {
        Ok(HaveCapsResult::PARTIAL)
    } else if n == 2 {
        Ok(HaveCapsResult::FULL)
    } else {
        Err(Error::InvalidHaveCapsResult(n))
    }
}

impl HaveCapsResult {
    /// Decode a raw classification code.
    pub fn try_from(n: i32) -> (r: Result<HaveCapsResult, Error>)
        ensures
            r == spec_have_caps_result_of(n),
    {
        if n == -1 {
            Ok(HaveCapsResult::FAIL)
        } else if n == 0 {
            Ok(HaveCapsResult::NONE)
        } else if n == 1 {
            Ok(HaveCapsResult::PARTIAL)
        } else if n == 2 {
            Ok(HaveCapsResult::FULL)
        } else {
            Err(Error::InvalidHaveCapsResult(n))
        }
    }
}

} // verus!
