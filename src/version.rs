use vstd::prelude::*;

use crate::call::{accepts_all, answers, dispatch};
use crate::error::{error_of, FfaError, Result};
use crate::function_id::{function_code, FfaFunctionId};
use crate::params::{zero_params, FfaParams};

verus! {

/// Version this client asks for: 1.3.
pub const FFA_VERSION_MAJOR: u16 = 1;

pub const FFA_VERSION_MINOR: u16 = 3;

/// The version word: major in bits 16..31, minor in bits 0..15.
pub open spec fn version_word(major: u16, minor: u16) -> u64 {
    (major * 65536 + minor) as u64
}

/// The version request: the Version opcode and the client's version word.
pub open spec fn version_request() -> FfaParams {
    FfaParams {
        x0: function_code(FfaFunctionId::FfaVersion),
        x1: version_word(FFA_VERSION_MAJOR, FFA_VERSION_MINOR),
        ..zero_params()
    }
}

/// Builds the version word.
pub fn version_arg(major: u16, minor: u16) -> (r: u64)
    ensures
        r == version_word(major, minor),
{
    major as u64 * 65536 + minor as u64
}

/// A negotiated protocol version.
#[derive(Clone, Copy, Debug)]
pub struct FfaVersion {
    _major: u16,
    _minor: u16,
}

impl FfaVersion {
    pub closed spec fn spec_major(&self) -> u16 {
        self._major
    }

    pub closed spec fn spec_minor(&self) -> u16 {
        self._minor
    }

    /// What a response to the version request means (sign-bit idiom, on the
    /// low 32 bits of x0): with bit 31 clear, the version, major in bits
    /// 16..30 and minor in bits 0..15; with bit 31 set, the error code that
    /// the low 32 bits hold as a signed value.
    pub open spec fn response(p: FfaParams, r: Result<FfaVersion>) -> bool {
        let w = p.x0 % 0x1_0000_0000;
        if w < 0x8000_0000 {
            &&& r.is_ok()
            &&& r.unwrap().spec_major() == w / 65536
            &&& r.unwrap().spec_minor() == w % 65536
        } else {
            r == Err::<FfaVersion, FfaError>(error_of(w - 0x1_0000_0000))
        }
    }

    /// Version 0.0.
    pub fn new() -> (r: Self)
        ensures
            r.spec_major() == 0,
            r.spec_minor() == 0,
    {
        FfaVersion { _major: 0, _minor: 0 }
    }

    pub fn major(&self) -> (r: u16)
        ensures
            r == self.spec_major(),
    {
        self._major
    }

    pub fn minor(&self) -> (r: u16)
        ensures
            r == self.spec_minor(),
    {
        self._minor
    }

    /// The request that asks for this client's version.
    pub fn request() -> (r: FfaParams)
        ensures
            r == version_request(),
    {
        FfaParams {
            x0: FfaFunctionId::FfaVersion.into_u64(),
            x1: version_arg(FFA_VERSION_MAJOR, FFA_VERSION_MINOR),
            x2: 0,
            x3: 0,
            x4: 0,
            x5: 0,
            x6: 0,
            x7: 0,
            x8: 0,
            x9: 0,
            x10: 0,
            x11: 0,
            x12: 0,
            x13: 0,
            x14: 0,
            x15: 0,
            x16: 0,
            x17: 0,
        }
    }

    /// Classifies the response to the version request.
    pub fn from_response(p: &FfaParams) -> (r: Result<FfaVersion>)
        ensures
            FfaVersion::response(*p, r),
    {
        let w: u64 = p.x0 % 0x1_0000_0000;
        if w < 0x8000_0000 {
            Ok(FfaVersion { _major: (w / 65536) as u16, _minor: (w % 65536) as u16 })
        } else {
            let code: i64 = w as i64 - 0x1_0000_0000;
            Err(FfaError::from_i64(code))
        }
    }

    /// Negotiates the version with the other world: one call.
    pub fn exec(self, smc: &impl Fn(FfaParams) -> FfaParams) -> (r: Result<Self>)
        requires
            accepts_all(*smc),
        ensures
            exists|resp: FfaParams|
                answers(*smc, version_request(), resp) && FfaVersion::response(resp, r),
    {
        let resp = dispatch(smc, FfaVersion::request());
        FfaVersion::from_response(&resp)
    }
}

} // verus!
