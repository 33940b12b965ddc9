use vstd::prelude::*;

use crate::call::{accepts_all, answers, dispatch, failure_of, response_failure};
use crate::error::{CallError, CallResult};
use crate::function_id::{function_code, FfaFunctionId};
use crate::params::{zero_params, FfaParams};

verus! {

/// The answer to a feature query: the queried id, with the properties the
/// other world reports for it.
#[derive(Clone, Copy, Debug)]
pub struct FfaFeatures {
    _id: u64,
    _properties: u64,
    _interface_properties: u64,
}

/// Whether bit 31 of `id` is set, which marks a function id rather than a
/// feature id.
pub open spec fn bit31(id: u64) -> bool {
    (id / 0x8000_0000) % 2 == 1
}

/// The query frame for `id`: the Features opcode and the id in x1.
pub open spec fn features_request(id: u64) -> FfaParams {
    FfaParams { x0: function_code(FfaFunctionId::FfaFeatures), x1: id, ..zero_params() }
}

impl FfaFeatures {
    pub closed spec fn spec_id(&self) -> u64 {
        self._id
    }

    pub closed spec fn spec_properties(&self) -> u64 {
        self._properties
    }

    pub closed spec fn spec_interface_properties(&self) -> u64 {
        self._interface_properties
    }

    /// The query frame: the Features opcode and the queried id.
    pub open spec fn frame(&self) -> FfaParams {
        features_request(self.spec_id())
    }

    /// What a response to the query for `id` means: with either Success
    /// opcode, the properties in x1 and the interface properties in x2;
    /// otherwise the failure it stands for.
    pub open spec fn response(id: u64, p: FfaParams, r: CallResult<FfaFeatures>) -> bool {
        if p.x0 == function_code(FfaFunctionId::FfaSuccess32) || p.x0 == function_code(
            FfaFunctionId::FfaSuccess64,
        ) {
            &&& r.is_ok()
            &&& r.unwrap().spec_id() == id
            &&& r.unwrap().spec_properties() == p.x1
            &&& r.unwrap().spec_interface_properties() == p.x2
        } else {
            r == Err::<FfaFeatures, CallError>(failure_of(p))
        }
    }

    pub fn new(_id: u64, _properties: u64) -> (r: Self)
        ensures
            r.spec_id() == _id,
            r.spec_properties() == _properties,
            r.spec_interface_properties() == 0,
    {
        FfaFeatures { _id, _properties, _interface_properties: 0 }
    }

    pub fn id(&self) -> (r: u64)
        ensures
            r == self.spec_id(),
    {
        self._id
    }

    pub fn properties(&self) -> (r: u64)
        ensures
            r == self.spec_properties(),
    {
        self._properties
    }

    pub fn interface_properties(&self) -> (r: u64)
        ensures
            r == self.spec_interface_properties(),
    {
        self._interface_properties
    }

    /// Whether the id is a feature id (bit 31 clear).
    pub fn is_feature_id(&self) -> (r: bool)
        ensures
            r == !bit31(self.spec_id()),
    {
        (self._id / 0x8000_0000) % 2 == 0
    }

    /// Whether the id is a function id (bit 31 set).
    pub fn is_function_id(&self) -> (r: bool)
        ensures
            r == bit31(self.spec_id()),
    {
        (self._id / 0x8000_0000) % 2 != 0
    }

    /// The query frame.
    pub fn request(&self) -> (r: FfaParams)
        ensures
            r == self.frame(),
    {
        FfaParams {
            x0: FfaFunctionId::FfaFeatures.into_u64(),
            x1: self._id,
            x2: 0,
            x3: 0,
            x4: 0,
            x5: 0,
            x6: 0,
            x7: 0,
            x8: 0,
            x9: 0,
            x10: 0,
            x11: 0,
            x12: 0,
            x13: 0,
            x14: 0,
            x15: 0,
            x16: 0,
            x17: 0,
        }
    }

    /// Classifies the response to the query for this id.
    pub fn from_response(&self, p: &FfaParams) -> (r: CallResult<FfaFeatures>)
        ensures
            FfaFeatures::response(self.spec_id(), *p, r),
    {
        if p.x0 == FfaFunctionId::FfaSuccess32.into_u64() || p.x0
            == FfaFunctionId::FfaSuccess64.into_u64() {
            Ok(FfaFeatures { _id: self._id, _properties: p.x1, _interface_properties: p.x2 })
        } else {
            Err(response_failure(p))
        }
    }

    /// Queries the other world: one call.
    pub fn exec(self, smc: &impl Fn(FfaParams) -> FfaParams) -> (r: CallResult<Self>)
        requires
            accepts_all(*smc),
        ensures
            exists|resp: FfaParams|
                answers(*smc, self.frame(), resp) && FfaFeatures::response(self.spec_id(), resp, r),
    {
        let resp = dispatch(smc, self.request());
        self.from_response(&resp)
    }
}

} // verus!
