//! Routing over the loaded model handles.
//!
//! The artifact store loads the tokenizer and up to two model handles once
//! at startup and never mutates them. The registry here is the store's
//! decision view: which handles exist, their metadata, and where a request
//! is routed. The handles themselves — each a mutable compute resource
//! behind a lock, driven on a blocking worker — live with the driver; every
//! routing decision it takes comes from here.

use vstd::prelude::*;

use crate::errors::BadRequestError;
use crate::errors::ServiceError;
use crate::types::ModelMetadata;

verus! {

/// Which model handle a request is routed to.
#[derive(Debug, Clone, Copy, PartialEq, Eq, Structural)]
pub enum RouteTarget {
    Quantized,
    Baseline,
}

/// The presence and metadata of the loaded model handles: an optional
/// quantized handle and an optional baseline handle, fixed at startup.
#[derive(Debug, Clone, PartialEq, Eq)]
pub struct ModelRegistry {
    pub quantized: Option<ModelMetadata>,
    pub baseline: Option<ModelMetadata>,
}

impl ModelRegistry {
    /// Snapshots the presence and metadata of the loaded handles.
    pub fn new(quantized: Option<ModelMetadata>, baseline: Option<ModelMetadata>) -> (r:
        ModelRegistry)
        ensures
            r.quantized == quantized,
            r.baseline == baseline,
    {
        ModelRegistry { quantized, baseline }
    }

    /// Whether a baseline handle was loaded.
    pub fn has_baseline(&self) -> (r: bool)
        ensures
            r == self.baseline is Some,
    {
        self.baseline.is_some()
    }

    /// Whether a quantized handle was loaded.
    pub fn has_quantized(&self) -> (r: bool)
        ensures
            r == self.quantized is Some,
    {
        self.quantized.is_some()
    }

    /// The metadata of the quantized and baseline handles, in that order.
    pub fn metadata(&self) -> (r: (Option<&ModelMetadata>, Option<&ModelMetadata>))
        ensures
            r.0 is Some <==> self.quantized is Some,
            r.1 is Some <==> self.baseline is Some,
            r.0 matches Some(m) ==> self.quantized == Some(*m),
            r.1 matches Some(m) ==> self.baseline == Some(*m),
    {
        (self.quantized.as_ref(), self.baseline.as_ref())
    }

    /// The default routing policy: the quantized handle when present,
    /// otherwise the baseline. Falling back is not an error.
    pub fn route_auto(&self) -> (t: RouteTarget)
        ensures
            t == RouteTarget::Quantized <==> self.quantized is Some,
            t == RouteTarget::Baseline <==> self.quantized is None,
    {
        if self.quantized.is_some() {
            RouteTarget::Quantized
        } else {
            RouteTarget::Baseline
        }
    }

    /// The quantized path, demanded explicitly: absent, it fails with the
    /// unavailability message rather than falling back.
    pub fn require_quantized(&self) -> (r: Result<&ModelMetadata, ServiceError>)
        ensures
            r is Ok <==> self.quantized is Some,
            r matches Ok(m) ==> self.quantized == Some(*m),
            r matches Err(e) ==> e matches ServiceError::Other(msg) && msg@
                == "Quantized model not available"@,
    {
        match &self.quantized {
            Some(m) => Ok(m),
            None => Err(ServiceError::Other("Quantized model not available".to_owned())),
        }
    }

    /// The baseline endpoint's guard: a caller who forces the baseline
    /// path while no baseline handle exists has made a bad request — unlike
    /// the registry's own dispatch, where an absent baseline counts as
    /// still loading.
    pub fn require_baseline_endpoint(&self) -> (r: Result<&ModelMetadata, ServiceError>)
        ensures
            r is Ok <==> self.baseline is Some,
            r matches Ok(m) ==> self.baseline == Some(*m),
            r matches Err(e) ==> e == ServiceError::BadRequest(
                BadRequestError::BaselineUnavailable,
            ),
    {
        match &self.baseline {
            Some(m) => Ok(m),
            None => Err(ServiceError::BadRequest(BadRequestError::BaselineUnavailable)),
        }
    }

    /// The baseline path, demanded explicitly: absent, the model counts as
    /// still loading.
    pub fn require_baseline(&self) -> (r: Result<&ModelMetadata, ServiceError>)
        ensures
            r is Ok <==> self.baseline is Some,
            r matches Ok(m) ==> self.baseline == Some(*m),
            r matches Err(e) ==> e == ServiceError::ModelLoading,
    {
        match &self.baseline {
            Some(m) => Ok(m),
            None => Err(ServiceError::ModelLoading),
        }
    }
}

} // verus!
