use vstd::prelude::*;
use vstd::string::*;

use crate::error::WasmError;
use crate::host::{Capability, HostRequest};

verus! {

pub struct OnboardingProvider {
    pub provider_did: String,
    pub receiver_did: String,
    pub infrastructure_details: String,
    pub signature: String,
}

pub struct ProviderInfo {
    pub provider_did: String,
    pub provider_name: String,
    pub cpu_provided: String,
    pub gpu_provided: String,
}

/// The record write that follows a successful check; it carries no request payload.
pub fn db_write_request() -> (r: HostRequest)
    ensures
        r.capability == Capability::DbWrite,
        r.payload@.len() == 0,
{
    HostRequest { capability: Capability::DbWrite, payload: String::new() }
}

/// Onboards a provider: both DIDs must be present, then the record is written.
pub fn onboarding_provider(input: OnboardingProvider) -> (r: Result<HostRequest, WasmError>)
    ensures
        r is Ok <==> (input.provider_did@.len() > 0 && input.receiver_did@.len() > 0),
        input.provider_did@.len() == 0 ==> (r matches Err(e)
            && e.msg@ == "Platform DID cannot be empty"@),
        input.provider_did@.len() > 0 && input.receiver_did@.len() == 0 ==> (r matches Err(e)
            && e.msg@ == "Receiver DID cannot be empty"@),
        r matches Ok(h) ==> h.capability == Capability::DbWrite && h.payload@.len() == 0,
{
    if input.provider_did.as_str().is_empty() {
        return Err(WasmError::from_text("Platform DID cannot be empty"));
    }
    if input.receiver_did.as_str().is_empty() {
        return Err(WasmError::from_text("Receiver DID cannot be empty"));
    }
    Ok(db_write_request())
}

/// Registers a provider's details: its DID and name, then its CPU and GPU details, must be
/// present, then the record is written.
pub fn get_provider_info(input: ProviderInfo) -> (r: Result<HostRequest, WasmError>)
    ensures
        r is Ok <==> (input.provider_did@.len() > 0 && input.provider_name@.len() > 0
            && input.cpu_provided@.len() > 0 && input.gpu_provided@.len() > 0),
        (input.provider_did@.len() == 0 || input.provider_name@.len() == 0) ==> (r matches Err(e)
            && e.msg@ == "Platform DID and provider name cannot be empty"@),
        (input.provider_did@.len() > 0 && input.provider_name@.len() > 0 && (
        input.cpu_provided@.len() == 0 || input.gpu_provided@.len() == 0)) ==> (r matches Err(e)
            && e.msg@ == "CPU and GPU details cannot be empty"@),
        r matches Ok(h) ==> h.capability == Capability::DbWrite && h.payload@.len() == 0,
{
    if input.provider_did.as_str().is_empty() || input.provider_name.as_str().is_empty() {
        return Err(WasmError::from_text("Platform DID and provider name cannot be empty"));
    }
    if input.cpu_provided.as_str().is_empty() || input.gpu_provided.as_str().is_empty() {
        return Err(WasmError::from_text("CPU and GPU details cannot be empty"));
    }
    Ok(db_write_request())
}

} // verus!
