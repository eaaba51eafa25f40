use vstd::prelude::*;
use vstd::string::*;
use vstd::utf8::*;

use crate::codec::bytes_to_text;
use crate::error::WasmError;
use crate::text::{signed_decimal_string, signed_text};

verus! {

/// Why a host capability call failed.
#[derive(Debug, PartialEq, Eq, Structural)]
pub enum HostError {
    /// The host returned a nonzero status; only the number crosses the boundary.
    HostReturnedCode(i32),
    /// The host returned status zero but no response buffer.
    NullResponse,
    /// The response bytes are not UTF-8.
    InvalidUtf8,
}

/// The capabilities a guest may ask of its host.
#[derive(Debug, Clone, Copy, PartialEq, Eq, Structural)]
pub enum Capability {
    ApiCall,
    MintNft,
    TransferNft,
    MintFt,
    TransferFt,
    LockRbt,
    EciesDecryption,
    SaveBiddingInfo,
    ReadBiddingInfo,
    DbWrite,
}

/// A capability call that a business function asks its host to make: the capability and the
/// request payload in interchange form.
pub struct HostRequest {
    pub capability: Capability,
    pub payload: String,
}

/// The message that stands for a host error once it reaches a business function's caller.
pub open spec fn host_error_text(e: HostError) -> Seq<char> {
    match e {
        HostError::HostReturnedCode(code) => "Host function returned error code "@ + signed_text(
            code as int,
        ),
        HostError::NullResponse => "Response pointer is null"@,
        HostError::InvalidUtf8 => "Invalid UTF-8 response"@,
    }
}

/// What a capability call yields, given the status the host returned and the response buffer
/// it handed back (`None` for the null pointer).
pub open spec fn reply_outcome(status: i32, reply: Option<Seq<u8>>) -> Result<Seq<char>, HostError> {
    if status != 0 {
        Err(HostError::HostReturnedCode(status))
    } else {
        match reply {
            None => Err(HostError::NullResponse),
            Some(bytes) => if valid_utf8(bytes) {
                Ok(decode_utf8(bytes))
            } else {
                Err(HostError::InvalidUtf8)
            },
        }
    }
}

/// The view of a capability call's result.
pub open spec fn reply_view(r: Result<String, HostError>) -> Result<Seq<char>, HostError> {
    match r {
        Ok(s) => Ok(s@),
        Err(e) => Err(e),
    }
}

impl HostError {
    pub fn message(&self) -> (r: String)
        ensures
            r@ == host_error_text(*self),
    {
        match self {
            HostError::HostReturnedCode(code) => {
                let mut s = String::from_str("Host function returned error code ");
                let digits = signed_decimal_string(*code as i64);
                s.append(digits.as_str());
                s
            },
            HostError::NullResponse => String::from_str("Response pointer is null"),
            HostError::InvalidUtf8 => String::from_str("Invalid UTF-8 response"),
        }
    }

    pub fn into_wasm_error(self) -> (r: WasmError)
        ensures
            r.msg@ == host_error_text(self),
    {
        WasmError::new(self.message())
    }
}

/// Interprets what the host returned for a capability call with a response: a nonzero status
/// is a failure whatever else came back, a null response after status zero is a failure too,
/// and the response must be UTF-8 text.
pub fn interpret_host_reply(status: i32, reply: Option<Vec<u8>>) -> (r: Result<String, HostError>)
    ensures
        reply_view(r) == reply_outcome(
            status,
            match reply {
                Some(v) => Some(v@),
                None => None,
            },
        ),
{
    if status != 0 {
        return Err(HostError::HostReturnedCode(status));
    }
    match reply {
        None => Err(HostError::NullResponse),
        Some(bytes) => match bytes_to_text(bytes) {
            Some(s) => Ok(s),
            None => Err(HostError::InvalidUtf8),
        },
    }
}

/// Interprets the status of a write-only capability call, which hands back no response.
pub fn interpret_host_status(status: i32) -> (r: Result<(), HostError>)
    ensures
        status == 0 <==> r is Ok,
        status != 0 ==> r == Err::<(), HostError>(HostError::HostReturnedCode(status)),
{
    if status != 0 {
        Err(HostError::HostReturnedCode(status))
    } else {
        Ok(())
    }
}

/// A capability call's result as a business function passes it on: the response as is, or the
/// host error's message.
pub fn pass_host_result(r: Result<String, HostError>) -> (out: Result<String, WasmError>)
    ensures
        match (r, out) {
            (Ok(s), Ok(t)) => t@ == s@,
            (Err(e), Err(w)) => w.msg@ == host_error_text(e),
            _ => false,
        },
{
    match r {
        Ok(s) => Ok(s),
        Err(e) => Err(e.into_wasm_error()),
    }
}

/// A null response after status zero is a failure, never an empty success; so is every
/// nonzero status, whatever response came with it.
pub proof fn lemma_null_response_fails(status: i32, reply: Option<Seq<u8>>)
    ensures
        status == 0 && reply is None ==> reply_outcome(status, reply) == Err::<Seq<char>, HostError>(
            HostError::NullResponse,
        ),
        status != 0 ==> reply_outcome(status, reply) == Err::<Seq<char>, HostError>(
            HostError::HostReturnedCode(status),
        ),
        reply_outcome(status, reply) is Ok ==> status == 0 && reply is Some,
{
}

} // verus!
