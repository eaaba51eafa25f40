use vstd::prelude::*;

verus! {

/// The error a business function hands back: only its message crosses the boundary.
pub struct WasmError {
    pub msg: String,
}

impl WasmError {
    pub fn new(msg: String) -> (r: WasmError)
        ensures
            r.msg@ == msg@,
    {
        WasmError { msg }
    }

    pub fn from_text(msg: &str) -> (r: WasmError)
        ensures
            r.msg@ == msg@,
    {
        WasmError { msg: msg.to_string() }
    }
}

impl From<String> for WasmError {
    fn from(msg: String) -> (r: WasmError) {
        WasmError { msg }
    }
}

impl vstd::std_specs::convert::FromSpecImpl<String> for WasmError {
    open spec fn obeys_from_spec() -> bool {
        true
    }

    open spec fn from_spec(msg: String) -> WasmError {
        WasmError { msg }
    }
}

} // verus!
