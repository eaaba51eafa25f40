use vstd::prelude::*;
use vstd::string::*;
use vstd::utf8::encode_utf8;

use crate::codec::json_quoted;
use crate::error::WasmError;
use crate::host::{Capability, HostRequest};
use crate::json::{encode_object, field_views, object_text, JsonField};
use crate::text::{decimal_string, join_with, joined, radix_text, views};

verus! {

pub struct AddThreeNumsReq {
    pub a: u32,
    pub b: u32,
    pub c: u32,
}

pub struct TestVecReq {
    pub name_list: Vec<String>,
}

pub struct GetSomeRespReq {
    pub url: String,
}

pub struct GreetingsReq {
    pub name: String,
}

pub struct GreetingsRes {
    pub result: String,
}

impl GreetingsRes {
    pub open spec fn json(&self) -> Seq<char> {
        object_text(seq![("result"@, json_quoted(self.result@))])
    }

    pub fn to_json(&self) -> (r: String)
        ensures
            r@ == self.json(),
    {
        let mut fields: Vec<JsonField> = Vec::new();
        fields.push(JsonField::text("result", self.result.as_str()));
        assert(field_views(fields@) =~= seq![("result"@, json_quoted(self.result@))]);
        encode_object(&fields)
    }
}

/// The sum of three numbers, in decimal; `b` may not be zero.
pub fn add_three_nums(input: AddThreeNumsReq) -> (r: Result<String, WasmError>)
    ensures
        input.b == 0 <==> r is Err,
        r matches Err(e) ==> e.msg@ == "Parameter 'b' cannot be zero"@,
        r matches Ok(s) ==> s@ == radix_text((input.a + input.b + input.c) as nat, 10),
{
    if input.b == 0 {
        return Err(WasmError::from_text("Parameter 'b' cannot be zero"));
    }
    let sum: u64 = input.a as u64 + input.b as u64 + input.c as u64;
    Ok(decimal_string(sum))
}

/// The names joined with dashes; the list may not be empty.
pub fn test_vec(input: TestVecReq) -> (r: Result<String, WasmError>)
    ensures
        input.name_list@.len() == 0 <==> r is Err,
        r matches Err(e) ==> e.msg@ == "name_list cannot be empty"@,
        r matches Ok(s) ==> s@ == joined(views(input.name_list@), "-"@),
{
    if input.name_list.len() == 0 {
        return Err(WasmError::from_text("name_list cannot be empty"));
    }
    Ok(join_with(&input.name_list, "-"))
}

/// Asks the host to fetch a URL; the request payload is the URL itself.
pub fn make_some_api_call(inp: GetSomeRespReq) -> (r: HostRequest)
    ensures
        r.capability == Capability::ApiCall,
        r.payload@ == inp.url@,
{
    HostRequest { capability: Capability::ApiCall, payload: inp.url }
}

/// A greeting for a name of at least three bytes, as a JSON object with a `result` member.
pub fn greetings(inp: GreetingsReq) -> (r: Result<String, WasmError>)
    ensures
        encode_utf8(inp.name@).len() < 3 <==> r is Err,
        r matches Err(e) ==> e.msg@ == "Your name must be alteast 3 characters long"@,
        r matches Ok(s) ==> s@ == object_text(seq![("result"@, json_quoted("Hello, "@ + inp.name@))]),
{
    if inp.name.as_str().as_bytes().len() < 3 {
        return Err(WasmError::from_text("Your name must be alteast 3 characters long"));
    }
    let mut greeting = String::from_str("Hello, ");
    greeting.append(inp.name.as_str());
    let result = GreetingsRes { result: greeting };
    Ok(result.to_json())
}

} // verus!
