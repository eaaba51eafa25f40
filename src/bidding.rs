use vstd::prelude::*;
use vstd::string::*;
use vstd::utf8::encode_utf8;

use crate::codec::json_quoted;
use crate::error::WasmError;
use crate::host::{host_error_text, Capability, HostError, HostRequest};
use crate::json::{array_text, encode_array, encode_object, field_views, object_text, JsonField};
use crate::text::{decimal_string, radix_text, views};

verus! {

#[verifier::external_type_specification]
#[verifier::external_body]
pub struct ExFromHexError(hex::FromHexError);

/// Whether a byte is a hexadecimal digit, in either case.
pub open spec fn is_hex_digit(b: u8) -> bool {
    (48 <= b <= 57) || (65 <= b <= 70) || (97 <= b <= 102)
}

/// The value of a hexadecimal digit.
pub open spec fn hex_digit_value(b: u8) -> int {
    if 48 <= b <= 57 {
        b - 48
    } else if 65 <= b <= 70 {
        b - 55
    } else {
        b - 87
    }
}

/// The bytes that a hexadecimal text stands for: two digits per byte, high digit first; `None`
/// for an odd length or a byte that is not a digit.
pub open spec fn hex_decoded(s: Seq<u8>) -> Option<Seq<u8>> {
    if s.len() % 2 != 0 || exists|i: int| 0 <= i < s.len() && !is_hex_digit(#[trigger] s[i]) {
        None
    } else {
        Some(
            Seq::new(
                s.len() / 2,
                |i: int| (16 * hex_digit_value(s[2 * i]) + hex_digit_value(s[2 * i + 1])) as u8,
            ),
        )
    }
}

/// Relies on hex::decode: an even number of digits, either case, two per byte, high digit
/// first; an odd length or any other byte is an error.
#[verifier::external_body]
fn hex_decode(data: &[u8]) -> (r: Result<Vec<u8>, hex::FromHexError>)
    ensures
        r is Ok <==> hex_decoded(data@) is Some,
        r matches Ok(v) ==> Some(v@) == hex_decoded(data@),
{
    hex::decode(data)
}

pub struct PlaceBidReq {
    pub bidder_did: String,
    pub encrypted_bid_amount: String,
}

pub struct RevealHighestBidReq {
    pub deployer_password: String,
}

/// What the host needs to decrypt one bid.
#[allow(non_snake_case)]
pub struct DecryptionInputData {
    pub Privatekey_path: String,
    pub data: Vec<u8>,
}

/// The decimal texts of a sequence of bytes.
pub open spec fn byte_texts(data: Seq<u8>) -> Seq<Seq<char>> {
    data.map_values(|b: u8| radix_text(b as nat, 10))
}

/// A decryption request for key path `path` and bytes `data`; bytes are written as an array of
/// numbers.
pub open spec fn decryption_json(path: Seq<char>, data: Seq<u8>) -> Seq<char> {
    object_text(
        seq![("Privatekey_path"@, json_quoted(path)), ("data"@, array_text(byte_texts(data)))],
    )
}

impl DecryptionInputData {
    pub open spec fn json(&self) -> Seq<char> {
        decryption_json(self.Privatekey_path@, self.data@)
    }

    pub fn to_json(&self) -> (r: String)
        ensures
            r@ == self.json(),
    {
        let mut items: Vec<String> = Vec::new();
        let mut i: usize = 0;
        while i < self.data.len()
            invariant
                i <= self.data@.len(),
                views(items@) =~= byte_texts(self.data@.take(i as int)),
            decreases self.data@.len() - i,
        {
            let ghost before = items@;
            items.push(decimal_string(self.data[i] as u64));
            proof {
                assert(self.data@.take(i as int + 1) =~= self.data@.take(i as int).push(
                    self.data@[i as int],
                ));
                assert(views(items@) =~= views(before).push(items@[i as int]@));
            }
            i = i + 1;
        }
        assert(self.data@.take(self.data@.len() as int) =~= self.data@);
        let mut fields: Vec<JsonField> = Vec::new();
        fields.push(JsonField::text("Privatekey_path", self.Privatekey_path.as_str()));
        fields.push(JsonField::raw("data", encode_array(&items)));
        assert(field_views(fields@) =~= seq![
            ("Privatekey_path"@, json_quoted(self.Privatekey_path@)),
            ("data"@, array_text(byte_texts(self.data@))),
        ]);
        encode_object(&fields)
    }
}

impl PlaceBidReq {
    pub open spec fn json(&self) -> Seq<char> {
        object_text(
            seq![
                ("bidder_did"@, json_quoted(self.bidder_did@)),
                ("encrypted_bid_amount"@, json_quoted(self.encrypted_bid_amount@)),
            ],
        )
    }

    pub fn to_json(&self) -> (r: String)
        ensures
            r@ == self.json(),
    {
        let mut fields: Vec<JsonField> = Vec::new();
        fields.push(JsonField::text("bidder_did", self.bidder_did.as_str()));
        fields.push(JsonField::text("encrypted_bid_amount", self.encrypted_bid_amount.as_str()));
        assert(field_views(fields@) =~= seq![
            ("bidder_did"@, json_quoted(self.bidder_did@)),
            ("encrypted_bid_amount"@, json_quoted(self.encrypted_bid_amount@)),
        ]);
        encode_object(&fields)
    }
}

/// The request that stores a bid as it came in; the capability hands back only a status.
pub fn place_bid(place_bid_req: &PlaceBidReq) -> (r: HostRequest)
    ensures
        r.capability == Capability::SaveBiddingInfo,
        r.payload@ == place_bid_req.json(),
{
    HostRequest { capability: Capability::SaveBiddingInfo, payload: place_bid_req.to_json() }
}

/// What placing a bid reports once the host has answered.
pub fn place_bid_outcome(place_bid_req: &PlaceBidReq, saved: Result<(), HostError>) -> (r: Result<
    String,
    WasmError,
>)
    ensures
        saved is Ok <==> r is Ok,
        r matches Ok(s) ==> s@ == "Bid for did: "@ + place_bid_req.bidder_did@ + " has been saved"@,
        saved matches Err(e) ==> (r matches Err(w) && w.msg@ == "unable to save bidding info: "@
            + host_error_text(e)),
{
    match saved {
        Ok(()) => {
            let mut s = String::from_str("Bid for did: ");
            s.append(place_bid_req.bidder_did.as_str());
            s.append(" has been saved");
            Ok(s)
        },
        Err(e) => {
            let mut s = String::from_str("unable to save bidding info: ");
            let m = e.message();
            s.append(m.as_str());
            Err(WasmError::new(s))
        },
    }
}

/// The request that reads the stored bids; it carries no payload.
pub fn bidding_info_request() -> (r: HostRequest)
    ensures
        r.capability == Capability::ReadBiddingInfo,
        r.payload@.len() == 0,
{
    HostRequest { capability: Capability::ReadBiddingInfo, payload: String::new() }
}

/// `prefix` followed by the message of `e`.
pub fn prefixed_error(prefix: &str, e: WasmError) -> (r: WasmError)
    ensures
        r.msg@ == prefix@ + e.msg@,
{
    let mut s = String::from_str(prefix);
    s.append(e.msg.as_str());
    WasmError::new(s)
}

/// The request that decrypts one stored bid: its hexadecimal text decoded to bytes and sent
/// with the deployer's key path. A text that is not hexadecimal is refused before any call.
pub fn decryption_request(reveal_highest_bid_req: &RevealHighestBidReq, encrypted_bid: &str) -> (r:
    Result<HostRequest, WasmError>)
    ensures
        r is Ok <==> hex_decoded(encode_utf8(encrypted_bid@)) is Some,
        r matches Err(e) ==> e.msg@ == "Failed to decode encrypted bid from hex"@,
        r matches Ok(h) ==> h.capability == Capability::EciesDecryption && h.payload@
            == decryption_json(
            reveal_highest_bid_req.deployer_password@,
            hex_decoded(encode_utf8(encrypted_bid@))->0,
        ),
{
    let bytes = match hex_decode(encrypted_bid.as_bytes()) {
        Ok(b) => b,
        Err(_) => {
            return Err(WasmError::from_text("Failed to decode encrypted bid from hex"));
        },
    };
    let input = DecryptionInputData {
        Privatekey_path: reveal_highest_bid_req.deployer_password.clone(),
        data: bytes,
    };
    Ok(HostRequest { capability: Capability::EciesDecryption, payload: input.to_json() })
}

} // verus!
