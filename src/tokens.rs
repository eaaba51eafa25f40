use vstd::prelude::*;
use vstd::string::*;

use crate::codec::json_quoted;
use crate::error::WasmError;
use crate::host::{Capability, HostRequest};
use crate::json::{encode_object, field_views, object_text, JsonField};
use crate::text::{radix_text, signed_text};

verus! {

/// What the host needs to mint a non-fungible token.
pub struct CreateNft {
    pub did: String,
    pub metadata: String,
    pub artifact: String,
}

/// What the host needs to transfer fungible tokens.
pub struct TransferFt {
    pub comment: String,
    pub ft_count: i32,
    pub ft_name: String,
    pub creator_did: String,
    pub sender: String,
    pub receiver: String,
}

/// What the host needs to mint fungible tokens.
pub struct MintFt {
    pub did: String,
    pub ft_count: i32,
    pub ft_name: String,
    pub token_count: i32,
}

/// What the host needs to lock RBT tokens against a network coin.
pub struct LockRBT {
    pub did: String,
    pub amount: u64,
    pub token_address: String,
}

pub struct MintSampleFTReq {
    pub name: String,
    pub ft_info: MintFt,
}

pub struct TransferSampleFTReq {
    pub name: String,
    pub ft_info: TransferFt,
}

pub struct MintSampleNFTReq {
    pub name: String,
    pub nft_info: CreateNft,
}

impl CreateNft {
    pub open spec fn json(&self) -> Seq<char> {
        object_text(
            seq![
                ("did"@, json_quoted(self.did@)),
                ("metadata"@, json_quoted(self.metadata@)),
                ("artifact"@, json_quoted(self.artifact@)),
            ],
        )
    }

    pub fn to_json(&self) -> (r: String)
        ensures
            r@ == self.json(),
    {
        let mut fields: Vec<JsonField> = Vec::new();
        fields.push(JsonField::text("did", self.did.as_str()));
        fields.push(JsonField::text("metadata", self.metadata.as_str()));
        fields.push(JsonField::text("artifact", self.artifact.as_str()));
        assert(field_views(fields@) =~= seq![
            ("did"@, json_quoted(self.did@)),
            ("metadata"@, json_quoted(self.metadata@)),
            ("artifact"@, json_quoted(self.artifact@)),
        ]);
        encode_object(&fields)
    }
}

impl TransferFt {
    pub open spec fn json(&self) -> Seq<char> {
        object_text(
            seq![
                ("comment"@, json_quoted(self.comment@)),
                ("ft_count"@, signed_text(self.ft_count as int)),
                ("ft_name"@, json_quoted(self.ft_name@)),
                ("creator_did"@, json_quoted(self.creator_did@)),
                ("sender"@, json_quoted(self.sender@)),
                ("receiver"@, json_quoted(self.receiver@)),
            ],
        )
    }

    pub fn to_json(&self) -> (r: String)
        ensures
            r@ == self.json(),
    {
        let mut fields: Vec<JsonField> = Vec::new();
        fields.push(JsonField::text("comment", self.comment.as_str()));
        fields.push(JsonField::signed("ft_count", self.ft_count as i64));
        fields.push(JsonField::text("ft_name", self.ft_name.as_str()));
        fields.push(JsonField::text("creator_did", self.creator_did.as_str()));
        fields.push(JsonField::text("sender", self.sender.as_str()));
        fields.push(JsonField::text("receiver", self.receiver.as_str()));
        assert(field_views(fields@) =~= seq![
            ("comment"@, json_quoted(self.comment@)),
            ("ft_count"@, signed_text(self.ft_count as int)),
            ("ft_name"@, json_quoted(self.ft_name@)),
            ("creator_did"@, json_quoted(self.creator_did@)),
            ("sender"@, json_quoted(self.sender@)),
            ("receiver"@, json_quoted(self.receiver@)),
        ]);
        encode_object(&fields)
    }
}

impl MintFt {
    pub open spec fn json(&self) -> Seq<char> {
        object_text(
            seq![
                ("did"@, json_quoted(self.did@)),
                ("ft_count"@, signed_text(self.ft_count as int)),
                ("ft_name"@, json_quoted(self.ft_name@)),
                ("token_count"@, signed_text(self.token_count as int)),
            ],
        )
    }

    pub fn to_json(&self) -> (r: String)
        ensures
            r@ == self.json(),
    {
        let mut fields: Vec<JsonField> = Vec::new();
        fields.push(JsonField::text("did", self.did.as_str()));
        fields.push(JsonField::signed("ft_count", self.ft_count as i64));
        fields.push(JsonField::text("ft_name", self.ft_name.as_str()));
        fields.push(JsonField::signed("token_count", self.token_count as i64));
        assert(field_views(fields@) =~= seq![
            ("did"@, json_quoted(self.did@)),
            ("ft_count"@, signed_text(self.ft_count as int)),
            ("ft_name"@, json_quoted(self.ft_name@)),
            ("token_count"@, signed_text(self.token_count as int)),
        ]);
        encode_object(&fields)
    }
}

impl LockRBT {
    pub open spec fn json(&self) -> Seq<char> {
        object_text(
            seq![
                ("did"@, json_quoted(self.did@)),
                ("amount"@, radix_text(self.amount as nat, 10)),
                ("token_address"@, json_quoted(self.token_address@)),
            ],
        )
    }

    pub fn to_json(&self) -> (r: String)
        ensures
            r@ == self.json(),
    {
        let mut fields: Vec<JsonField> = Vec::new();
        fields.push(JsonField::text("did", self.did.as_str()));
        fields.push(JsonField::unsigned("amount", self.amount));
        fields.push(JsonField::text("token_address", self.token_address.as_str()));
        assert(field_views(fields@) =~= seq![
            ("did"@, json_quoted(self.did@)),
            ("amount"@, radix_text(self.amount as nat, 10)),
            ("token_address"@, json_quoted(self.token_address@)),
        ]);
        encode_object(&fields)
    }
}

/// The request to mint a non-fungible token.
pub fn mint_nft_api_request(input_data: &CreateNft) -> (r: HostRequest)
    ensures
        r.capability == Capability::MintNft,
        r.payload@ == input_data.json(),
{
    HostRequest { capability: Capability::MintNft, payload: input_data.to_json() }
}

/// The request to mint fungible tokens.
pub fn mint_ft_api_request(input_data: &MintFt) -> (r: HostRequest)
    ensures
        r.capability == Capability::MintFt,
        r.payload@ == input_data.json(),
{
    HostRequest { capability: Capability::MintFt, payload: input_data.to_json() }
}

/// The request to transfer fungible tokens.
pub fn transfer_ft_api_request(input_data: &TransferFt) -> (r: HostRequest)
    ensures
        r.capability == Capability::TransferFt,
        r.payload@ == input_data.json(),
{
    HostRequest { capability: Capability::TransferFt, payload: input_data.to_json() }
}

/// The request to lock RBT tokens.
pub fn lock_rbt_api_request(input_data: &LockRBT) -> (r: HostRequest)
    ensures
        r.capability == Capability::LockRbt,
        r.payload@ == input_data.json(),
{
    HostRequest { capability: Capability::LockRbt, payload: input_data.to_json() }
}

/// The names allowed to mint and transfer the sample tokens.
pub open spec fn allow_listed(name: Seq<char>) -> bool {
    name == "rubix1"@ || name == "rubix2"@
}

/// Whether `name` is on the allow-list.
pub fn is_allow_listed(name: &str) -> (r: bool)
    ensures
        r == allow_listed(name@),
{
    let n = String::from_str(name);
    let first = String::from_str("rubix1");
    let second = String::from_str("rubix2");
    n == first || n == second
}

/// `name <name> is not allowed to <action>`.
pub open spec fn refusal_text(name: Seq<char>, action: Seq<char>) -> Seq<char> {
    "name "@ + name + " is not allowed to "@ + action
}

fn refusal(name: &str, action: &str) -> (r: WasmError)
    ensures
        r.msg@ == refusal_text(name@, action@),
{
    let mut s = String::from_str("name ");
    s.append(name);
    s.append(" is not allowed to ");
    s.append(action);
    WasmError::new(s)
}

/// Mints sample fungible tokens for an allow-listed name: the request to hand to the host, or,
/// for any other name, the refusal, before any capability is called.
pub fn mint_sample_ft(mint_sample_ft_req: MintSampleFTReq) -> (r: Result<HostRequest, WasmError>)
    ensures
        r is Ok <==> allow_listed(mint_sample_ft_req.name@),
        r matches Ok(h) ==> h.capability == Capability::MintFt && h.payload@
            == mint_sample_ft_req.ft_info.json(),
        r matches Err(e) ==> e.msg@ == refusal_text(
            mint_sample_ft_req.name@,
            "mint the sample NFT"@,
        ),
{
    if !is_allow_listed(mint_sample_ft_req.name.as_str()) {
        return Err(refusal(mint_sample_ft_req.name.as_str(), "mint the sample NFT"));
    }
    Ok(mint_ft_api_request(&mint_sample_ft_req.ft_info))
}

/// Transfers sample fungible tokens for an allow-listed name.
pub fn transfer_sample_ft(transfer_sample_ft_req: TransferSampleFTReq) -> (r: Result<
    HostRequest,
    WasmError,
>)
    ensures
        r is Ok <==> allow_listed(transfer_sample_ft_req.name@),
        r matches Ok(h) ==> h.capability == Capability::TransferFt && h.payload@
            == transfer_sample_ft_req.ft_info.json(),
        r matches Err(e) ==> e.msg@ == refusal_text(
            transfer_sample_ft_req.name@,
            "transfer sample FTs"@,
        ),
{
    if !is_allow_listed(transfer_sample_ft_req.name.as_str()) {
        return Err(refusal(transfer_sample_ft_req.name.as_str(), "transfer sample FTs"));
    }
    Ok(transfer_ft_api_request(&transfer_sample_ft_req.ft_info))
}

/// Mints a sample non-fungible token for an allow-listed name.
pub fn mint_sample_nft(mint_sample_nft_req: MintSampleNFTReq) -> (r: Result<HostRequest, WasmError>)
    ensures
        r is Ok <==> allow_listed(mint_sample_nft_req.name@),
        r matches Ok(h) ==> h.capability == Capability::MintNft && h.payload@
            == mint_sample_nft_req.nft_info.json(),
        r matches Err(e) ==> e.msg@ == refusal_text(
            mint_sample_nft_req.name@,
            "mint the sample NFT"@,
        ),
{
    if !is_allow_listed(mint_sample_nft_req.name.as_str()) {
        return Err(refusal(mint_sample_nft_req.name.as_str(), "mint the sample NFT"));
    }
    Ok(mint_nft_api_request(&mint_sample_nft_req.nft_info))
}

/// Checks that `name` may transfer sample non-fungible tokens: the refusal for a name that is
/// not on the allow-list.
pub fn check_nft_transfer(name: &str) -> (r: Result<(), WasmError>)
    ensures
        r is Ok <==> allow_listed(name@),
        r matches Err(e) ==> e.msg@ == refusal_text(name@, "transfer sample NFTs"@),
{
    if !is_allow_listed(name) {
        return Err(refusal(name, "transfer sample NFTs"));
    }
    Ok(())
}

} // verus!
