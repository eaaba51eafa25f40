use vstd::prelude::*;
use vstd::string::*;
use vstd::utf8::*;

verus! {

#[verifier::external_type_specification]
#[verifier::external_body]
pub struct ExJsonError(serde_json::Error);

/// The interchange form of a text: a quoted JSON string literal, as serde_json writes it.
pub uninterp spec fn json_quoted(s: Seq<char>) -> Seq<char>;

/// A text that JSON writes without any escape sequence.
pub open spec fn plain_text(s: Seq<char>) -> bool {
    forall|i: int| 0 <= i < s.len() ==> s[i] != '"' && s[i] != '\\' && s[i] as u32 >= 0x20
}

/// Relies on serde_json::to_string on a `str`: writing into a `Vec` cannot fail, the result is
/// the quoted literal of the text, and characters that need no escape are copied between quotes.
#[verifier::external_body]
fn json_string_literal(s: &str) -> (r: Result<String, serde_json::Error>)
    ensures
        r is Ok,
        r matches Ok(t) ==> t@ == json_quoted(s@),
        r matches Ok(t) ==> (plain_text(s@) ==> t@ == seq!['"'] + s@ + seq!['"']),
{
    serde_json::to_string(s)
}

/// Relies on serde_json::from_str into a `String`: a quoted literal that serde_json wrote reads
/// back as the text it was written from.
#[verifier::external_body]
fn json_string_parse(s: &str) -> (r: Result<String, serde_json::Error>)
    ensures
        forall|t: Seq<char>|
            s@ == #[trigger] json_quoted(t) ==> (r is Ok && r->Ok_0@ == t),
{
    serde_json::from_str::<String>(s)
}

/// Relies on String::from_utf8: it succeeds exactly on valid UTF-8, keeping its characters.
#[verifier::external_body]
fn utf8_text(bytes: Vec<u8>) -> (r: Option<String>)
    ensures
        r is Some <==> valid_utf8(bytes@),
        r matches Some(t) ==> t@ == decode_utf8(bytes@),
{
    String::from_utf8(bytes).ok()
}

/// Encodes a text into the interchange format; encoding a text cannot fail.
pub fn encode_text(s: &str) -> (r: String)
    ensures
        r@ == json_quoted(s@),
        plain_text(s@) ==> r@ == seq!['"'] + s@ + seq!['"'],
{
    match json_string_literal(s) {
        Ok(t) => t,
        Err(_) => vstd::pervasive::unreached(),
    }
}

/// The view of an optional text.
pub open spec fn text_view(r: Option<String>) -> Option<Seq<char>> {
    match r {
        Some(t) => Some(t@),
        None => None,
    }
}

/// What a decoder owes on `input`: where `input` is the interchange form of some text, it
/// yields that text.
pub open spec fn reads_back(input: Seq<char>, out: Option<Seq<char>>) -> bool {
    forall|t: Seq<char>| input == #[trigger] json_quoted(t) ==> out == Some(t)
}

/// Decodes an interchange literal back into the text it holds; `None` on malformed input.
pub fn decode_text(s: &str) -> (r: Option<String>)
    ensures
        reads_back(s@, text_view(r)),
{
    match json_string_parse(s) {
        Ok(t) => Some(t),
        Err(_) => None,
    }
}

/// Reads bytes as UTF-8 text; `None` when they are not valid UTF-8.
pub fn bytes_to_text(bytes: Vec<u8>) -> (r: Option<String>)
    ensures
        r is Some <==> valid_utf8(bytes@),
        r matches Some(t) ==> t@ == decode_utf8(bytes@),
{
    utf8_text(bytes)
}

/// The bytes of a text.
pub fn text_to_bytes(s: &str) -> (r: Vec<u8>)
    ensures
        r@ == encode_utf8(s@),
{
    s.as_bytes_vec()
}

/// Round trip: decoding the interchange form of a text gives back that text.
pub proof fn lemma_text_round_trip(v: Seq<char>, out: Option<Seq<char>>)
    requires
        reads_back(json_quoted(v), out),
    ensures
        out == Some(v),
{
}

} // verus!
