use vstd::prelude::*;
use vstd::string::*;

use crate::codec::{encode_text, json_quoted};
use crate::text::{join_with, joined, radix_string, radix_text, signed_decimal_string, signed_text, views};

verus! {

/// One member of a JSON object: its name and the interchange form of its value.
pub struct JsonField {
    pub name: String,
    pub value: String,
}

/// The text of `true` or `false`.
pub open spec fn flag_text(b: bool) -> Seq<char> {
    if b {
        seq!['t', 'r', 'u', 'e']
    } else {
        seq!['f', 'a', 'l', 's', 'e']
    }
}

/// The text of a JSON null.
pub open spec fn null_text() -> Seq<char> {
    seq!['n', 'u', 'l', 'l']
}

/// `"name":value`.
pub open spec fn member_text(m: (Seq<char>, Seq<char>)) -> Seq<char> {
    json_quoted(m.0) + seq![':'] + m.1
}

/// A JSON object with the given members, in order.
pub open spec fn object_text(members: Seq<(Seq<char>, Seq<char>)>) -> Seq<char> {
    seq!['{'] + joined(members.map_values(|m: (Seq<char>, Seq<char>)| member_text(m)), seq![','])
        + seq!['}']
}

/// A JSON array of already encoded items.
pub open spec fn array_text(items: Seq<Seq<char>>) -> Seq<char> {
    seq!['['] + joined(items, seq![',']) + seq![']']
}

/// An optional text: its literal, or null.
pub open spec fn optional_text(t: Option<Seq<char>>) -> Seq<char> {
    match t {
        Some(s) => json_quoted(s),
        None => null_text(),
    }
}

impl View for JsonField {
    type V = (Seq<char>, Seq<char>);

    open spec fn view(&self) -> (Seq<char>, Seq<char>) {
        (self.name@, self.value@)
    }
}

/// The views of a sequence of members.
pub open spec fn field_views(fs: Seq<JsonField>) -> Seq<(Seq<char>, Seq<char>)> {
    fs.map_values(|f: JsonField| f@)
}

impl JsonField {
    pub fn text(name: &str, value: &str) -> (r: JsonField)
        ensures
            r@ == (name@, json_quoted(value@)),
    {
        JsonField { name: String::from_str(name), value: encode_text(value) }
    }

    pub fn unsigned(name: &str, value: u64) -> (r: JsonField)
        ensures
            r@ == (name@, radix_text(value as nat, 10)),
    {
        JsonField { name: String::from_str(name), value: radix_string(value, 10) }
    }

    pub fn signed(name: &str, value: i64) -> (r: JsonField)
        ensures
            r@ == (name@, signed_text(value as int)),
    {
        JsonField { name: String::from_str(name), value: signed_decimal_string(value) }
    }

    pub fn flag(name: &str, value: bool) -> (r: JsonField)
        ensures
            r@ == (name@, flag_text(value)),
    {
        proof {
            reveal_strlit("true");
            reveal_strlit("false");
        }
        let v = if value {
            String::from_str("true")
        } else {
            String::from_str("false")
        };
        JsonField { name: String::from_str(name), value: v }
    }

    pub fn optional_text(name: &str, value: &Option<String>) -> (r: JsonField)
        ensures
            r@ == (name@, optional_text(match value {
                Some(s) => Some(s@),
                None => None,
            })),
    {
        proof {
            reveal_strlit("null");
        }
        let v = match value {
            Some(s) => encode_text(s.as_str()),
            None => String::from_str("null"),
        };
        JsonField { name: String::from_str(name), value: v }
    }

    /// A member whose value is already in interchange form.
    pub fn raw(name: &str, value: String) -> (r: JsonField)
        ensures
            r@ == (name@, value@),
    {
        JsonField { name: String::from_str(name), value }
    }
}

/// Writes one member.
pub fn encode_member(f: &JsonField) -> (r: String)
    ensures
        r@ == member_text(f@),
{
    let mut out = encode_text(f.name.as_str());
    proof {
        reveal_strlit(":");
    }
    out.append(":");
    out.append(f.value.as_str());
    out
}

/// Writes `items` between `open` and `close`, separated by commas.
fn enclose(open: &str, items: &Vec<String>, close: &str) -> (r: String)
    ensures
        r@ == open@ + joined(views(items@), seq![',']) + close@,
{
    proof {
        reveal_strlit(",");
    }
    let sep = ",";
    assert(sep@ =~= seq![',']);
    let inner = join_with(items, sep);
    let mut out = String::from_str(open);
    out.append(inner.as_str());
    out.append(close);
    assert(out@ =~= open@ + joined(views(items@), seq![',']) + close@);
    out
}

/// Writes a JSON object with the members in the order given.
pub fn encode_object(fields: &Vec<JsonField>) -> (r: String)
    ensures
        r@ == object_text(field_views(fields@)),
{
    let mut parts: Vec<String> = Vec::new();
    let mut i: usize = 0;
    while i < fields.len()
        invariant
            i <= fields.len(),
            views(parts@) =~= field_views(fields@.take(i as int)).map_values(
                |m: (Seq<char>, Seq<char>)| member_text(m),
            ),
        decreases fields.len() - i,
    {
        let m = encode_member(&fields[i]);
        let ghost old_parts = parts@;
        parts.push(m);
        proof {
            assert(fields@.take(i as int + 1) =~= fields@.take(i as int).push(fields@[i as int]));
            assert(views(parts@) =~= views(old_parts).push(m@));
            assert(field_views(fields@.take(i as int + 1)) =~= field_views(
                fields@.take(i as int),
            ).push(fields@[i as int]@));
        }
        i = i + 1;
    }
    assert(fields@.take(fields.len() as int) =~= fields@);
    proof {
        reveal_strlit("{");
        reveal_strlit("}");
    }
    enclose("{", &parts, "}")
}

/// Writes a JSON array of already encoded items.
pub fn encode_array(items: &Vec<String>) -> (r: String)
    ensures
        r@ == array_text(views(items@)),
{
    proof {
        reveal_strlit("[");
        reveal_strlit("]");
    }
    enclose("[", items, "]")
}

} // verus!
