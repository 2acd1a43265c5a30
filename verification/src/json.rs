//! JSON text for the patch documents that the operator and the admission
//! webhooks send: string literals, patch entries and arrays of them.

use vstd::prelude::*;
use vstd::string::*;

verus! {

#[verifier::external_type_specification]
#[verifier::external_body]
pub struct ExJsonError(serde_json::Error);

/// The JSON string literal for `text`: the text between double quotes, with
/// the escapes that `serde_json` writes.
pub uninterp spec fn json_string(text: Seq<char>) -> Seq<char>;

/// Calls `serde_json::to_string` on a string slice. The result is the JSON
/// string literal for `text`, a function of `text` alone. The call cannot
/// fail: a string slice is written without consulting a `Serialize` impl of
/// this crate, holds no map, and the output goes to a buffer in memory.
#[verifier::external_body]
fn to_json_string(text: &str) -> (r: Result<String, serde_json::Error>)
    ensures
        r is Ok,
        r->Ok_0@ == json_string(text@),
{
    serde_json::to_string(text)
}

/// The JSON string literal for `text`.
pub fn quote(text: &str) -> (r: String)
    ensures
        r@ == json_string(text@),
{
    match to_json_string(text) {
        Ok(s) => s,
        Err(_) => String::new(),
    }
}

/// One operation of a JSON patch, as text: an object with the members `op`,
/// `path` and `value` in that order, all strings, without white space.
pub open spec fn entry_text(op: Seq<char>, path: Seq<char>, value: Seq<char>) -> Seq<char> {
    "{\"op\":"@ + json_string(op) + ",\"path\":"@ + json_string(path) + ",\"value\":"@
        + json_string(value) + "}"@
}

/// Writes one operation of a JSON patch.
pub fn write_entry(op: &str, path: &str, value: &str) -> (r: String)
    ensures
        r@ == entry_text(op@, path@, value@),
{
    let mut out = String::from_str("{\"op\":");
    out.append(quote(op).as_str());
    out.append(",\"path\":");
    out.append(quote(path).as_str());
    out.append(",\"value\":");
    out.append(quote(value).as_str());
    out.append("}");
    out
}

/// The items in order, with a comma between neighbours.
pub open spec fn joined(items: Seq<Seq<char>>) -> Seq<char>
    decreases items.len(),
{
    if items.len() == 0 {
        Seq::empty()
    } else if items.len() == 1 {
        items[0]
    } else {
        joined(items.drop_last()) + ","@ + items.last()
    }
}

/// A JSON array whose elements are the given texts.
pub open spec fn array_text(items: Seq<Seq<char>>) -> Seq<char> {
    "["@ + joined(items) + "]"@
}

/// Writes a JSON array whose elements are the given texts, each of which is
/// taken to be JSON already.
pub fn write_array(items: &Vec<String>) -> (r: String)
    ensures
        r@ == array_text(items.deep_view()),
{
    let ghost texts = items.deep_view();
    let mut body = String::new();
    let mut i: usize = 0;
    while i < items.len()
        invariant
            i <= items.len(),
            texts == items.deep_view(),
            body@ == joined(texts.take(i as int)),
        decreases items.len() - i,
    {
        proof {
            let next = texts.take(i + 1);
            assert(next.drop_last() =~= texts.take(i as int));
            assert(next.last() == items[i as int]@);
            if i == 0 {
                assert(body@ =~= Seq::<char>::empty());
            }
        }
        if i > 0 {
            body.append(",");
        }
        body.append(items[i].as_str());
        proof {
            if i == 0 {
                assert(body@ =~= items[0]@);
            }
        }
        i += 1;
    }
    assert(texts.take(items.len() as int) =~= texts);
    let mut out = String::from_str("[");
    out.append(body.as_str());
    out.append("]");
    out
}

} // verus!
