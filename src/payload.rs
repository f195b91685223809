use vstd::prelude::*;
use crate::text::same_text;

verus! {

/// The key/value pairs that URL form decoding finds in a body, in order.
pub uninterp spec fn form_pairs_of(body: Seq<u8>) -> Seq<(Seq<char>, Seq<char>)>;

/// The string that stands at a JSON pointer in a JSON document, if the
/// document parses and a string stands there.
pub uninterp spec fn json_str_at(text: Seq<u8>, pointer: Seq<char>) -> Option<Seq<char>>;

/// Relies on serde_urlencoded::from_bytes into `Vec<(String, String)>`: the
/// decoded pairs of the body, in the order they appear. Decoding into pairs
/// of strings does not fail: the pairs are handed out as a sequence, each
/// part is read as a string, and invalid UTF-8 is decoded lossily.
#[verifier::external_body]
fn decode_form(body: &[u8]) -> (r: Option<Vec<(String, String)>>)
    ensures
        r is Some,
        r matches Some(v) ==> pairs_view(v@) == form_pairs_of(body@),
{
    serde_urlencoded::from_bytes::<Vec<(String, String)>>(body).ok()
}

/// Relies on serde_json::from_slice into `serde_json::Value`, then
/// `Value::pointer` and `Value::as_str`: the string at `pointer` in the
/// document `text`, or `None` where the text does not parse or no string
/// stands there.
#[verifier::external_body]
fn json_string_at(text: &[u8], pointer: &str) -> (r: Option<String>)
    ensures
        match r {
            Some(s) => json_str_at(text@, pointer@) == Some(s@),
            None => json_str_at(text@, pointer@) is None,
        },
{
    let v: serde_json::Value = serde_json::from_slice(text).ok()?;
    v.pointer(pointer)?.as_str().map(|s| s.to_string())
}

/// The pairs of a decoded form, as character sequences.
pub open spec fn pairs_view(v: Seq<(String, String)>) -> Seq<(Seq<char>, Seq<char>)> {
    v.map_values(|p: (String, String)| (p.0@, p.1@))
}

/// The value of the last pair with the given key (the one a map built from
/// the pairs would keep).
pub open spec fn last_value(pairs: Seq<(Seq<char>, Seq<char>)>, key: Seq<char>) -> Option<Seq<char>>
    decreases pairs.len(),
{
    if pairs.len() == 0 {
        None
    } else if pairs.last().0 == key {
        Some(pairs.last().1)
    } else {
        last_value(pairs.drop_last(), key)
    }
}

/// The form field whose value carries the embedded JSON document.
pub open spec fn payload_key() -> Seq<char> {
    seq!['p', 'a', 'y', 'l', 'o', 'a', 'd']
}

/// Where the repository identifier stands in a delivery.
pub open spec fn full_name_pointer() -> Seq<char> {
    seq!['/', 'r', 'e', 'p', 'o', 's', 'i', 't', 'o', 'r', 'y', '/',
         'f', 'u', 'l', 'l', '_', 'n', 'a', 'm', 'e']
}

/// The JSON document of a delivery: the `payload` field of the form where
/// there is one, else the body itself.
pub open spec fn json_document(pairs: Seq<(Seq<char>, Seq<char>)>, body: Seq<u8>) -> Seq<u8> {
    match last_value(pairs, payload_key()) {
        Some(p) => vstd::utf8::encode_utf8(p),
        None => body,
    }
}

/// The repository identifier of a delivery whose form decoded to `pairs`.
pub open spec fn repo_name_from(pairs: Seq<(Seq<char>, Seq<char>)>, body: Seq<u8>) -> Option<Seq<char>> {
    json_str_at(json_document(pairs, body), full_name_pointer())
}

/// The repository identifier of a delivery body.
pub open spec fn repo_name_of(body: Seq<u8>) -> Option<Seq<char>> {
    repo_name_from(form_pairs_of(body), body)
}

/// The value of the last field named `key`, if any.
pub fn form_field<'a>(pairs: &'a Vec<(String, String)>, key: &str) -> (r: Option<&'a String>)
    ensures
        match r {
            Some(s) => last_value(pairs_view(pairs@), key@) == Some(s@),
            None => last_value(pairs_view(pairs@), key@) is None,
        },
{
    let mut i: usize = pairs.len();
    assert(pairs@.take(i as int) == pairs@);
    while i > 0
        invariant
            i <= pairs@.len(),
            last_value(pairs_view(pairs@), key@) == last_value(pairs_view(pairs@.take(i as int)), key@),
        decreases i,
    {
        assert(pairs_view(pairs@.take(i as int)).drop_last() == pairs_view(pairs@.take(i - 1)));
        if same_text(pairs[i - 1].0.as_str(), key) {
            return Some(&pairs[i - 1].1);
        }
        i = i - 1;
    }
    None
}

/// The repository identifier of a delivery, given the pairs its body decoded
/// to as a form.
pub fn repo_name_in(pairs: &Vec<(String, String)>, body: &[u8]) -> (r: Option<String>)
    ensures
        match r {
            Some(s) => repo_name_from(pairs_view(pairs@), body@) == Some(s@),
            None => repo_name_from(pairs_view(pairs@), body@) is None,
        },
{
    proof {
        reveal_strlit("payload");
        reveal_strlit("/repository/full_name");
    }
    let key = "payload";
    assert(key@ == payload_key());
    let pointer = "/repository/full_name";
    assert(pointer@ == full_name_pointer());
    match form_field(pairs, key) {
        Some(p) => json_string_at(p.as_str().as_bytes(), pointer),
        None => json_string_at(body, pointer),
    }
}

/// The repository identifier of a delivery body: decodes the body as a
/// form, then reads the embedded JSON document. `None` where the body holds
/// no identifier.
pub fn extract_repo_name(body: &[u8]) -> (r: Option<String>)
    ensures
        match r {
            Some(s) => repo_name_of(body@) == Some(s@),
            None => repo_name_of(body@) is None,
        },
{
    match decode_form(body) {
        Some(pairs) => repo_name_in(&pairs, body),
        None => None,
    }
}

} // verus!
