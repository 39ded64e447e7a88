//! JSON text of request bodies, framed here and quoted by serde_json.
//!
//! Bodies are written as text: objects and arrays are framed by the verified
//! functions below, and string values are quoted and escaped by serde_json.
use vstd::prelude::*;
use vstd::string::StringExecFns;

verus! {

/// The JSON string literal that serde_json writes for a text: the text in
/// double quotes, with quotes, backslashes and control characters escaped.
pub uninterp spec fn json_quoted(s: Seq<char>) -> Seq<char>;

/// Relies on serde_json::to_string on a `str`: it writes the escaped string
/// literal into a `Vec<u8>`, which cannot fail.
#[verifier::external_body]
fn serde_quote(s: &str) -> (r: Result<String, serde_json::Error>)
    ensures
        r.is_ok(),
        r.is_ok() ==> r.unwrap()@ == json_quoted(s@),
{
    serde_json::to_string(s)
}

/// The JSON string literal of a text.
pub fn quote_json(s: &str) -> (r: String)
    ensures
        r@ == json_quoted(s@),
{
    match serde_quote(s) {
        Ok(t) => t,
        Err(_) => String::new(),
    }
}

/// A text between double quotes, as a JSON string literal of a text that
/// needs no escaping (field names, wire tokens).
pub open spec fn plain_quoted(s: Seq<char>) -> Seq<char> {
    seq!['"'] + s + seq!['"']
}

/// The items joined with commas in between.
pub open spec fn comma_joined(items: Seq<Seq<char>>) -> Seq<char>
    decreases items.len(),
{
    if items.len() == 0 {
        Seq::empty()
    } else if items.len() == 1 {
        items[0]
    } else {
        comma_joined(items.drop_last()) + seq![','] + items.last()
    }
}

/// A JSON array of the given element texts.
pub open spec fn array_text(items: Seq<Seq<char>>) -> Seq<char> {
    seq!['['] + comma_joined(items) + seq![']']
}

/// A JSON object of the given (key, value) entries; each key is a name that
/// needs no escaping, each value is JSON text.
pub open spec fn object_text(entries: Seq<(Seq<char>, Seq<char>)>) -> Seq<char> {
    seq!['{'] + comma_joined(entries.map_values(|e: (Seq<char>, Seq<char>)| member_text(e))) + seq!['}']
}

/// One member of a JSON object: the quoted key, a colon, the value.
pub open spec fn member_text(e: (Seq<char>, Seq<char>)) -> Seq<char> {
    plain_quoted(e.0) + seq![':'] + e.1
}

/// The texts of a vector of strings.
pub open spec fn texts(v: Seq<String>) -> Seq<Seq<char>> {
    v.map_values(|s: String| s@)
}

/// The (key, value) texts of a vector of entries.
pub open spec fn entry_texts(v: Seq<(String, String)>) -> Seq<(Seq<char>, Seq<char>)> {
    v.map_values(|e: (String, String)| (e.0@, e.1@))
}

/// Joins texts with commas.
pub fn join_commas(items: &Vec<String>) -> (r: String)
    ensures
        r@ == comma_joined(texts(items@)),
{
    let mut acc = String::new();
    let mut i: usize = 0;
    while i < items.len()
        invariant
            i <= items@.len(),
            acc@ == comma_joined(texts(items@.subrange(0, i as int))),
        decreases items@.len() - i,
    {
        let ghost prev = items@.subrange(0, i as int);
        let ghost next = items@.subrange(0, i + 1);
        assert(next.drop_last() =~= prev);
        assert(texts(next).drop_last() =~= texts(prev));
        assert(texts(next).last() == items@[i as int]@);
        assert(texts(next).len() == i + 1);
        if i > 0 {
            acc.append(",");
        }
        acc.append(items[i].as_str());
        proof {
            reveal_strlit(",");
            assert(acc@ =~= comma_joined(texts(next)));
        }
        i = i + 1;
    }
    assert(items@.subrange(0, items@.len() as int) =~= items@);
    acc
}

/// Writes a JSON array of element texts.
pub fn write_array(items: &Vec<String>) -> (r: String)
    ensures
        r@ == array_text(texts(items@)),
{
    let inner = join_commas(items);
    let r = String::from_str("[").concat(inner.as_str()).concat("]");
    proof {
        reveal_strlit("[");
        reveal_strlit("]");
        assert(r@ =~= array_text(texts(items@)));
    }
    r
}

/// Writes a name between double quotes.
pub fn write_plain_quoted(s: &str) -> (r: String)
    ensures
        r@ == plain_quoted(s@),
{
    let r = String::from_str("\"").concat(s).concat("\"");
    proof {
        reveal_strlit("\"");
        assert(r@ =~= plain_quoted(s@));
    }
    r
}

/// Writes a JSON object of (key, value text) entries.
pub fn write_object(entries: &Vec<(String, String)>) -> (r: String)
    ensures
        r@ == object_text(entry_texts(entries@)),
{
    let mut members: Vec<String> = Vec::new();
    let mut i: usize = 0;
    while i < entries.len()
        invariant
            i <= entries@.len(),
            members@.len() == i,
            forall|j: int| 0 <= j < i ==> #[trigger] members@[j]@ == member_text(
                (entries@[j].0@, entries@[j].1@),
            ),
        decreases entries@.len() - i,
    {
        let m = write_plain_quoted(entries[i].0.as_str()).concat(":").concat(entries[i].1.as_str());
        proof {
            reveal_strlit(":");
            assert(m@ =~= member_text((entries@[i as int].0@, entries@[i as int].1@)));
        }
        members.push(m);
        i = i + 1;
    }
    let inner = join_commas(&members);
    assert(texts(members@) =~= entry_texts(entries@).map_values(
        |e: (Seq<char>, Seq<char>)| member_text(e),
    ));
    let r = String::from_str("{").concat(inner.as_str()).concat("}");
    proof {
        reveal_strlit("{");
        reveal_strlit("}");
        assert(r@ =~= object_text(entry_texts(entries@)));
    }
    r
}

/// One member of a string-to-string object: both texts quoted by serde_json.
pub open spec fn string_member_text(e: (Seq<char>, Seq<char>)) -> Seq<char> {
    json_quoted(e.0) + seq![':'] + json_quoted(e.1)
}

/// A JSON object that maps each key to a string, in the given order.
pub open spec fn string_map_text(pairs: Seq<(Seq<char>, Seq<char>)>) -> Seq<char> {
    seq!['{'] + comma_joined(pairs.map_values(|e: (Seq<char>, Seq<char>)| string_member_text(e))) + seq!['}']
}

/// Writes a JSON object that maps each key to a string.
pub fn write_string_map(pairs: &Vec<(String, String)>) -> (r: String)
    ensures
        r@ == string_map_text(entry_texts(pairs@)),
{
    let mut members: Vec<String> = Vec::new();
    let mut i: usize = 0;
    while i < pairs.len()
        invariant
            i <= pairs@.len(),
            members@.len() == i,
            forall|j: int| 0 <= j < i ==> #[trigger] members@[j]@ == string_member_text(
                (pairs@[j].0@, pairs@[j].1@),
            ),
        decreases pairs@.len() - i,
    {
        let m = quote_json(pairs[i].0.as_str()).concat(":").concat(quote_json(pairs[i].1.as_str()).as_str());
        proof {
            reveal_strlit(":");
            assert(m@ =~= string_member_text((pairs@[i as int].0@, pairs@[i as int].1@)));
        }
        members.push(m);
        i = i + 1;
    }
    let inner = join_commas(&members);
    assert(texts(members@) =~= entry_texts(pairs@).map_values(
        |e: (Seq<char>, Seq<char>)| string_member_text(e),
    ));
    let r = String::from_str("{").concat(inner.as_str()).concat("}");
    proof {
        reveal_strlit("{");
        reveal_strlit("}");
        assert(r@ =~= string_map_text(entry_texts(pairs@)));
    }
    r
}

} // verus!
