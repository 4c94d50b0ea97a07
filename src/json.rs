//! The JSON layer of the wire codec.
//!
//! serde_json does the JSON work: it splits a document into the fields of its
//! top-level object, each value kept as the exact text it had, and it reads and
//! writes string and integer literals. What serde_json returns is named here by
//! spec functions without a body; what is built on those results (framing an
//! object, and in `message` looking fields up and building messages) is
//! verified.
use vstd::prelude::*;
use vstd::string::*;

verus! {

/// A JSON object as the library sees it: field names with the raw JSON text
/// of each value, in order.
pub type FieldsView = Seq<(Seq<char>, Seq<char>)>;

#[verifier::external_type_specification]
#[verifier::external_body]
pub struct ExJsonError(serde_json::Error);

/// The fields of the top-level object of `text`, sorted by name, each value as
/// its raw JSON text; `None` where `text` is not one JSON object.
pub uninterp spec fn json_object_fields(text: Seq<char>) -> Option<FieldsView>;

/// The string that the JSON string literal `raw` denotes; `None` where `raw`
/// is no string literal.
pub uninterp spec fn json_string_value(raw: Seq<char>) -> Option<Seq<char>>;

/// The `i32` that the JSON number `raw` denotes; `None` where `raw` is no
/// integer literal or does not fit.
pub uninterp spec fn json_i32_value(raw: Seq<char>) -> Option<i32>;

/// The `i64` that the JSON number `raw` denotes; `None` where `raw` is no
/// integer literal or does not fit.
pub uninterp spec fn json_i64_value(raw: Seq<char>) -> Option<i64>;

/// The JSON string literal, quotes and escapes included, that stands for `s`.
pub uninterp spec fn json_quoted(s: Seq<char>) -> Seq<char>;

/// The view of fields held as strings.
pub open spec fn fields_view(v: Seq<(String, String)>) -> FieldsView {
    v.map_values(|p: (String, String)| (p.0@, p.1@))
}

/// Relies on `serde_json::from_str` into a `BTreeMap<String, Box<RawValue>>`:
/// it succeeds on a text that holds one JSON object (within serde_json's
/// nesting limit), and hands out its fields in name order, each value as the
/// text it had in `text`. The result depends on `text` alone.
#[verifier::external_body]
pub(crate) fn parse_object(text: &str) -> (r: Result<Vec<(String, String)>, serde_json::Error>)
    ensures
        r is Ok <==> json_object_fields(text@) is Some,
        r matches Ok(v) ==> fields_view(v@) == json_object_fields(text@)->0,
{
    serde_json::from_str::<std::collections::BTreeMap<String, Box<serde_json::value::RawValue>>>(
        text,
    ).map(|m| m.into_iter().map(|(k, v)| (k, v.get().to_string())).collect())
}

/// Relies on `serde_json::from_str::<String>`: the value of a JSON string literal.
#[verifier::external_body]
pub(crate) fn parse_string(raw: &str) -> (r: Option<String>)
    ensures
        r matches Some(s) ==> json_string_value(raw@) == Some(s@),
        r is None ==> json_string_value(raw@) is None,
{
    serde_json::from_str::<String>(raw).ok()
}

/// Relies on `serde_json::from_str::<i32>`: the value of a JSON integer literal.
#[verifier::external_body]
pub(crate) fn parse_i32(raw: &str) -> (r: Option<i32>)
    ensures
        r == json_i32_value(raw@),
{
    serde_json::from_str::<i32>(raw).ok()
}

/// Relies on `serde_json::from_str::<i64>`: the value of a JSON integer literal.
#[verifier::external_body]
pub(crate) fn parse_i64(raw: &str) -> (r: Option<i64>)
    ensures
        r == json_i64_value(raw@),
{
    serde_json::from_str::<i64>(raw).ok()
}

/// Relies on `serde_json::to_string` on a `str`: it writes the escaped string
/// literal into a `Vec`, which cannot fail, and serde_json reads that literal
/// back as the same string.
#[verifier::external_body]
pub(crate) fn quote(s: &str) -> (r: Result<String, serde_json::Error>)
    ensures
        r is Ok,
        r matches Ok(t) ==> t@ == json_quoted(s@) && json_string_value(t@) == Some(s@),
{
    serde_json::to_string(s)
}

/// The character of a decimal digit.
pub open spec fn digit_char(d: int) -> char {
    "0123456789"@[d]
}

/// Decimal digits of a natural number, most significant first.
pub open spec fn digits(n: nat) -> Seq<char>
    decreases n,
{
    if n < 10 {
        seq![digit_char(n as int)]
    } else {
        digits(n / 10) + seq![digit_char((n % 10) as int)]
    }
}

/// Decimal text of an integer, with a leading `-` when it is negative.
pub open spec fn decimal(n: int) -> Seq<char> {
    if n < 0 {
        seq!['-'] + digits((-n) as nat)
    } else {
        digits(n as nat)
    }
}

fn digit_text(d: u32) -> (r: String)
    requires
        d < 10,
    ensures
        r@ == seq![digit_char(d as int)],
{
    let all = "0123456789";
    proof {
        reveal_strlit("0123456789");
    }
    let one = all.substring_char(d as usize, d as usize + 1);
    assert(one@ =~= seq![digit_char(d as int)]);
    String::from_str(one)
}

fn digits_text(n: u32) -> (r: String)
    ensures
        r@ == digits(n as nat),
    decreases n,
{
    if n < 10 {
        digit_text(n)
    } else {
        let high = digits_text(n / 10);
        let low = digit_text(n % 10);
        high.concat(low.as_str())
    }
}

/// Formats `n` in decimal, as `{:?}` and `{}` write an integer.
pub fn decimal_text(n: i32) -> (r: String)
    ensures
        r@ == decimal(n as int),
{
    if n < 0 {
        let magnitude: u32 = (-(n as i64)) as u32;
        proof {
            reveal_strlit("-");
        }
        String::from_str("-").concat(digits_text(magnitude).as_str())
    } else {
        digits_text(n as u32)
    }
}

/// Relies on `serde_json::to_string` on an `i32`: it writes the number in
/// decimal into a `Vec`, which cannot fail, and serde_json reads that text
/// back as the same number.
#[verifier::external_body]
pub(crate) fn int_text(n: i32) -> (r: Result<String, serde_json::Error>)
    ensures
        r is Ok,
        r matches Ok(t) ==> t@ == decimal(n as int) && json_i32_value(t@) == Some(n),
{
    serde_json::to_string(&n)
}

/// The text of one `"name":value` member.
pub open spec fn member_text(field: (Seq<char>, Seq<char>)) -> Seq<char> {
    json_quoted(field.0) + seq![':'] + field.1
}

/// The members of an object, separated by commas.
pub open spec fn members_text(fields: FieldsView) -> Seq<char>
    decreases fields.len(),
{
    if fields.len() == 0 {
        Seq::empty()
    } else if fields.len() == 1 {
        member_text(fields[0])
    } else {
        members_text(fields.drop_last()) + seq![','] + member_text(fields.last())
    }
}

/// The compact JSON text of an object with these fields, in this order.
pub open spec fn object_text(fields: FieldsView) -> Seq<char> {
    seq!['{'] + members_text(fields) + seq!['}']
}

/// Writes the fields as one JSON object, in the order given, values verbatim.
pub fn write_object(fields: &Vec<(String, String)>) -> (r: Result<String, serde_json::Error>)
    ensures
        r is Ok,
        r matches Ok(t) ==> t@ == object_text(fields_view(fields@)),
{
    let mut body = String::new();
    let ghost view = fields_view(fields@);
    let mut i: usize = 0;
    while i < fields.len()
        invariant
            i <= fields.len(),
            view == fields_view(fields@),
            body@ == members_text(view.take(i as int)),
        decreases fields.len() - i,
    {
        let name = quote(fields[i].0.as_str());
        let name = match name {
            Ok(t) => t,
            Err(e) => return Err(e),
        };
        proof {
            reveal_strlit(",");
            reveal_strlit(":");
            assert(view.take(i as int + 1).drop_last() =~= view.take(i as int));
            assert(view.take(i as int + 1).last() == view[i as int]);
        }
        if i > 0 {
            body.append(",");
        }
        body.append(name.as_str());
        body.append(":");
        body.append(fields[i].1.as_str());
        proof {
            assert(member_text(view[i as int]) =~= name@ + seq![':'] + fields@[i as int].1@);
            if i == 0 {
                assert(view.take(1).len() == 1);
            }
            assert(body@ =~= members_text(view.take(i as int + 1)));
        }
        i = i + 1;
    }
    proof {
        assert(view.take(fields.len() as int) =~= view);
        reveal_strlit("{");
        reveal_strlit("}");
    }
    let open = String::from_str("{");
    let text = open.concat(body.as_str());
    Ok(text.concat("}"))
}

} // verus!
