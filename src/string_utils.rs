use vstd::prelude::*;
use vstd::string::*;

verus! {

/// Characters from several scripts and symbol blocks, for exercising text
/// handling with input far from ASCII.
pub const TROUBLE_CHARS: &'static str = "ยฅเธฟ๐๐๐๐๐๐๐๐๐๐๐๐๐๐๐๐๐๐๐๐๐๐๐๐๐๐๐๐๐๐๐๐๐ ๐ก๐ข๐ฃ๐ค๐ฅ๐ฆ๐ง๐จ๐ฉ๐ช๐ซ๐ฌ๐ญ๐ฎ๐ฏ๐ฐ๐ฑ๐ฒ๐ณ๐ด๐ต๐ถ๐ท๐ธ๐น๐บ๐ป๐ผ๐ฝ๐พ๐ฟ๐๐๐๐๐๐๐๐๐๐๐๐๐๐๐๐เคเคเคเคเคเคเคเคเคเคเคเคเคเคเคเคเคเคเคเคเคเคเคเคเคเคเคเคเคเคเคเคเค เคกเคขเคฃเคคเคฅเคฆเคงเคจเคฉเคชเคซเคฌเคญเคฎเคฏเคฐโฌโญโฎโฏโฐโฑโฒโณโดโตโถโทโธโนโบโปโผโฝโพโฟโ";

/// `input` with `with` on both sides.
pub fn enclose(input: &str, with: &str) -> (r: String)
    ensures
        r@ == with@ + input@ + with@,
{
    String::from_str(with).concat(input).concat(with)
}

/// Each item of `input`, enclosed in `with`.
pub fn enclose_all(input: Vec<&str>, with: &str) -> (r: Vec<String>)
    ensures
        r@.len() == input@.len(),
        forall|i: int| 0 <= i < r@.len() ==> (#[trigger] r@[i])@ == with@ + input@[i]@ + with@,
{
    let mut out: Vec<String> = Vec::new();
    let mut i: usize = 0;
    while i < input.len()
        invariant
            i <= input@.len(),
            out@.len() == i,
            forall|k: int| 0 <= k < i ==> (#[trigger] out@[k])@ == with@ + input@[k]@ + with@,
        decreases input@.len() - i,
    {
        out.push(enclose(input[i], with));
        i = i + 1;
    }
    out
}

/// The display text of each item of `input`.
pub fn stringify<T: std::fmt::Display>(input: Vec<T>) -> (r: Vec<String>)
    ensures
        r@.len() == input@.len(),
        forall|i: int|
            0 <= i < r@.len() ==> to_string_from_display_ensures::<T>(&input@[i], #[trigger] r@[i]),
{
    let mut out: Vec<String> = Vec::new();
    let mut i: usize = 0;
    while i < input.len()
        invariant
            i <= input@.len(),
            out@.len() == i,
            forall|k: int|
                0 <= k < i ==> to_string_from_display_ensures::<T>(&input@[k], #[trigger] out@[k]),
        decreases input@.len() - i,
    {
        out.push(input[i].to_string());
        i = i + 1;
    }
    out
}

/// `s` with a backslash put before every double quote.
pub open spec fn escaped(s: Seq<char>) -> Seq<char>
    decreases s.len(),
{
    if s.len() == 0 {
        Seq::empty()
    } else if s.last() == '"' {
        escaped(s.drop_last()) + seq!['\\', '"']
    } else {
        escaped(s.drop_last()).push(s.last())
    }
}

/// Puts a backslash before every double quote of `s`.
pub fn escape_quotes(s: &str) -> (r: String)
    ensures
        r@ == escaped(s@),
{
    let n = s.unicode_len();
    let mut out = String::new();
    let mut i: usize = 0;
    while i < n
        invariant
            n == s@.len(),
            i <= n,
            out@ == escaped(s@.subrange(0, i as int)),
        decreases n - i,
    {
        let c = s.get_char(i);
        proof {
            assert(s@.subrange(0, i + 1).drop_last() =~= s@.subrange(0, i as int));
            reveal_strlit("\\\"");
        }
        if c == '"' {
            out.append("\\\"");
        } else {
            out.append(s.substring_char(i, i + 1));
            assert(s@.subrange(i as int, i + 1) =~= seq![c]);
        }
        i = i + 1;
    }
    assert(s@.subrange(0, n as int) =~= s@);
    out
}

/// A quoted argument of a mutation: the text, escaped, between double quotes.
pub open spec fn quoted(s: Seq<char>) -> Seq<char> {
    seq!['"'] + escaped(s) + seq!['"']
}

pub open spec fn query_raw_text(query: Seq<char>, params: Seq<char>) -> Seq<char> {
    "mutation { queryRaw(query: "@ + quoted(query) + ", parameters: "@ + quoted(params) + ") }"@
}

pub open spec fn execute_raw_text(query: Seq<char>, params: Seq<char>) -> Seq<char> {
    "mutation { executeRaw(query: "@ + quoted(query) + ", parameters: "@ + quoted(params) + ") }"@
}

fn quote(s: &str) -> (r: String)
    ensures
        r@ == quoted(s@),
{
    proof {
        reveal_strlit("\"");
    }
    let mut out = String::from_str("\"");
    out.append(escape_quotes(s).as_str());
    out.append("\"");
    out
}

#[verifier::external_type_specification]
#[verifier::external_body]
pub struct ExJsonValue(serde_json::Value);

/// The compact JSON text of an array of values, as serde_json writes it.
pub uninterp spec fn json_array_text(values: Seq<serde_json::Value>) -> Seq<char>;

/// Relies on serde_json::to_string: the compact JSON text of the array
/// `values`. Serialising a `Value` into memory cannot fail (its map keys are
/// strings and its numbers finite), so the `Err` arm never occurs.
#[verifier::external_body]
fn json_text(values: &Vec<serde_json::Value>) -> (r: String)
    ensures
        r@ == json_array_text(values@),
{
    serde_json::to_string(values).unwrap()
}

/// The raw query mutation for `query` and its parameters.
pub fn fmt_query_raw(query: &str, params: Vec<serde_json::Value>) -> (r: String)
    ensures
        r@ == query_raw_text(query@, json_array_text(params@)),
{
    let text = json_text(&params);
    fmt_query_raw_text(query, text.as_str())
}

/// A parameter of a raw command: a date, as its RFC 3339 text, or any JSON
/// value.
pub enum RawParam {
    DateTime(String),
    Json(serde_json::Value),
}

/// The JSON string value holding `s`.
pub uninterp spec fn json_string_value(s: Seq<char>) -> serde_json::Value;

/// Relies on `serde_json::Value::String`: the JSON string holding `s`.
#[verifier::external_body]
fn string_value(s: &str) -> (r: serde_json::Value)
    ensures
        r == json_string_value(s@),
{
    serde_json::Value::String(s.to_string())
}

/// The JSON object with the entries `(k1, v1)` and `(k2, v2)`.
pub uninterp spec fn json_object_of(
    k1: Seq<char>,
    v1: serde_json::Value,
    k2: Seq<char>,
    v2: serde_json::Value,
) -> serde_json::Value;

/// Relies on `FromIterator` for `serde_json::Map`: the object built from the
/// entries `(k1, v1)` and `(k2, v2)`.
#[verifier::external_body]
fn object_value(k1: &str, v1: serde_json::Value, k2: &str, v2: serde_json::Value) -> (r:
    serde_json::Value)
    ensures
        r == json_object_of(k1@, v1, k2@, v2),
{
    serde_json::Value::Object(serde_json::Map::from_iter([(k1.to_string(), v1), (k2.to_string(), v2)]))
}

/// How a date travels in a raw command: an object that tags it as a date and
/// holds its RFC 3339 text.
pub open spec fn date_parameter_value(rfc3339: Seq<char>) -> serde_json::Value {
    json_object_of(
        "prisma__type"@,
        json_string_value("date"@),
        "prisma__value"@,
        json_string_value(rfc3339),
    )
}

pub open spec fn raw_param_value(p: RawParam) -> serde_json::Value {
    match p {
        RawParam::DateTime(t) => date_parameter_value(t@),
        RawParam::Json(v) => v,
    }
}

/// The JSON value that carries `p` in a raw command.
pub fn raw_param_to_json(p: RawParam) -> (r: serde_json::Value)
    ensures
        r == raw_param_value(p),
{
    match p {
        RawParam::DateTime(t) => object_value(
            "prisma__type",
            string_value("date"),
            "prisma__value",
            string_value(t.as_str()),
        ),
        RawParam::Json(v) => v,
    }
}

/// The raw command mutation for `query` and its parameters; dates are sent
/// as tagged objects.
pub fn fmt_execute_raw(query: &str, params: Vec<RawParam>) -> (r: String)
    ensures
        r@ == execute_raw_text(
            query@,
            json_array_text(params@.map_values(|p: RawParam| raw_param_value(p))),
        ),
{
    let ghost orig = params@;
    let mut rest = params;
    let mut values: Vec<serde_json::Value> = Vec::new();
    while rest.len() > 0
        invariant
            values@.len() + rest@.len() == orig.len(),
            rest@ == orig.subrange(values@.len() as int, orig.len() as int),
            values@ == orig.subrange(0, values@.len() as int).map_values(
                |p: RawParam| raw_param_value(p),
            ),
        decreases rest@.len(),
    {
        let ghost k = values@.len() as int;
        let p = rest.remove(0);
        assert(p == orig[k]);
        values.push(raw_param_to_json(p));
        assert(rest@ =~= orig.subrange(k + 1, orig.len() as int));
        assert(values@ =~= orig.subrange(0, k + 1).map_values(|p: RawParam| raw_param_value(p)));
    }
    assert(values@ =~= orig.map_values(|p: RawParam| raw_param_value(p)));
    let text = json_text(&values);
    fmt_execute_raw_text(query, text.as_str())
}

/// The raw query mutation for `query`, with its parameters given as JSON text.
pub fn fmt_query_raw_text(query: &str, params_json: &str) -> (r: String)
    ensures
        r@ == query_raw_text(query@, params_json@),
{
    proof {
        reveal_strlit("mutation { queryRaw(query: ");
        reveal_strlit(", parameters: ");
        reveal_strlit(") }");
    }
    let mut out = String::from_str("mutation { queryRaw(query: ");
    out.append(quote(query).as_str());
    out.append(", parameters: ");
    out.append(quote(params_json).as_str());
    out.append(") }");
    out
}

/// The raw command mutation for `query`, with its parameters given as JSON text.
pub fn fmt_execute_raw_text(query: &str, params_json: &str) -> (r: String)
    ensures
        r@ == execute_raw_text(query@, params_json@),
{
    proof {
        reveal_strlit("mutation { executeRaw(query: ");
        reveal_strlit(", parameters: ");
        reveal_strlit(") }");
    }
    let mut out = String::from_str("mutation { executeRaw(query: ");
    out.append(quote(query).as_str());
    out.append(", parameters: ");
    out.append(quote(params_json).as_str());
    out.append(") }");
    out
}

} // verus!
