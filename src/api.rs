//! The service's HTTP contract: the body of a completion request, and what
//! the replies of the completion and listing addresses mean.
use vstd::prelude::*;
use vstd::string::*;
use crate::service::{HttpOutcome, is_success};
use crate::text::views;

verus! {

/// The lowercase hexadecimal digit of `n`, below 16.
pub open spec fn hex_digit(n: int) -> char {
    seq!['0', '1', '2', '3', '4', '5', '6', '7', '8', '9', 'a', 'b', 'c', 'd', 'e', 'f'][n]
}

/// How serde_json writes `c` inside a string literal: `"` and `\` and the
/// control characters below U+0020 escaped (by their short form where JSON
/// has one, else as `\u00xx`), every other character as itself.
pub open spec fn json_escape_char(c: char) -> Seq<char> {
    let u = c as u32;
    if c == '"' {
        seq!['\\', '"']
    } else if c == '\\' {
        seq!['\\', '\\']
    } else if u == 0x08 {
        seq!['\\', 'b']
    } else if u == 0x09 {
        seq!['\\', 't']
    } else if u == 0x0A {
        seq!['\\', 'n']
    } else if u == 0x0C {
        seq!['\\', 'f']
    } else if u == 0x0D {
        seq!['\\', 'r']
    } else if u < 0x20 {
        seq!['\\', 'u', '0', '0', hex_digit(u as int / 16), hex_digit(u as int % 16)]
    } else {
        seq![c]
    }
}

/// The characters of `s`, each as serde_json writes it in a string literal.
pub open spec fn json_escaped(s: Seq<char>) -> Seq<char>
    decreases s.len(),
{
    if s.len() == 0 {
        Seq::empty()
    } else {
        json_escaped(s.drop_last()) + json_escape_char(s.last())
    }
}

/// The JSON string literal that serde_json writes for `s`.
pub open spec fn json_string_literal(s: Seq<char>) -> Seq<char> {
    seq!['"'] + json_escaped(s) + seq!['"']
}

/// Relies on serde_json's `Display` of a `Value::String`, which writes the
/// text in double quotes with serde_json's escape table applied.
#[verifier::external_body]
fn json_quote(s: &str) -> (r: String)
    ensures
        r@ == json_string_literal(s@),
{
    serde_json::Value::String(s.to_string()).to_string()
}

/// The fields of a completion reply as executable values: `response` where
/// it is a string, `done` where it is a boolean, and `context` where it is
/// there (as a list of `i32`, `null`, or the error of reading it as one).
pub type ReplyFields = (Option<String>, Option<bool>, Option<Result<Option<Vec<i32>>, String>>);

/// The same fields, over views.
pub type ReplyFieldsView = (Option<Seq<char>>, Option<bool>, Option<Result<Option<Seq<i32>>, Seq<char>>>);

/// A name for what serde_json finds in a completion reply: its fields, or
/// the parser's error where the text is not JSON.
pub uninterp spec fn generate_reply_fields(body: Seq<char>) -> Result<ReplyFieldsView, Seq<char>>;

/// A name for what serde_json finds in a listing reply: for each entry of the
/// `models` array (`None` where there is no such array), its `name` where
/// that is a string; or the parser's error where the text is not JSON.
pub uninterp spec fn tags_reply_entries(body: Seq<char>) -> Result<
    Option<Seq<Option<Seq<char>>>>,
    Seq<char>,
>;

pub open spec fn opt_text(o: Option<String>) -> Option<Seq<char>> {
    match o {
        Some(s) => Some(s@),
        None => None,
    }
}

pub open spec fn context_view(c: Option<Result<Option<Vec<i32>>, String>>) -> Option<
    Result<Option<Seq<i32>>, Seq<char>>,
> {
    match c {
        None => None,
        Some(Ok(None)) => Some(Ok(None)),
        Some(Ok(Some(v))) => Some(Ok(Some(v@))),
        Some(Err(e)) => Some(Err(e@)),
    }
}

pub open spec fn fields_view(f: Result<ReplyFields, String>) -> Result<ReplyFieldsView, Seq<char>> {
    match f {
        Ok((t, d, c)) => Ok((opt_text(t), d, context_view(c))),
        Err(e) => Err(e@),
    }
}

pub open spec fn entries_view(v: Seq<Option<String>>) -> Seq<Option<Seq<char>>> {
    v.map_values(|o: Option<String>| opt_text(o))
}

pub open spec fn result_text(r: Result<String, String>) -> Result<Seq<char>, Seq<char>> {
    match r {
        Ok(s) => Ok(s@),
        Err(e) => Err(e@),
    }
}

/// Relies on `serde_json::from_str` into a `Value`, then `Value::get`,
/// `as_str` and `as_bool` on the `response` and `done` fields, and
/// `serde_json::from_value` of the `context` field into `Option<Vec<i32>>`;
/// the errors are serde_json's messages.
#[verifier::external_body]
fn read_generate_reply(body: &str) -> (r: Result<ReplyFields, String>)
    ensures
        fields_view(r) == generate_reply_fields(body@),
{
    match serde_json::from_str::<serde_json::Value>(body) {
        Ok(v) => Ok((
            v.get("response").and_then(|x| x.as_str()).map(|x| x.to_string()),
            v.get("done").and_then(|x| x.as_bool()),
            v.get("context").map(|c| {
                serde_json::from_value::<Option<Vec<i32>>>(c.clone()).map_err(|e| e.to_string())
            }),
        )),
        Err(e) => Err(e.to_string()),
    }
}

/// Relies on `serde_json::from_str` into a `Value`, then `Value::get` and
/// `as_array` on `models` and `as_str` on each entry's `name`; the error is
/// the parser's message.
#[verifier::external_body]
fn read_tags_reply(body: &str) -> (r: Result<Option<Vec<Option<String>>>, String>)
    ensures
        match r {
            Ok(Some(v)) => tags_reply_entries(body@) == Ok::<Option<Seq<Option<Seq<char>>>>, Seq<char>>(Some(entries_view(v@))),
            Ok(None) => tags_reply_entries(body@) == Ok::<Option<Seq<Option<Seq<char>>>>, Seq<char>>(None),
            Err(e) => tags_reply_entries(body@) == Err::<Option<Seq<Option<Seq<char>>>>, Seq<char>>(e@),
        },
{
    match serde_json::from_str::<serde_json::Value>(body) {
        Ok(v) => Ok(v.get("models").and_then(|m| m.as_array()).map(|ms| {
            ms.iter().map(|m| m.get("name").and_then(|n| n.as_str()).map(|n| n.to_string())).collect()
        })),
        Err(e) => Err(e.to_string()),
    }
}

/// The body of a request to complete a prompt.
#[derive(Clone, Debug)]
pub struct QueryRequest {
    pub model: String,
    pub prompt: String,
    pub stream: bool,
}

/// The JSON text of a completion request, its keys in serde_json's order.
pub open spec fn request_json(model: Seq<char>, prompt: Seq<char>, stream: bool) -> Seq<char> {
    "{\"model\":"@ + json_string_literal(model) + ",\"prompt\":"@ + json_string_literal(prompt)
        + ",\"stream\":"@ + (if stream {
        "true"@
    } else {
        "false"@
    }) + "}"@
}

impl QueryRequest {
    /// A request for a whole reply at once, not a stream.
    pub fn new(model: String, prompt: String) -> (r: Self)
        ensures
            r.model == model,
            r.prompt == prompt,
            !r.stream,
    {
        QueryRequest { model, prompt, stream: false }
    }

    /// The request as JSON text.
    pub fn to_json(&self) -> (r: String)
        ensures
            r@ == request_json(self.model@, self.prompt@, self.stream),
    {
        let m = json_quote(self.model.as_str());
        let p = json_quote(self.prompt.as_str());
        let s = if self.stream {
            "true"
        } else {
            "false"
        };
        String::from_str("{\"model\":").concat(m.as_str()).concat(",\"prompt\":").concat(
            p.as_str(),
        ).concat(",\"stream\":").concat(s).concat("}")
    }
}

/// A completion reply.
#[derive(Clone, Debug)]
pub struct OllamaResponse {
    pub response: String,
    pub done: bool,
    /// The conversation context, where the reply has one.
    pub context: Option<Vec<i32>>,
}

/// What a completion reply's fields make of it: `response` and `done` must
/// be there, and a `context` that is there must be a list of `i32` or null.
pub open spec fn reply_from_fields(fields: Result<ReplyFieldsView, Seq<char>>) -> Result<
    (Seq<char>, bool, Option<Seq<i32>>),
    Seq<char>,
> {
    match fields {
        Err(e) => Err(e),
        Ok((None, _, _)) => Err("missing field `response`"@),
        Ok((Some(_), None, _)) => Err("missing field `done`"@),
        Ok((Some(_), Some(_), Some(Err(e)))) => Err(e),
        Ok((Some(t), Some(d), None)) => Ok((t, d, None)),
        Ok((Some(t), Some(d), Some(Ok(c)))) => Ok((t, d, c)),
    }
}

pub open spec fn reply_matches(
    expected: Result<(Seq<char>, bool, Option<Seq<i32>>), Seq<char>>,
    r: Result<OllamaResponse, String>,
) -> bool {
    match expected {
        Ok((t, d, c)) => r matches Ok(resp) && resp.response@ == t && resp.done == d && match c {
            None => resp.context is None,
            Some(cv) => resp.context matches Some(v) && v@ == cv,
        },
        Err(e) => r matches Err(m) && m@ == e,
    }
}

/// The reply that the fields found in a completion reply make up.
pub fn generate_reply_from_fields(fields: Result<ReplyFields, String>) -> (r: Result<OllamaResponse, String>)
    ensures
        reply_matches(reply_from_fields(fields_view(fields)), r),
{
    match fields {
        Err(e) => Err(e),
        Ok((None, _, _)) => Err(String::from_str("missing field `response`")),
        Ok((Some(_), None, _)) => Err(String::from_str("missing field `done`")),
        Ok((Some(_), Some(_), Some(Err(e)))) => Err(e),
        Ok((Some(t), Some(d), None)) => Ok(OllamaResponse { response: t, done: d, context: None }),
        Ok((Some(t), Some(d), Some(Ok(c)))) => Ok(OllamaResponse { response: t, done: d, context: c }),
    }
}

/// The reply in a completion reply's body.
pub fn parse_generate_reply(body: &str) -> (r: Result<OllamaResponse, String>)
    ensures
        reply_matches(reply_from_fields(generate_reply_fields(body@)), r),
{
    generate_reply_from_fields(read_generate_reply(body))
}

/// What a completion request came to: the reply's text, or why there is none.
pub open spec fn query_result(outcome: HttpOutcome) -> Result<Seq<char>, Seq<char>> {
    match outcome {
        HttpOutcome::TimedOut => Err("Query timeout (30s)"@),
        HttpOutcome::TransportError(m) => Err("Network error: "@ + m@),
        HttpOutcome::Reply { status, status_text, body } => if is_success(status) {
            match reply_from_fields(generate_reply_fields(body@)) {
                Ok((t, _, _)) => Ok(t),
                Err(e) => Err("Failed to parse Ollama response: "@ + e),
            }
        } else {
            Err("Ollama API error "@ + status_text@ + ": "@ + body@)
        },
    }
}

/// The text that a completion request produced, from what came of it.
pub fn query_ollama(outcome: &HttpOutcome) -> (r: Result<String, String>)
    ensures
        result_text(r) == query_result(*outcome),
{
    match outcome {
        HttpOutcome::TimedOut => Err(String::from_str("Query timeout (30s)")),
        HttpOutcome::TransportError(m) => Err(String::from_str("Network error: ").concat(m.as_str())),
        HttpOutcome::Reply { status, status_text, body } => {
            if 200 <= *status && *status <= 299 {
                match parse_generate_reply(body.as_str()) {
                    Ok(resp) => Ok(resp.response),
                    Err(e) => Err(String::from_str("Failed to parse Ollama response: ").concat(e.as_str())),
                }
            } else {
                Err(String::from_str("Ollama API error ").concat(status_text.as_str()).concat(": ").concat(body.as_str()))
            }
        },
    }
}

/// The names among the entries, in order, skipping entries without one.
pub open spec fn present_names(es: Seq<Option<Seq<char>>>) -> Seq<Seq<char>>
    decreases es.len(),
{
    if es.len() == 0 {
        Seq::empty()
    } else {
        let rest = present_names(es.drop_last());
        match es.last() {
            Some(n) => rest.push(n),
            None => rest,
        }
    }
}

/// The model names in the entries of a listing reply.
pub fn installed_names(entries: &Vec<Option<String>>) -> (r: Vec<String>)
    ensures
        views(r@) == present_names(entries_view(entries@)),
{
    let mut out: Vec<String> = Vec::new();
    let mut i: usize = 0;
    while i < entries.len()
        invariant
            i <= entries@.len(),
            views(out@) == present_names(entries_view(entries@.take(i as int))),
        decreases entries@.len() - i,
    {
        let ghost before = out@;
        assert(entries@.take(i + 1).drop_last() =~= entries@.take(i as int));
        assert(entries_view(entries@.take(i + 1)).drop_last() =~= entries_view(entries@.take(i as int)));
        match &entries[i] {
            Some(n) => {
                out.push(n.clone());
                assert(views(out@) =~= views(before).push(n@));
            },
            None => {},
        }
        i = i + 1;
    }
    assert(entries@.take(entries@.len() as int) =~= entries@);
    out
}

/// What a listing request came to: the installed models' names, or why
/// there are none.
pub open spec fn listing_result(outcome: HttpOutcome) -> Result<Seq<Seq<char>>, Seq<char>> {
    match outcome {
        HttpOutcome::TimedOut => Err("Request timeout"@),
        HttpOutcome::TransportError(m) => Err("Network error: "@ + m@),
        HttpOutcome::Reply { status, status_text, body } => if is_success(status) {
            match tags_reply_entries(body@) {
                Err(e) => Err("Failed to parse models list: "@ + e),
                Ok(None) => Ok(Seq::empty()),
                Ok(Some(es)) => Ok(present_names(es)),
            }
        } else {
            Err("Failed to get models list: "@ + status_text@)
        },
    }
}

/// The installed models, from what came of a request to the listing address.
pub fn list_installed_models(outcome: &HttpOutcome) -> (r: Result<Vec<String>, String>)
    ensures
        match r {
            Ok(v) => listing_result(*outcome) == Ok::<Seq<Seq<char>>, Seq<char>>(views(v@)),
            Err(e) => listing_result(*outcome) == Err::<Seq<Seq<char>>, Seq<char>>(e@),
        },
{
    match outcome {
        HttpOutcome::TimedOut => Err(String::from_str("Request timeout")),
        HttpOutcome::TransportError(m) => Err(String::from_str("Network error: ").concat(m.as_str())),
        HttpOutcome::Reply { status, status_text, body } => {
            if 200 <= *status && *status <= 299 {
                match read_tags_reply(body.as_str()) {
                    Err(e) => Err(String::from_str("Failed to parse models list: ").concat(e.as_str())),
                    Ok(None) => {
                        let v: Vec<String> = Vec::new();
                        assert(views(v@) =~= Seq::<Seq<char>>::empty());
                        Ok(v)
                    },
                    Ok(Some(es)) => Ok(installed_names(&es)),
                }
            } else {
                Err(String::from_str("Failed to get models list: ").concat(status_text.as_str()))
            }
        },
    }
}

} // verus!
