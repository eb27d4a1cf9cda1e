//! The request and the response of the line protocol, and the helpers that read a
//! request's inputs and build a response.
use vstd::prelude::*;
use vstd::utf8::*;
use crate::hexcodec::{HexError, hex_decode_spec, hex_error_text_spec, hex_decode, error_text};

verus! {

/// One request: the function to run, its byte inputs as hexadecimal text, and its
/// integer parameters, each by name. As in a map, no name occurs twice among the
/// inputs or among the parameters (`request_names_distinct`); the functions that
/// read a request ask for that.
pub struct Request {
    pub function: String,
    pub inputs: Vec<(String, String)>,
    pub params: Vec<(String, i64)>,
}

/// A request, its texts taken as character sequences.
pub struct RequestView {
    pub function: Seq<char>,
    pub inputs: Seq<(Seq<char>, Seq<char>)>,
    pub params: Seq<(Seq<char>, i64)>,
}

/// The texts of a list of named texts.
pub open spec fn texts_view(entries: Seq<(String, String)>) -> Seq<(Seq<char>, Seq<char>)> {
    entries.map_values(|e: (String, String)| (e.0@, e.1@))
}

impl View for Request {
    type V = RequestView;

    open spec fn view(&self) -> RequestView {
        RequestView {
            function: self.function@,
            inputs: texts_view(self.inputs@),
            params: self.params@.map_values(|e: (String, i64)| (e.0@, e.1)),
        }
    }
}

/// One response: the named outputs as hexadecimal text, or an error message, or
/// the mark that the function is not supported.
pub struct Response {
    pub outputs: Option<Vec<(String, String)>>,
    pub error: Option<String>,
    pub unsupported: bool,
}

/// A response, its texts taken as character sequences.
pub struct ResponseView {
    pub outputs: Option<Seq<(Seq<char>, Seq<char>)>>,
    pub error: Option<Seq<char>>,
    pub unsupported: bool,
}

impl View for Response {
    type V = ResponseView;

    open spec fn view(&self) -> ResponseView {
        ResponseView {
            outputs: match self.outputs {
                Some(o) => Some(texts_view(o@)),
                None => None,
            },
            error: match self.error {
                Some(e) => Some(e@),
                None => None,
            },
            unsupported: self.unsupported,
        }
    }
}

/// The response that carries outputs.
pub open spec fn ok_view(outputs: Seq<(Seq<char>, Seq<char>)>) -> ResponseView {
    ResponseView { outputs: Some(outputs), error: None, unsupported: false }
}

/// The response that carries an error message.
pub open spec fn err_view(msg: Seq<char>) -> ResponseView {
    ResponseView { outputs: None, error: Some(msg), unsupported: false }
}

/// The response to a function that is not supported.
pub open spec fn unsupported_view() -> ResponseView {
    ResponseView { outputs: None, error: None, unsupported: true }
}

/// Whether a response carries exactly one of: outputs, an error message, the mark
/// that the function is not supported; and its outputs, if any, have distinct
/// names.
pub open spec fn well_formed(v: ResponseView) -> bool {
    &&& {
        ||| (v.outputs is Some && v.error is None && !v.unsupported)
        ||| (v.outputs is None && v.error is Some && !v.unsupported)
        ||| (v.outputs is None && v.error is None && v.unsupported)
    }
    &&& v.outputs matches Some(o) ==> names_distinct(o)
}

/// The value of the first entry with the given name.
pub open spec fn entry_for<V>(entries: Seq<(Seq<char>, V)>, key: Seq<char>) -> Option<V>
    decreases entries.len(),
{
    if entries.len() == 0 {
        None
    } else if entries[0].0 == key {
        Some(entries[0].1)
    } else {
        entry_for(entries.drop_first(), key)
    }
}

/// Whether no two entries share a name, as in a map from names to values.
pub open spec fn names_distinct<V>(entries: Seq<(Seq<char>, V)>) -> bool {
    forall|i: int, j: int|
        0 <= i < j < entries.len() ==> #[trigger] entries[i].0 != #[trigger] entries[j].0
}

/// Whether a request's inputs, and its parameters, each have distinct names.
pub open spec fn request_names_distinct(r: RequestView) -> bool {
    names_distinct(r.inputs) && names_distinct(r.params)
}

/// When names are distinct, the entry for a name is the one entry with that name,
/// and there is none exactly when no entry has that name.
pub proof fn lemma_entry_for_is_the_entry<V>(entries: Seq<(Seq<char>, V)>, key: Seq<char>)
    requires
        names_distinct(entries),
    ensures
        forall|i: int|
            0 <= i < entries.len() && #[trigger] entries[i].0 == key ==> entry_for(entries, key)
                == Some(entries[i].1),
        entry_for(entries, key) is None <==> forall|i: int|
            0 <= i < entries.len() ==> #[trigger] entries[i].0 != key,
    decreases entries.len(),
{
    if entries.len() > 0 {
        let rest = entries.drop_first();
        assert(names_distinct(rest)) by {
            assert forall|i: int, j: int| 0 <= i < j < rest.len() implies #[trigger] rest[i].0
                != #[trigger] rest[j].0 by {
                assert(rest[i] == entries[i + 1] && rest[j] == entries[j + 1]);
            }
        }
        lemma_entry_for_is_the_entry(rest, key);
        assert forall|i: int| 0 <= i < entries.len() && #[trigger] entries[i].0 == key implies entry_for(
            entries,
            key,
        ) == Some(entries[i].1) by {
            if i > 0 {
                assert(rest[i - 1] == entries[i]);
                assert(entries[0].0 != entries[i].0);
            }
        }
        if entry_for(entries, key) is None {
            assert forall|i: int| 0 <= i < entries.len() implies #[trigger] entries[i].0 != key by {
                if i > 0 {
                    assert(rest[i - 1] == entries[i]);
                }
            }
        } else if entries[0].0 != key {
            let i = choose|i: int| 0 <= i < rest.len() && #[trigger] rest[i].0 == key;
            assert(entries[i + 1] == rest[i]);
        }
    }
}

/// The message for a missing input.
pub open spec fn missing_input_msg(key: Seq<char>) -> Seq<char> {
    "missing '"@ + key + "'"@
}

/// The message for a missing parameter.
pub open spec fn missing_param_msg(key: Seq<char>) -> Seq<char> {
    "missing param '"@ + key + "'"@
}

/// The message for an input that is not hexadecimal text.
pub open spec fn bad_hex_msg(key: Seq<char>, e: HexError) -> Seq<char> {
    "bad hex '"@ + key + "': "@ + hex_error_text_spec(e)
}

/// What reading a byte input gives: its bytes, or the error message.
pub open spec fn bytes_spec(r: RequestView, key: Seq<char>) -> Result<Seq<u8>, Seq<char>> {
    match entry_for(r.inputs, key) {
        None => Err(missing_input_msg(key)),
        Some(text) => match hex_decode_spec(encode_utf8(text)) {
            Ok(b) => Ok(b),
            Err(e) => Err(bad_hex_msg(key, e)),
        },
    }
}

/// The bytes of a byte input that is present and reads as hexadecimal text.
pub open spec fn input_bytes(r: RequestView, key: Seq<char>) -> Option<Seq<u8>> {
    match entry_for(r.inputs, key) {
        None => None,
        Some(text) => match hex_decode_spec(encode_utf8(text)) {
            Ok(b) => Some(b),
            Err(_) => None,
        },
    }
}

/// What reading an integer parameter gives: its value, or the error message.
pub open spec fn param_spec(r: RequestView, key: Seq<char>) -> Result<i64, Seq<char>> {
    match entry_for(r.params, key) {
        None => Err(missing_param_msg(key)),
        Some(v) => Ok(v),
    }
}

/// A byte read, its bytes and message taken by their views.
pub open spec fn bytes_result_view(r: Result<Vec<u8>, String>) -> Result<Seq<u8>, Seq<char>> {
    match r {
        Ok(v) => Ok(v@),
        Err(m) => Err(m@),
    }
}

/// A parameter read, its message taken by its view.
pub open spec fn param_result_view(r: Result<i64, String>) -> Result<i64, Seq<char>> {
    match r {
        Ok(v) => Ok(v),
        Err(m) => Err(m@),
    }
}

proof fn lemma_entry_for_skip<V>(entries: Seq<(Seq<char>, V)>, key: Seq<char>, i: int)
    requires
        0 <= i < entries.len(),
        entries[i].0 != key,
    ensures
        entry_for(entries.skip(i), key) == entry_for(entries.skip(i + 1), key),
{
    assert(entries.skip(i).drop_first() =~= entries.skip(i + 1));
}

/// The position of the first input with the given name.
fn find_input(entries: &Vec<(String, String)>, key: &String) -> (res: Option<usize>)
    ensures
        match res {
            Some(i) => i < entries.len() && entry_for(texts_view(entries@), key@) == Some(
                entries@[i as int].1@,
            ),
            None => entry_for(texts_view(entries@), key@) is None,
        },
{
    let ghost all = texts_view(entries@);
    let mut i: usize = 0;
    assert(all.skip(0) =~= all);
    while i < entries.len()
        invariant
            i <= entries.len(),
            all == texts_view(entries@),
            entry_for(all, key@) == entry_for(all.skip(i as int), key@),
        decreases entries.len() - i,
    {
        if entries[i].0 == *key {
            assert(all.skip(i as int)[0] == all[i as int]);
            return Some(i);
        }
        proof {
            lemma_entry_for_skip(all, key@, i as int);
        }
        i = i + 1;
    }
    None
}

/// The position of the first parameter with the given name.
fn find_param(entries: &Vec<(String, i64)>, key: &String) -> (res: Option<usize>)
    ensures
        match res {
            Some(i) => i < entries.len() && entry_for(
                entries@.map_values(|e: (String, i64)| (e.0@, e.1)),
                key@,
            ) == Some(entries@[i as int].1),
            None => entry_for(entries@.map_values(|e: (String, i64)| (e.0@, e.1)), key@) is None,
        },
{
    let ghost all = entries@.map_values(|e: (String, i64)| (e.0@, e.1));
    let mut i: usize = 0;
    assert(all.skip(0) =~= all);
    while i < entries.len()
        invariant
            i <= entries.len(),
            all == entries@.map_values(|e: (String, i64)| (e.0@, e.1)),
            entry_for(all, key@) == entry_for(all.skip(i as int), key@),
        decreases entries.len() - i,
    {
        if entries[i].0 == *key {
            assert(all.skip(i as int)[0] == all[i as int]);
            return Some(i);
        }
        proof {
            lemma_entry_for_skip(all, key@, i as int);
        }
        i = i + 1;
    }
    None
}

/// Reads a byte input: its hexadecimal text, decoded.
pub fn get_bytes(req: &Request, key: &str) -> (res: Result<Vec<u8>, String>)
    requires
        request_names_distinct(req@),
    ensures
        bytes_result_view(res) == bytes_spec(req@, key@),
        res is Ok <==> input_bytes(req@, key@) is Some,
        res matches Ok(b) ==> input_bytes(req@, key@) == Some(b@),
        forall|i: int|
            0 <= i < req@.inputs.len() && #[trigger] req@.inputs[i].0 == key@ ==> entry_for(
                req@.inputs,
                key@,
            ) == Some(req@.inputs[i].1),
{
    proof {
        lemma_entry_for_is_the_entry(req@.inputs, key@);
    }
    let name = String::from_str(key);
    match find_input(&req.inputs, &name) {
        None => {
            let mut msg = String::from_str("missing '");
            msg.append(key);
            msg.append("'");
            Err(msg)
        },
        Some(i) => {
            let text = req.inputs[i].1.as_str();
            match hex_decode(text.as_bytes()) {
                Ok(bytes) => Ok(bytes),
                Err(e) => {
                    let mut msg = String::from_str("bad hex '");
                    msg.append(key);
                    msg.append("': ");
                    let detail = error_text(&e);
                    msg.append(detail.as_str());
                    Err(msg)
                },
            }
        },
    }
}

/// Reads an integer parameter.
pub fn get_param(req: &Request, key: &str) -> (res: Result<i64, String>)
    requires
        request_names_distinct(req@),
    ensures
        param_result_view(res) == param_spec(req@, key@),
        forall|i: int|
            0 <= i < req@.params.len() && #[trigger] req@.params[i].0 == key@ ==> res == Ok::<
                i64,
                String,
            >(req@.params[i].1),
{
    proof {
        lemma_entry_for_is_the_entry(req@.params, key@);
    }
    let name = String::from_str(key);
    match find_param(&req.params, &name) {
        None => {
            let mut msg = String::from_str("missing param '");
            msg.append(key);
            msg.append("'");
            Err(msg)
        },
        Some(i) => Ok(req.params[i].1),
    }
}

/// The response that carries the given outputs.
pub fn ok(outputs: Vec<(String, String)>) -> (res: Response)
    ensures
        res@ == ok_view(texts_view(outputs@)),
{
    Response { outputs: Some(outputs), error: None, unsupported: false }
}

/// The response that carries the given error message.
pub fn err(msg: String) -> (res: Response)
    ensures
        res@ == err_view(msg@),
{
    Response { outputs: None, error: Some(msg), unsupported: false }
}

/// The response to a function that is not supported.
pub fn unsupported() -> (res: Response)
    ensures
        res@ == unsupported_view(),
{
    Response { outputs: None, error: None, unsupported: true }
}

} // verus!
