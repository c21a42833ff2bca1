//! The message shapes read from a JSON value: a unit variant only as the
//! string of its tag; a variant with a field only as a one-member object whose
//! value is an object with exactly one member, that field; an envelope as an
//! object with `uuid` and the payload's key, other keys ignored.
use vstd::prelude::*;
use crate::codec::{word_ok, word_ping, word_pong, word_restart, word_shutdown};
use crate::ident::{uuid_value_of, Uuid};
use crate::json::Json;
use crate::message::{Command, CommandView, DecodeError, Response, ResponseView, WrappedCommand, WrappedResponse};
use crate::number::{number_value, Number};
use crate::text::{chars_of, equals_at};

verus! {

pub open spec fn word_add() -> Seq<char> {
    seq!['A', 'd', 'd', 'S', 'M', 'A']
}

pub open spec fn word_remove() -> Seq<char> {
    seq!['R', 'e', 'm', 'o', 'v', 'e', 'S', 'M', 'A']
}

pub open spec fn word_error() -> Seq<char> {
    seq!['E', 'r', 'r', 'o', 'r']
}

pub open spec fn word_period() -> Seq<char> {
    seq!['p', 'e', 'r', 'i', 'o', 'd']
}

pub open spec fn word_status() -> Seq<char> {
    seq!['s', 't', 'a', 't', 'u', 's']
}

pub open spec fn word_uuid() -> Seq<char> {
    seq!['u', 'u', 'i', 'd']
}

pub open spec fn word_cmd() -> Seq<char> {
    seq!['c', 'm', 'd']
}

pub open spec fn word_res() -> Seq<char> {
    seq!['r', 'e', 's']
}

/// The value of the first member of `m` named `key`.
pub open spec fn lookup(m: Seq<(String, Json)>, key: Seq<char>) -> Option<Json>
    decreases m.len(),
{
    if m.len() == 0 {
        None
    } else if m[0].0@ == key {
        Some(m[0].1)
    } else {
        lookup(m.skip(1), key)
    }
}

/// The field `field` of a variant's payload, an object whose one member is
/// that field.
pub open spec fn field_of(v: Json, field: Seq<char>) -> Option<Json> {
    match v {
        Json::Object(f) => if f@.len() == 1 && f@[0].0@ == field {
            Some(f@[0].1)
        } else {
            None
        },
        _ => None,
    }
}

/// The period of an SMA variant's payload, as the number's canonical text.
pub open spec fn period_of(v: Json) -> Option<Seq<char>> {
    match field_of(v, word_period()) {
        Some(Json::Number(n)) => number_value(n@),
        _ => None,
    }
}

/// The status of an error variant's payload.
pub open spec fn status_of(v: Json) -> Option<Seq<char>> {
    match field_of(v, word_status()) {
        Some(Json::Str(s)) => Some(s@),
        _ => None,
    }
}

/// The command tagged `tag` with payload `v`: a variant with a field.
pub open spec fn tagged_command(tag: Seq<char>, v: Json) -> Option<CommandView> {
    if tag == word_add() && period_of(v) is Some {
        Some(CommandView::AddSMA { period: period_of(v)->0 })
    } else if tag == word_remove() && period_of(v) is Some {
        Some(CommandView::RemoveSMA { period: period_of(v)->0 })
    } else {
        None
    }
}

/// The command that the JSON value `j` holds, if any.
pub open spec fn command_of_json(j: Json) -> Option<CommandView> {
    match j {
        Json::Str(t) => if t@ == word_ping() {
            Some(CommandView::Ping)
        } else if t@ == word_restart() {
            Some(CommandView::Restart)
        } else if t@ == word_shutdown() {
            Some(CommandView::Shutdown)
        } else {
            None
        },
        Json::Object(m) => if m@.len() == 1 {
            tagged_command(m@[0].0@, m@[0].1)
        } else {
            None
        },
        _ => None,
    }
}

/// The response tagged `tag` with payload `v`: a variant with a field.
pub open spec fn tagged_response(tag: Seq<char>, v: Json) -> Option<ResponseView> {
    if tag == word_error() && status_of(v) is Some {
        Some(ResponseView::Error { status: status_of(v)->0 })
    } else {
        None
    }
}

/// The response that the JSON value `j` holds, if any.
pub open spec fn response_of_json(j: Json) -> Option<ResponseView> {
    match j {
        Json::Str(t) => if t@ == word_ok() {
            Some(ResponseView::Okay)
        } else if t@ == word_pong() {
            Some(ResponseView::Pong)
        } else {
            None
        },
        Json::Object(m) => if m@.len() == 1 {
            tagged_response(m@[0].0@, m@[0].1)
        } else {
            None
        },
        _ => None,
    }
}

/// The identifier of the envelope `j`: `SchemaMismatch` where `j` is no
/// object or its `uuid` is missing or no string, `InvalidIdentifier` where
/// that string is no UUID text.
pub open spec fn envelope_id(j: Json) -> Result<u128, DecodeError> {
    match j {
        Json::Object(m) => match lookup(m@, word_uuid()) {
            Some(Json::Str(u)) => match uuid_value_of(u@) {
                Some(v) => Ok(v as u128),
                None => Err(DecodeError::InvalidIdentifier),
            },
            _ => Err(DecodeError::SchemaMismatch),
        },
        _ => Err(DecodeError::SchemaMismatch),
    }
}

/// The member `key` of the object `j`.
pub open spec fn member(j: Json, key: Seq<char>) -> Option<Json> {
    match j {
        Json::Object(m) => lookup(m@, key),
        _ => None,
    }
}

/// The wrapped command that the JSON value `j` holds, or why it holds none.
pub open spec fn wrapped_command_of_json(j: Json) -> Result<(u128, CommandView), DecodeError> {
    match envelope_id(j) {
        Err(e) => Err(e),
        Ok(id) => match member(j, word_cmd()) {
            Some(c) => match command_of_json(c) {
                Some(cv) => Ok((id, cv)),
                None => Err(DecodeError::SchemaMismatch),
            },
            None => Err(DecodeError::SchemaMismatch),
        },
    }
}

/// The wrapped response that the JSON value `j` holds, or why it holds none.
pub open spec fn wrapped_response_of_json(j: Json) -> Result<(u128, ResponseView), DecodeError> {
    match envelope_id(j) {
        Err(e) => Err(e),
        Ok(id) => match member(j, word_res()) {
            Some(r) => match response_of_json(r) {
                Some(rv) => Ok((id, rv)),
                None => Err(DecodeError::SchemaMismatch),
            },
            None => Err(DecodeError::SchemaMismatch),
        },
    }
}

fn text_word_add() -> (r: &'static str)
    ensures
        r@ == word_add(),
{
    proof {
        reveal_strlit("AddSMA");
    }
    let r = "AddSMA";
    assert(r@ =~= word_add());
    r
}

fn text_word_remove() -> (r: &'static str)
    ensures
        r@ == word_remove(),
{
    proof {
        reveal_strlit("RemoveSMA");
    }
    let r = "RemoveSMA";
    assert(r@ =~= word_remove());
    r
}

fn text_word_error() -> (r: &'static str)
    ensures
        r@ == word_error(),
{
    proof {
        reveal_strlit("Error");
    }
    let r = "Error";
    assert(r@ =~= word_error());
    r
}

fn text_word_period() -> (r: &'static str)
    ensures
        r@ == word_period(),
{
    proof {
        reveal_strlit("period");
    }
    let r = "period";
    assert(r@ =~= word_period());
    r
}

fn text_word_status() -> (r: &'static str)
    ensures
        r@ == word_status(),
{
    proof {
        reveal_strlit("status");
    }
    let r = "status";
    assert(r@ =~= word_status());
    r
}

fn text_word_uuid() -> (r: &'static str)
    ensures
        r@ == word_uuid(),
{
    proof {
        reveal_strlit("uuid");
    }
    let r = "uuid";
    assert(r@ =~= word_uuid());
    r
}

fn text_word_cmd() -> (r: &'static str)
    ensures
        r@ == word_cmd(),
{
    proof {
        reveal_strlit("cmd");
    }
    let r = "cmd";
    assert(r@ =~= word_cmd());
    r
}

fn text_word_res() -> (r: &'static str)
    ensures
        r@ == word_res(),
{
    proof {
        reveal_strlit("res");
    }
    let r = "res";
    assert(r@ =~= word_res());
    r
}

fn text_word_ping() -> (r: &'static str)
    ensures
        r@ == word_ping(),
{
    proof {
        reveal_strlit("Ping");
    }
    let r = "Ping";
    assert(r@ =~= word_ping());
    r
}

fn text_word_restart() -> (r: &'static str)
    ensures
        r@ == word_restart(),
{
    proof {
        reveal_strlit("Restart");
    }
    let r = "Restart";
    assert(r@ =~= word_restart());
    r
}

fn text_word_shutdown() -> (r: &'static str)
    ensures
        r@ == word_shutdown(),
{
    proof {
        reveal_strlit("Shutdown");
    }
    let r = "Shutdown";
    assert(r@ =~= word_shutdown());
    r
}

fn text_word_ok() -> (r: &'static str)
    ensures
        r@ == word_ok(),
{
    proof {
        reveal_strlit("Ok");
    }
    let r = "Ok";
    assert(r@ =~= word_ok());
    r
}

fn text_word_pong() -> (r: &'static str)
    ensures
        r@ == word_pong(),
{
    proof {
        reveal_strlit("Pong");
    }
    let r = "Pong";
    assert(r@ =~= word_pong());
    r
}

/// Whether `s` is exactly `lit`.
fn same_text(s: &String, lit: &str) -> (r: bool)
    ensures
        r == (s@ == lit@),
{
    let v = chars_of(s.as_str());
    assert(v@.subrange(0, v@.len() as int) =~= v@);
    equals_at(&v, 0, v.len(), lit)
}

fn lookup_exec<'a>(m: &'a Vec<(String, Json)>, key: &str) -> (r: Option<&'a Json>)
    ensures
        match r {
            Some(x) => lookup(m@, key@) == Some(*x),
            None => lookup(m@, key@) is None,
        },
{
    let mut i: usize = 0;
    assert(m@.skip(0) =~= m@);
    while i < m.len()
        invariant
            i <= m.len(),
            lookup(m@, key@) == lookup(m@.skip(i as int), key@),
        decreases m.len() - i,
    {
        assert(m@.skip(i as int).skip(1) =~= m@.skip(i + 1));
        if same_text(&m[i].0, key) {
            return Some(&m[i].1);
        }
        i += 1;
    }
    None
}

fn field_exec<'a>(v: &'a Json, field: &str) -> (r: Option<&'a Json>)
    ensures
        match r {
            Some(x) => field_of(*v, field@) == Some(*x),
            None => field_of(*v, field@) is None,
        },
{
    match v {
        Json::Object(f) => if f.len() == 1 && same_text(&f[0].0, field) {
            Some(&f[0].1)
        } else {
            None
        },
        _ => None,
    }
}

fn period_exec(v: &Json) -> (r: Option<Number>)
    ensures
        match r {
            Some(n) => period_of(*v) == Some(n@),
            None => period_of(*v) is None,
        },
{
    match field_exec(v, text_word_period()) {
        Some(Json::Number(n)) => Number::from_text(n.as_str()),
        _ => None,
    }
}

fn status_exec(v: &Json) -> (r: Option<String>)
    ensures
        match r {
            Some(s) => status_of(*v) == Some(s@),
            None => status_of(*v) is None,
        },
{
    match field_exec(v, text_word_status()) {
        Some(Json::Str(s)) => Some(s.clone()),
        _ => None,
    }
}

fn tagged_command_exec(tag: &String, v: &Json) -> (r: Option<Command>)
    ensures
        match r {
            Some(c) => tagged_command(tag@, *v) == Some(c@),
            None => tagged_command(tag@, *v) is None,
        },
{
    if same_text(tag, text_word_add()) {
        if let Some(period) = period_exec(v) {
            return Some(Command::AddSMA { period });
        }
    }
    if same_text(tag, text_word_remove()) {
        if let Some(period) = period_exec(v) {
            return Some(Command::RemoveSMA { period });
        }
    }
    None
}

/// The command that the JSON value `j` holds, if any.
pub fn command_from_json(j: &Json) -> (r: Option<Command>)
    ensures
        match r {
            Some(c) => command_of_json(*j) == Some(c@),
            None => command_of_json(*j) is None,
        },
{
    match j {
        Json::Str(t) => {
            if same_text(t, text_word_ping()) {
                Some(Command::Ping)
            } else if same_text(t, text_word_restart()) {
                Some(Command::Restart)
            } else if same_text(t, text_word_shutdown()) {
                Some(Command::Shutdown)
            } else {
                None
            }
        },
        Json::Object(m) => {
            if m.len() == 1 {
                tagged_command_exec(&m[0].0, &m[0].1)
            } else {
                None
            }
        },
        _ => None,
    }
}

fn tagged_response_exec(tag: &String, v: &Json) -> (r: Option<Response>)
    ensures
        match r {
            Some(x) => tagged_response(tag@, *v) == Some(x@),
            None => tagged_response(tag@, *v) is None,
        },
{
    if same_text(tag, text_word_error()) {
        if let Some(status) = status_exec(v) {
            return Some(Response::Error { status });
        }
    }
    None
}

/// The response that the JSON value `j` holds, if any.
pub fn response_from_json(j: &Json) -> (r: Option<Response>)
    ensures
        match r {
            Some(x) => response_of_json(*j) == Some(x@),
            None => response_of_json(*j) is None,
        },
{
    match j {
        Json::Str(t) => {
            if same_text(t, text_word_ok()) {
                Some(Response::Okay)
            } else if same_text(t, text_word_pong()) {
                Some(Response::Pong)
            } else {
                None
            }
        },
        Json::Object(m) => {
            if m.len() == 1 {
                tagged_response_exec(&m[0].0, &m[0].1)
            } else {
                None
            }
        },
        _ => None,
    }
}

fn envelope_id_exec(j: &Json) -> (r: Result<Uuid, DecodeError>)
    ensures
        match r {
            Ok(u) => envelope_id(*j) == Ok::<u128, DecodeError>(u.value),
            Err(e) => envelope_id(*j) == Err::<u128, DecodeError>(e),
        },
{
    match j {
        Json::Object(m) => match lookup_exec(m, text_word_uuid()) {
            Some(Json::Str(u)) => match Uuid::parse_str(u.as_str()) {
                Some(id) => Ok(id),
                None => Err(DecodeError::InvalidIdentifier),
            },
            _ => Err(DecodeError::SchemaMismatch),
        },
        _ => Err(DecodeError::SchemaMismatch),
    }
}

fn member_exec<'a>(j: &'a Json, key: &str) -> (r: Option<&'a Json>)
    ensures
        match r {
            Some(x) => member(*j, key@) == Some(*x),
            None => member(*j, key@) is None,
        },
{
    match j {
        Json::Object(m) => lookup_exec(m, key),
        _ => None,
    }
}

/// The wrapped command that the JSON value `j` holds, or why it holds none.
pub fn wrapped_command_from_json(j: &Json) -> (r: Result<WrappedCommand, DecodeError>)
    ensures
        match r {
            Ok(w) => wrapped_command_of_json(*j) == Ok::<(u128, CommandView), DecodeError>(w@),
            Err(e) => wrapped_command_of_json(*j) == Err::<(u128, CommandView), DecodeError>(e),
        },
{
    let uuid = match envelope_id_exec(j) {
        Ok(u) => u,
        Err(e) => {
            return Err(e);
        },
    };
    match member_exec(j, text_word_cmd()) {
        Some(c) => match command_from_json(c) {
            Some(cmd) => Ok(WrappedCommand { uuid, cmd }),
            None => Err(DecodeError::SchemaMismatch),
        },
        None => Err(DecodeError::SchemaMismatch),
    }
}

/// The wrapped response that the JSON value `j` holds, or why it holds none.
pub fn wrapped_response_from_json(j: &Json) -> (r: Result<WrappedResponse, DecodeError>)
    ensures
        match r {
            Ok(w) => wrapped_response_of_json(*j) == Ok::<(u128, ResponseView), DecodeError>(w@),
            Err(e) => wrapped_response_of_json(*j) == Err::<(u128, ResponseView), DecodeError>(e),
        },
{
    let uuid = match envelope_id_exec(j) {
        Ok(u) => u,
        Err(e) => {
            return Err(e);
        },
    };
    match member_exec(j, text_word_res()) {
        Some(x) => match response_from_json(x) {
            Some(res) => Ok(WrappedResponse { uuid, res }),
            None => Err(DecodeError::SchemaMismatch),
        },
        None => Err(DecodeError::SchemaMismatch),
    }
}

} // verus!
