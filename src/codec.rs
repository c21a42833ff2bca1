//! The JSON wire codec. Unit variants are written as the bare string of their
//! tag, variants with fields as a one-key object holding an object of the
//! fields; envelopes are objects of two keys, `uuid` and the payload's.
//! Encoding is compact and puts `uuid` first. Decoding reads the text as a
//! JSON value first: text that is not JSON is `MalformedText`, and the message
//! shapes are then checked on the value (see `schema`).
use vstd::prelude::*;
use crate::ident::uuid_text;
use crate::json::{is_json, json_of, parse_json};
use crate::lexical::{escape, json_string};
use crate::message::{Command, CommandView, DecodeError, Response, ResponseView, WrappedCommand, WrappedResponse};
use crate::schema::{
    command_from_json, command_of_json, response_from_json, response_of_json,
    wrapped_command_from_json, wrapped_command_of_json, wrapped_response_from_json,
    wrapped_response_of_json,
};
use vstd::string::StringExecFns;

verus! {

/// `x` between quotes.
pub open spec fn quoted(x: Seq<char>) -> Seq<char> {
    seq!['"'] + x + seq!['"']
}

pub open spec fn word_ping() -> Seq<char> {
    seq!['P', 'i', 'n', 'g']
}

pub open spec fn word_restart() -> Seq<char> {
    seq!['R', 'e', 's', 't', 'a', 'r', 't']
}

pub open spec fn word_shutdown() -> Seq<char> {
    seq!['S', 'h', 'u', 't', 'd', 'o', 'w', 'n']
}

pub open spec fn word_ok() -> Seq<char> {
    seq!['O', 'k']
}

pub open spec fn word_pong() -> Seq<char> {
    seq!['P', 'o', 'n', 'g']
}

/// `{"<tag>":{"<field>":`, the head of a variant with one field.
pub open spec fn variant_head(tag: Seq<char>, field: Seq<char>) -> Seq<char> {
    seq!['{'] + quoted(tag) + seq![':', '{'] + quoted(field) + seq![':']
}

pub open spec fn add_head() -> Seq<char> {
    variant_head(seq!['A', 'd', 'd', 'S', 'M', 'A'], seq!['p', 'e', 'r', 'i', 'o', 'd'])
}

pub open spec fn remove_head() -> Seq<char> {
    variant_head(seq!['R', 'e', 'm', 'o', 'v', 'e', 'S', 'M', 'A'], seq!['p', 'e', 'r', 'i', 'o', 'd'])
}

pub open spec fn error_head() -> Seq<char> {
    variant_head(seq!['E', 'r', 'r', 'o', 'r'], seq!['s', 't', 'a', 't', 'u', 's'])
}

pub open spec fn close2() -> Seq<char> {
    seq!['}', '}']
}

/// `{"uuid":"`, the head of an envelope.
pub open spec fn envelope_head() -> Seq<char> {
    seq!['{'] + quoted(seq!['u', 'u', 'i', 'd']) + seq![':', '"']
}

/// `","<key>":`, what stands between the identifier and the payload.
pub open spec fn envelope_infix(key: Seq<char>) -> Seq<char> {
    seq!['"', ','] + quoted(key) + seq![':']
}

pub open spec fn cmd_key() -> Seq<char> {
    seq!['c', 'm', 'd']
}

pub open spec fn res_key() -> Seq<char> {
    seq!['r', 'e', 's']
}

/// The encoded text of a command.
pub open spec fn enc_command(c: CommandView) -> Seq<char> {
    match c {
        CommandView::Ping => quoted(word_ping()),
        CommandView::Restart => quoted(word_restart()),
        CommandView::Shutdown => quoted(word_shutdown()),
        CommandView::AddSMA { period } => add_head() + period + close2(),
        CommandView::RemoveSMA { period } => remove_head() + period + close2(),
    }
}

/// The encoded text of a response.
pub open spec fn enc_response(r: ResponseView) -> Seq<char> {
    match r {
        ResponseView::Okay => quoted(word_ok()),
        ResponseView::Error { status } => error_head() + quoted(escape(status)) + close2(),
        ResponseView::Pong => quoted(word_pong()),
    }
}

/// The encoded envelope around an encoded payload.
pub open spec fn enc_envelope(id: u128, key: Seq<char>, payload: Seq<char>) -> Seq<char> {
    envelope_head() + uuid_text(id) + envelope_infix(key) + payload + seq!['}']
}

pub open spec fn enc_wrapped_command(w: (u128, CommandView)) -> Seq<char> {
    enc_envelope(w.0, cmd_key(), enc_command(w.1))
}

pub open spec fn enc_wrapped_response(w: (u128, ResponseView)) -> Seq<char> {
    enc_envelope(w.0, res_key(), enc_response(w.1))
}

fn text_add_head() -> (r: &'static str)
    ensures
        r@ == add_head(),
{
    proof {
        reveal_strlit("{\"AddSMA\":{\"period\":");
    }
    let r = "{\"AddSMA\":{\"period\":";
    assert(r@ =~= add_head());
    r
}

fn text_remove_head() -> (r: &'static str)
    ensures
        r@ == remove_head(),
{
    proof {
        reveal_strlit("{\"RemoveSMA\":{\"period\":");
    }
    let r = "{\"RemoveSMA\":{\"period\":";
    assert(r@ =~= remove_head());
    r
}

fn text_error_head() -> (r: &'static str)
    ensures
        r@ == error_head(),
{
    proof {
        reveal_strlit("{\"Error\":{\"status\":");
    }
    let r = "{\"Error\":{\"status\":";
    assert(r@ =~= error_head());
    r
}

fn text_close2() -> (r: &'static str)
    ensures
        r@ == close2(),
{
    proof {
        reveal_strlit("}}");
    }
    let r = "}}";
    assert(r@ =~= close2());
    r
}

fn text_envelope_head() -> (r: &'static str)
    ensures
        r@ == envelope_head(),
{
    proof {
        reveal_strlit("{\"uuid\":\"");
    }
    let r = "{\"uuid\":\"";
    assert(r@ =~= envelope_head());
    r
}

fn text_cmd_infix() -> (r: &'static str)
    ensures
        r@ == envelope_infix(cmd_key()),
{
    proof {
        reveal_strlit("\",\"cmd\":");
    }
    let r = "\",\"cmd\":";
    assert(r@ =~= envelope_infix(cmd_key()));
    r
}

fn text_res_infix() -> (r: &'static str)
    ensures
        r@ == envelope_infix(res_key()),
{
    proof {
        reveal_strlit("\",\"res\":");
    }
    let r = "\",\"res\":";
    assert(r@ =~= envelope_infix(res_key()));
    r
}

fn text_close() -> (r: &'static str)
    ensures
        r@ == seq!['}'],
{
    proof {
        reveal_strlit("}");
    }
    let r = "}";
    assert(r@ =~= seq!['}']);
    r
}

fn text_ping() -> (r: &'static str)
    ensures
        r@ == quoted(word_ping()),
{
    proof {
        reveal_strlit("\"Ping\"");
    }
    let r = "\"Ping\"";
    assert(r@ =~= quoted(word_ping()));
    r
}

fn text_restart() -> (r: &'static str)
    ensures
        r@ == quoted(word_restart()),
{
    proof {
        reveal_strlit("\"Restart\"");
    }
    let r = "\"Restart\"";
    assert(r@ =~= quoted(word_restart()));
    r
}

fn text_shutdown() -> (r: &'static str)
    ensures
        r@ == quoted(word_shutdown()),
{
    proof {
        reveal_strlit("\"Shutdown\"");
    }
    let r = "\"Shutdown\"";
    assert(r@ =~= quoted(word_shutdown()));
    r
}

fn text_ok() -> (r: &'static str)
    ensures
        r@ == quoted(word_ok()),
{
    proof {
        reveal_strlit("\"Ok\"");
    }
    let r = "\"Ok\"";
    assert(r@ =~= quoted(word_ok()));
    r
}

fn text_pong() -> (r: &'static str)
    ensures
        r@ == quoted(word_pong()),
{
    proof {
        reveal_strlit("\"Pong\"");
    }
    let r = "\"Pong\"";
    assert(r@ =~= quoted(word_pong()));
    r
}

fn command_into(out: &mut String, c: &Command)
    ensures
        final(out)@ == old(out)@ + enc_command(c@),
{
    let ghost start = out@;
    match c {
        Command::Ping => out.append(text_ping()),
        Command::Restart => out.append(text_restart()),
        Command::Shutdown => out.append(text_shutdown()),
        Command::AddSMA { period } => {
            out.append(text_add_head());
            out.append(period.as_str());
            out.append(text_close2());
        },
        Command::RemoveSMA { period } => {
            out.append(text_remove_head());
            out.append(period.as_str());
            out.append(text_close2());
        },
    }
    assert(out@ =~= start + enc_command(c@));
}

fn response_into(out: &mut String, r: &Response)
    ensures
        final(out)@ == old(out)@ + enc_response(r@),
{
    let ghost start = out@;
    match r {
        Response::Okay => out.append(text_ok()),
        Response::Error { status } => {
            out.append(text_error_head());
            let lit = json_string(status.as_str());
            out.append(lit.as_str());
            out.append(text_close2());
        },
        Response::Pong => out.append(text_pong()),
    }
    assert(out@ =~= start + enc_response(r@));
}

/// The encoded text of a command.
pub fn encode_command(c: &Command) -> (r: String)
    ensures
        r@ == enc_command(c@),
{
    let mut out = String::new();
    command_into(&mut out, c);
    assert(out@ =~= enc_command(c@));
    out
}

/// The encoded text of a response.
pub fn encode_response(r: &Response) -> (s: String)
    ensures
        s@ == enc_response(r@),
{
    let mut out = String::new();
    response_into(&mut out, r);
    assert(out@ =~= enc_response(r@));
    out
}

/// The encoded text of a wrapped command.
pub fn encode_wrapped_command(w: &WrappedCommand) -> (r: String)
    ensures
        r@ == enc_wrapped_command(w@),
{
    let mut out = String::new();
    out.append(text_envelope_head());
    let id = w.uuid.to_hyphenated();
    out.append(id.as_str());
    out.append(text_cmd_infix());
    command_into(&mut out, &w.cmd);
    out.append(text_close());
    assert(out@ =~= enc_wrapped_command(w@));
    out
}

/// The encoded text of a wrapped response.
pub fn encode_wrapped_response(w: &WrappedResponse) -> (r: String)
    ensures
        r@ == enc_wrapped_response(w@),
{
    let mut out = String::new();
    out.append(text_envelope_head());
    let id = w.uuid.to_hyphenated();
    out.append(id.as_str());
    out.append(text_res_infix());
    response_into(&mut out, &w.res);
    out.append(text_close());
    assert(out@ =~= enc_wrapped_response(w@));
    out
}

/// What decoding the text `s` as a bare command gives.
pub open spec fn decode_command_spec(s: Seq<char>) -> Result<CommandView, DecodeError> {
    if !is_json(s) {
        Err(DecodeError::MalformedText)
    } else {
        match command_of_json(json_of(s)) {
            Some(c) => Ok(c),
            None => Err(DecodeError::SchemaMismatch),
        }
    }
}

/// What decoding the text `s` as a bare response gives.
pub open spec fn decode_response_spec(s: Seq<char>) -> Result<ResponseView, DecodeError> {
    if !is_json(s) {
        Err(DecodeError::MalformedText)
    } else {
        match response_of_json(json_of(s)) {
            Some(r) => Ok(r),
            None => Err(DecodeError::SchemaMismatch),
        }
    }
}

/// What decoding the text `s` as a wrapped command gives.
pub open spec fn decode_wrapped_command_spec(s: Seq<char>) -> Result<
    (u128, CommandView),
    DecodeError,
> {
    if !is_json(s) {
        Err(DecodeError::MalformedText)
    } else {
        wrapped_command_of_json(json_of(s))
    }
}

/// What decoding the text `s` as a wrapped response gives.
pub open spec fn decode_wrapped_response_spec(s: Seq<char>) -> Result<
    (u128, ResponseView),
    DecodeError,
> {
    if !is_json(s) {
        Err(DecodeError::MalformedText)
    } else {
        wrapped_response_of_json(json_of(s))
    }
}

/// Decodes a bare command.
pub fn decode_command(text: &str) -> (r: Result<Command, DecodeError>)
    ensures
        match r {
            Ok(c) => decode_command_spec(text@) == Ok::<CommandView, DecodeError>(c@),
            Err(e) => decode_command_spec(text@) == Err::<CommandView, DecodeError>(e),
        },
{
    match parse_json(text) {
        None => Err(DecodeError::MalformedText),
        Some(j) => match command_from_json(&j) {
            Some(c) => Ok(c),
            None => Err(DecodeError::SchemaMismatch),
        },
    }
}

/// Decodes a bare response.
pub fn decode_response(text: &str) -> (r: Result<Response, DecodeError>)
    ensures
        match r {
            Ok(x) => decode_response_spec(text@) == Ok::<ResponseView, DecodeError>(x@),
            Err(e) => decode_response_spec(text@) == Err::<ResponseView, DecodeError>(e),
        },
{
    match parse_json(text) {
        None => Err(DecodeError::MalformedText),
        Some(j) => match response_from_json(&j) {
            Some(x) => Ok(x),
            None => Err(DecodeError::SchemaMismatch),
        },
    }
}

/// Decodes a wrapped command.
pub fn parse_wrapped_command(cmd: String) -> (r: Result<WrappedCommand, DecodeError>)
    ensures
        match r {
            Ok(w) => decode_wrapped_command_spec(cmd@) == Ok::<
                (u128, CommandView),
                DecodeError,
            >(w@),
            Err(e) => decode_wrapped_command_spec(cmd@) == Err::<
                (u128, CommandView),
                DecodeError,
            >(e),
        },
{
    match parse_json(cmd.as_str()) {
        None => Err(DecodeError::MalformedText),
        Some(j) => wrapped_command_from_json(&j),
    }
}

/// Decodes a wrapped response.
pub fn parse_wrapped_response(raw_res: String) -> (r: Result<WrappedResponse, DecodeError>)
    ensures
        match r {
            Ok(w) => decode_wrapped_response_spec(raw_res@) == Ok::<
                (u128, ResponseView),
                DecodeError,
            >(w@),
            Err(e) => decode_wrapped_response_spec(raw_res@) == Err::<
                (u128, ResponseView),
                DecodeError,
            >(e),
        },
{
    match parse_json(raw_res.as_str()) {
        None => Err(DecodeError::MalformedText),
        Some(j) => wrapped_response_from_json(&j),
    }
}

} // verus!
