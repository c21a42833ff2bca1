use std::collections::HashSet;
use tick_commands::codec::{
    decode_command, decode_response, encode_command, encode_response, encode_wrapped_command,
    encode_wrapped_response, parse_wrapped_command, parse_wrapped_response,
};
use tick_commands::ident::Uuid;
use tick_commands::json::Json;
use tick_commands::schema::{command_from_json, response_from_json, wrapped_command_from_json, wrapped_response_from_json};
use tick_commands::message::{Command, DecodeError, Response, WrappedCommand, WrappedResponse};
use tick_commands::number::Number;

fn num(s: &str) -> Number {
    Number::from_text(s).unwrap()
}

const SAMPLE_ID: &str = "2f663301-5b73-4fa0-b201-09ab196ec5fd";
const SAMPLE_VALUE: u128 = 0x2f6633015b734fa0b20109ab196ec5fd;

#[test]
fn command_serialization() {
    let cmd_str = "{\"AddSMA\": {\"period\": 6.64} }";
    let cmd: Command = decode_command(cmd_str).unwrap();
    assert_eq!(cmd, Command::AddSMA { period: num("6.64") });
}

#[test]
fn command_deserialization() {
    let cmd = Command::RemoveSMA { period: num("6.64") };
    let cmd_string = encode_command(&cmd);
    assert_eq!("{\"RemoveSMA\":{\"period\":6.64}}", cmd_string.as_str());
}

#[test]
fn response_serialization() {
    let res_str = "\"Ok\"";
    let res: Response = decode_response(res_str).unwrap();
    assert_eq!(res, Response::Okay);
}

#[test]
fn response_deserialization() {
    let res = Response::Okay;
    let res_string = encode_response(&res);
    assert_eq!("\"Ok\"", res_string.as_str());
}

#[test]
fn wrapped_command_exact_text() {
    let w = WrappedCommand {
        uuid: Uuid::from_u128(SAMPLE_VALUE),
        cmd: Command::RemoveSMA { period: num("6.64") },
    };
    assert_eq!(
        encode_wrapped_command(&w),
        format!("{{\"uuid\":\"{}\",\"cmd\":{{\"RemoveSMA\":{{\"period\":6.64}}}}}}", SAMPLE_ID)
    );
}

#[test]
fn wrapped_command_round_trip_every_variant() {
    let cmds = vec![
        Command::Ping,
        Command::Restart,
        Command::Shutdown,
        Command::AddSMA { period: num("42.0") },
        Command::RemoveSMA { period: num("-0.0015") },
    ];
    for cmd in cmds {
        let w = WrappedCommand { uuid: Uuid::new_v4(), cmd };
        let text = encode_wrapped_command(&w);
        assert_eq!(parse_wrapped_command(text).unwrap(), w);
    }
}

#[test]
fn wrapped_response_round_trip_every_variant() {
    let ress = vec![
        Response::Okay,
        Response::Pong,
        Response::Error { status: String::from("bad \"period\"\n\ttab\\ \u{1} é 😀") },
        Response::Error { status: String::new() },
    ];
    for res in ress {
        let w = WrappedResponse { uuid: Uuid::new_v4(), res };
        let text = encode_wrapped_response(&w);
        assert_eq!(parse_wrapped_response(text).unwrap(), w);
    }
}

#[test]
fn bare_round_trips() {
    let c = Command::AddSMA { period: num("0") };
    assert_eq!(decode_command(&encode_command(&c)).unwrap(), c);
    let r = Response::Error { status: String::from("x") };
    assert_eq!(decode_response(&encode_response(&r)).unwrap(), r);
}

#[test]
fn unit_variants_are_bare_tags() {
    assert_eq!(encode_command(&Command::Ping), "\"Ping\"");
    assert_eq!(encode_command(&Command::Restart), "\"Restart\"");
    assert_eq!(encode_command(&Command::Shutdown), "\"Shutdown\"");
    assert_eq!(encode_response(&Response::Pong), "\"Pong\"");
    assert_eq!(decode_command("\"Shutdown\"").unwrap(), Command::Shutdown);
    assert_eq!(decode_response(" \"Pong\" ").unwrap(), Response::Pong);
}

#[test]
fn error_status_is_escaped() {
    let r = Response::Error { status: String::from("a\"b\\c\nd\u{1f}e\u{7f}") };
    assert_eq!(
        encode_response(&r),
        "{\"Error\":{\"status\":\"a\\\"b\\\\c\\nd\\u001fe\u{7f}\"}}"
    );
}

#[test]
fn error_status_escapes_are_read() {
    let r = decode_response("{\"Error\":{\"status\":\"\\u0041\\/\\ud83d\\ude00 x\"}}").unwrap();
    assert_eq!(r, Response::Error { status: String::from("A/😀 x") });
    assert_eq!(
        decode_response("{\"Error\":{\"status\":\"\\ud83d\"}}"),
        Err(DecodeError::MalformedText)
    );
}

#[test]
fn invalid_identifier_is_rejected() {
    let r = parse_wrapped_command(String::from("{\"uuid\":\"not-a-uuid\",\"cmd\":\"Ping\"}"));
    assert_eq!(r, Err(DecodeError::InvalidIdentifier));
}

#[test]
fn unknown_variant_is_rejected() {
    assert_eq!(
        parse_wrapped_command(String::from("{\"cmd\":\"Frobnicate\"}")),
        Err(DecodeError::SchemaMismatch)
    );
    let text = format!("{{\"uuid\":\"{}\",\"cmd\":\"Frobnicate\"}}", SAMPLE_ID);
    assert_eq!(parse_wrapped_command(text), Err(DecodeError::SchemaMismatch));
    assert_eq!(decode_command("\"Frobnicate\""), Err(DecodeError::SchemaMismatch));
}

#[test]
fn malformed_text_is_rejected() {
    assert_eq!(
        parse_wrapped_command(String::from("{\"uuid\": \"abc")),
        Err(DecodeError::MalformedText)
    );
    assert_eq!(parse_wrapped_response(String::from("")), Err(DecodeError::MalformedText));
    assert_eq!(decode_command("{\"AddSMA\":{\"period\":1}"), Err(DecodeError::MalformedText));
    assert_eq!(decode_command("]["), Err(DecodeError::MalformedText));
    assert_eq!(decode_command("Ping"), Err(DecodeError::MalformedText));
    assert_eq!(
        parse_wrapped_command(String::from("{\"uuid\":,\"cmd\":\"Ping\"}")),
        Err(DecodeError::MalformedText)
    );
    assert_eq!(decode_command("{\"AddSMA\":{\"period\":1]}"), Err(DecodeError::MalformedText));
    assert_eq!(decode_command("\"Ping\" \"Ping\""), Err(DecodeError::MalformedText));
}

#[test]
fn period_must_be_a_number() {
    assert_eq!(
        decode_command("{\"AddSMA\":{\"period\":\"6\"}}"),
        Err(DecodeError::SchemaMismatch)
    );
    assert_eq!(decode_command("{\"AddSMA\":{\"period\":01}}"), Err(DecodeError::MalformedText));
    assert_eq!(decode_command("{\"AddSMA\":{\"period\":null}}"), Err(DecodeError::SchemaMismatch));
}

#[test]
fn whitespace_between_tokens_is_accepted() {
    let text = format!(
        " {{ \"uuid\" : \"{}\" ,\n \"cmd\" :\t{{ \"AddSMA\" : {{ \"period\" : 5.2342 }} }} }}\r\n",
        SAMPLE_ID
    );
    let w = parse_wrapped_command(text).unwrap();
    assert_eq!(w.uuid.as_u128(), SAMPLE_VALUE);
    assert_eq!(w.cmd, Command::AddSMA { period: num("5.2342") });
}

#[test]
fn number_literals() {
    for ok in ["0", "6.64", "42.0", "5.2342", "-0.0015"] {
        assert_eq!(Number::from_text(ok).unwrap().as_str(), ok);
    }
    for (written, canonical) in [("6.640", "6.64"), ("1e3", "1000.0"), ("-2.5E+3", "-2500.0"), ("7e-1", "0.7")] {
        assert_eq!(Number::from_text(written).unwrap().as_str(), canonical);
    }
    assert_eq!(Number::from_text("6.640"), Number::from_text("6.64"));
    assert!(Number::from_text("-0").is_some());
    assert!(Number::from_text("1e10").is_some());
    for bad in ["", "-", "01", "1.", ".5", "1e", "+1", "1.5.2", "NaN", " 1", "1e400"] {
        assert!(Number::from_text(bad).is_none(), "{}", bad);
    }
}

#[test]
fn identifier_text_forms() {
    let u = Uuid::from_u128(SAMPLE_VALUE);
    assert_eq!(u.to_hyphenated(), SAMPLE_ID);
    assert_eq!(Uuid::parse_str(SAMPLE_ID), Some(u));
    assert_eq!(Uuid::parse_str(&SAMPLE_ID.to_uppercase()), Some(u));
    assert_eq!(Uuid::parse_str("2f6633015b734fa0b20109ab196ec5fd"), Some(u));
    assert_eq!(Uuid::parse_str(&format!("{{{}}}", SAMPLE_ID)), Some(u));
    assert_eq!(Uuid::parse_str(&format!("URN:uuid:{}", SAMPLE_ID)), Some(u));
    assert_eq!(Uuid::parse_str("not-a-uuid"), None);
    assert_eq!(Uuid::parse_str("2f663301-5b73-4fa0-b201-09ab196ec5fg"), None);
    assert_eq!(Uuid::from_u128(1).to_hyphenated(), "00000000-0000-0000-0000-000000000001");
}

#[test]
fn fresh_identifiers_are_version_four() {
    let u = Uuid::new_v4();
    assert_eq!(u.as_u128() & 0xF000_C000_0000_0000_0000, 0x4000_8000_0000_0000_0000);
    let w = WrappedCommand::new(Command::Ping);
    assert_eq!(w.cmd, Command::Ping);
}

#[test]
fn ten_thousand_identifiers_are_distinct() {
    let mut seen = HashSet::new();
    for _ in 0..10_000 {
        assert!(seen.insert(Uuid::new_v4().as_u128()));
    }
    assert_eq!(seen.len(), 10_000);
}

#[test]
fn request_and_reply_share_the_identifier() {
    let u = Uuid::from_u128(SAMPLE_VALUE);
    let w = WrappedCommand { uuid: u, cmd: Command::AddSMA { period: num("42.0") } };
    let received = parse_wrapped_command(encode_wrapped_command(&w)).unwrap();
    assert_eq!(received, w);
    let reply = WrappedResponse::reply_to(&received, Response::Okay);
    let back = parse_wrapped_response(encode_wrapped_response(&reply)).unwrap();
    assert_eq!(back.uuid, u);
    assert_eq!(back.res, Response::Okay);
}

#[test]
fn envelope_keys_in_either_order() {
    let text = format!("{{ \"cmd\" : {{\"AddSMA\":{{\"period\":1000.0}}}}, \"uuid\" : \"{}\" }}", SAMPLE_ID);
    let w = parse_wrapped_command(text).unwrap();
    assert_eq!(w.uuid.as_u128(), SAMPLE_VALUE);
    assert_eq!(w.cmd, Command::AddSMA { period: num("1000.0") });
    let text = format!("{{\"res\":{{\"Error\":{{\"status\":\"down\"}}}},\"uuid\":\"{}\"}}", SAMPLE_ID);
    let r = parse_wrapped_response(text).unwrap();
    assert_eq!(r.uuid.as_u128(), SAMPLE_VALUE);
    assert_eq!(r.res, Response::Error { status: String::from("down") });
    let text = String::from("{\"res\":\"Pong\",\"uuid\":\"bad\"}");
    assert_eq!(parse_wrapped_response(text), Err(DecodeError::InvalidIdentifier));
}

#[test]
fn wrapped_command_sample_text_decodes() {
    let raw = "{\"uuid\":\"2f663301-5b73-4fa0-b201-09ab196ec5fd\",\"cmd\":{\"RemoveSMA\":{\"period\":5.2342}}}";
    let w = parse_wrapped_command(String::from(raw)).unwrap();
    assert_eq!(w.uuid, Uuid::from_u128(SAMPLE_VALUE));
    assert_eq!(w.cmd, Command::RemoveSMA { period: num("5.2342") });
    let again = encode_wrapped_command(&w);
    assert_eq!(again, raw);
}

#[test]
fn wrapped_command_with_fresh_identifier_encodes() {
    let w = WrappedCommand::new(Command::AddSMA { period: num("42.23423") });
    let text = encode_wrapped_command(&w);
    assert!(text.ends_with(",\"cmd\":{\"AddSMA\":{\"period\":42.23423}}}"));
    assert_eq!(parse_wrapped_command(text).unwrap(), w);
}

fn sample_object(payload_key: &str, payload: Json) -> Json {
    Json::Object(vec![
        (String::from(payload_key), payload),
        (String::from("uuid"), Json::Str(String::from(SAMPLE_ID))),
    ])
}

#[test]
fn extra_keys_are_ignored() {
    let text = format!("{{\"uuid\":\"{}\",\"cmd\":\"Ping\",\"x\":0}}", SAMPLE_ID);
    assert_eq!(parse_wrapped_command(text).unwrap().cmd, Command::Ping);
    let text = format!("{{\"x\":[1,{{}}],\"uuid\":\"{}\",\"res\":\"Ok\"}}", SAMPLE_ID);
    assert_eq!(parse_wrapped_response(text).unwrap().res, Response::Okay);
}

#[test]
fn escapes_are_read_before_matching() {
    let text = "{\"uuid\":\"\\u0032f663301-5b73-4fa0-b201-09ab196ec5fd\",\"cmd\":\"Frobnicate\"}";
    assert_eq!(parse_wrapped_command(String::from(text)), Err(DecodeError::SchemaMismatch));
    let text = "{\"uuid\":\"\\u0032f663301-5b73-4fa0-b201-09ab196ec5fd\",\"c\\u006dd\":\"P\\u0069ng\"}";
    let w = parse_wrapped_command(String::from(text)).unwrap();
    assert_eq!(w.uuid.as_u128(), SAMPLE_VALUE);
    assert_eq!(w.cmd, Command::Ping);
}

#[test]
fn whitespace_inside_a_token_is_malformed() {
    let text = format!("{{\"uuid\":\"{}\",\"cmd\":{{\"AddSMA\":{{\"period\":6. 64}}}}}}", SAMPLE_ID);
    assert_eq!(parse_wrapped_command(text), Err(DecodeError::MalformedText));
    assert_eq!(decode_command("{\"AddSMA\":{\"period\":- 1}}"), Err(DecodeError::MalformedText));
    assert_eq!(decode_command("{\"AddSMA\":{\"period\":1 2}}"), Err(DecodeError::MalformedText));
    assert_eq!(decode_command("{\"AddSMA\":{\"period\":1e400}}"), Err(DecodeError::MalformedText));
}

#[test]
fn numbers_are_read_canonically() {
    assert_eq!(
        decode_command("{\"AddSMA\":{\"period\":1e3}}").unwrap(),
        Command::AddSMA { period: num("1000.0") }
    );
    assert_eq!(
        decode_command("{\"AddSMA\":{\"period\":6.640}}").unwrap(),
        Command::AddSMA { period: num("6.64") }
    );
    let c = Command::AddSMA { period: num("6.640") };
    assert_eq!(encode_command(&c), "{\"AddSMA\":{\"period\":6.64}}");
    assert_eq!(decode_command(&encode_command(&c)).unwrap(), c);
}

#[test]
fn only_the_wire_shapes_decode() {
    assert_eq!(decode_command("{\"Restart\":null}"), Err(DecodeError::SchemaMismatch));
    assert_eq!(decode_command("{\"AddSMA\":[2.5]}"), Err(DecodeError::SchemaMismatch));
    assert_eq!(decode_response("{\"Pong\":null}"), Err(DecodeError::SchemaMismatch));
    assert_eq!(decode_response("{\"Ok\":null}"), Err(DecodeError::SchemaMismatch));
    assert_eq!(decode_response("{\"Error\":[\"x\"]}"), Err(DecodeError::SchemaMismatch));
    let text = "{\"RemoveSMA\":{\"unit\":\"s\",\"period\":3}}";
    assert_eq!(decode_command(text), Err(DecodeError::SchemaMismatch));
    let text = "{\"Error\":{\"status\":\"x\",\"code\":7}}";
    assert_eq!(decode_response(text), Err(DecodeError::SchemaMismatch));
    let text = format!("{{\"uuid\":\"{}\",\"cmd\":{{\"Ping\":null}}}}", SAMPLE_ID);
    assert_eq!(parse_wrapped_command(text), Err(DecodeError::SchemaMismatch));
    let text = format!("{{\"uuid\":\"{}\",\"res\":{{\"Ok\":null}}}}", SAMPLE_ID);
    assert_eq!(parse_wrapped_response(text), Err(DecodeError::SchemaMismatch));
    assert_eq!(
        decode_command("{\"RemoveSMA\":{\"period\":3}}").unwrap(),
        Command::RemoveSMA { period: num("3") }
    );
    assert_eq!(decode_command("{\"Ping\":null,\"Restart\":null}"), Err(DecodeError::SchemaMismatch));
    assert_eq!(decode_command("{\"AddSMA\":{}}"), Err(DecodeError::SchemaMismatch));
    assert_eq!(decode_command("\"ping\""), Err(DecodeError::SchemaMismatch));
}

#[test]
fn missing_keys_are_schema_mismatches() {
    let text = format!("{{\"uuid\":\"{}\"}}", SAMPLE_ID);
    assert_eq!(parse_wrapped_command(text), Err(DecodeError::SchemaMismatch));
    assert_eq!(parse_wrapped_response(String::from("{\"res\":\"Ok\"}")), Err(DecodeError::SchemaMismatch));
    assert_eq!(parse_wrapped_response(String::from("[]")), Err(DecodeError::SchemaMismatch));
    let text = "{\"uuid\":7,\"cmd\":\"Ping\"}";
    assert_eq!(parse_wrapped_command(String::from(text)), Err(DecodeError::SchemaMismatch));
}

#[test]
fn schema_on_json_values() {
    let cmd = Json::Object(vec![(
        String::from("AddSMA"),
        Json::Object(vec![(String::from("period"), Json::Number(String::from("42.0")))]),
    )]);
    assert_eq!(command_from_json(&cmd), Some(Command::AddSMA { period: num("42.0") }));
    assert_eq!(command_from_json(&Json::Str(String::from("Shutdown"))), Some(Command::Shutdown));
    assert_eq!(command_from_json(&Json::Bool(true)), None);
    assert_eq!(response_from_json(&Json::Str(String::from("Ok"))), Some(Response::Okay));
    let w = wrapped_command_from_json(&sample_object("cmd", cmd)).unwrap();
    assert_eq!(w.uuid.as_u128(), SAMPLE_VALUE);
    let r = wrapped_response_from_json(&sample_object("res", Json::Str(String::from("Pong")))).unwrap();
    assert_eq!(r.res, Response::Pong);
    let bad = Json::Object(vec![
        (String::from("res"), Json::Str(String::from("Pong"))),
        (String::from("uuid"), Json::Str(String::from("nope"))),
    ]);
    assert_eq!(wrapped_response_from_json(&bad), Err(DecodeError::InvalidIdentifier));
    assert_eq!(wrapped_command_from_json(&Json::Null), Err(DecodeError::SchemaMismatch));
}
