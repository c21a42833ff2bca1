//! The schema reads back every message from the JSON value that its encoding
//! writes. (That serde_json reads that value from the encoded text is the
//! outside crate's part, and is not stated here.)
use vstd::prelude::*;
use crate::codec::{word_ok, word_ping, word_pong, word_restart, word_shutdown};
use crate::ident::{lemma_uuid_text_round_trip, uuid_text};
use crate::json::Json;
use crate::message::{CommandView, DecodeError, ResponseView};
use crate::number::number_value;
use crate::schema::{
    command_of_json, lookup, response_of_json, word_add, word_cmd, word_error, word_period,
    word_remove, word_res, word_status, word_uuid, wrapped_command_of_json,
    wrapped_response_of_json,
};

verus! {

/// `j` is an object with exactly one member, `key` with value `v`.
pub open spec fn single_member(j: Json, key: Seq<char>, v: Json) -> bool {
    match j {
        Json::Object(m) => m@.len() == 1 && m@[0].0@ == key && m@[0].1 == v,
        _ => false,
    }
}

/// `j` is a string whose characters are `t`.
pub open spec fn json_text_is(j: Json, t: Seq<char>) -> bool {
    match j {
        Json::Str(s) => s@ == t,
        _ => false,
    }
}

/// `j` is the JSON value that the encoding of `c` writes.
pub open spec fn command_json(j: Json, c: CommandView) -> bool {
    match c {
        CommandView::Ping => json_text_is(j, word_ping()),
        CommandView::Restart => json_text_is(j, word_restart()),
        CommandView::Shutdown => json_text_is(j, word_shutdown()),
        CommandView::AddSMA { period } => match j {
            Json::Object(m) => m@.len() == 1 && m@[0].0@ == word_add() && period_json(m@[0].1, period),
            _ => false,
        },
        CommandView::RemoveSMA { period } => match j {
            Json::Object(m) => m@.len() == 1 && m@[0].0@ == word_remove() && period_json(m@[0].1, period),
            _ => false,
        },
    }
}

/// `v` is the object `{"period": n}`, with `n` a number whose canonical
/// text is `period`.
pub open spec fn period_json(v: Json, period: Seq<char>) -> bool {
    match v {
        Json::Object(f) => f@.len() == 1 && f@[0].0@ == word_period() && match f@[0].1 {
            Json::Number(n) => number_value(n@) == Some(period),
            _ => false,
        },
        _ => false,
    }
}

/// `j` is the JSON value that the encoding of `r` writes.
pub open spec fn response_json(j: Json, r: ResponseView) -> bool {
    match r {
        ResponseView::Okay => json_text_is(j, word_ok()),
        ResponseView::Pong => json_text_is(j, word_pong()),
        ResponseView::Error { status } => match j {
            Json::Object(m) => m@.len() == 1 && m@[0].0@ == word_error() && match m@[0].1 {
                Json::Object(f) => f@.len() == 1 && f@[0].0@ == word_status() && json_text_is(
                    f@[0].1,
                    status,
                ),
                _ => false,
            },
            _ => false,
        },
    }
}

/// `j` is an object with exactly the members `uuid`, holding the canonical
/// text of `id`, and `key`, holding `payload`, in either order.
pub open spec fn envelope_json(j: Json, id: u128, key: Seq<char>, payload: Json) -> bool {
    match j {
        Json::Object(m) => m@.len() == 2 && (forall|i: int|
            0 <= i < 2 ==> (#[trigger] m@[i].0@ == word_uuid() && json_text_is(m@[i].1, uuid_text(id)))
                || (m@[i].0@ == key && m@[i].1 == payload)) && m@[0].0@ != m@[1].0@,
        _ => false,
    }
}

proof fn lemma_lookup_pair(m: Seq<(String, Json)>, key: Seq<char>, i: int)
    requires
        m.len() == 2,
        0 <= i < 2,
        m[i].0@ == key,
        m[0].0@ != m[1].0@,
    ensures
        lookup(m, key) == Some(m[i].1),
{
    if i == 1 {
        let rest = m.skip(1);
        assert(rest[0] == m[1]);
        assert(rest.len() == 1);
        assert(m[0].0@ != key);
        assert(rest[0].0@ == key);
        assert(lookup(rest, key) == Some(rest[0].1));
        assert(lookup(m, key) == lookup(rest, key));
    } else {
        assert(m[0].0@ == key);
    }
}

/// Every command is read back from the JSON value of its encoding.
pub proof fn lemma_command_reads_back(j: Json, c: CommandView)
    requires
        command_json(j, c),
    ensures
        command_of_json(j) == Some(c),
{
    match c {
        CommandView::AddSMA { period } => {
            if let Json::Object(m) = j {
                if let Json::Object(f) = m@[0].1 {
                    assert(lookup(f@, word_period()) == Some(f@[0].1));
                }
            }
        },
        CommandView::RemoveSMA { period } => {
            if let Json::Object(m) = j {
                if let Json::Object(f) = m@[0].1 {
                    assert(lookup(f@, word_period()) == Some(f@[0].1));
                }
            }
        },
        _ => {},
    }
}

/// Every response is read back from the JSON value of its encoding.
pub proof fn lemma_response_reads_back(j: Json, r: ResponseView)
    requires
        response_json(j, r),
    ensures
        response_of_json(j) == Some(r),
{
    if let ResponseView::Error { status } = r {
        if let Json::Object(m) = j {
            if let Json::Object(f) = m@[0].1 {
                assert(lookup(f@, word_status()) == Some(f@[0].1));
            }
        }
    }
}

/// Every wrapped command is read back, identifier and command, from the JSON
/// value of its encoding.
pub proof fn lemma_wrapped_command_reads_back(j: Json, id: u128, c: CommandView, payload: Json)
    requires
        command_json(payload, c),
        envelope_json(j, id, word_cmd(), payload),
    ensures
        wrapped_command_of_json(j) == Ok::<(u128, CommandView), DecodeError>((id, c)),
{
    lemma_uuid_text_round_trip(id);
    lemma_command_reads_back(payload, c);
    if let Json::Object(m) = j {
        let iu: int = if m@[0].0@ == word_uuid() { 0 } else { 1 };
        let ic: int = 1 - iu;
        assert(m@[0].0@ == word_uuid() || m@[1].0@ == word_uuid()) by {
            if m@[0].0@ != word_uuid() {
                assert(m@[0].0@ == word_cmd());
                assert(m@[1].0@ != word_cmd());
            }
        }
        assert(word_uuid() != word_cmd());
        lemma_lookup_pair(m@, word_uuid(), iu);
        assert(m@[ic].0@ == word_cmd());
        lemma_lookup_pair(m@, word_cmd(), ic);
    }
}

/// Every wrapped response is read back, identifier and response, from the
/// JSON value of its encoding.
pub proof fn lemma_wrapped_response_reads_back(j: Json, id: u128, r: ResponseView, payload: Json)
    requires
        response_json(payload, r),
        envelope_json(j, id, word_res(), payload),
    ensures
        wrapped_response_of_json(j) == Ok::<(u128, ResponseView), DecodeError>((id, r)),
{
    lemma_uuid_text_round_trip(id);
    lemma_response_reads_back(payload, r);
    if let Json::Object(m) = j {
        let iu: int = if m@[0].0@ == word_uuid() { 0 } else { 1 };
        let ir: int = 1 - iu;
        assert(m@[0].0@ == word_uuid() || m@[1].0@ == word_uuid()) by {
            if m@[0].0@ != word_uuid() {
                assert(m@[0].0@ == word_res());
                assert(m@[1].0@ != word_res());
            }
        }
        assert(word_uuid() != word_res());
        lemma_lookup_pair(m@, word_uuid(), iu);
        assert(m@[ir].0@ == word_res());
        lemma_lookup_pair(m@, word_res(), ir);
    }
}

} // verus!
