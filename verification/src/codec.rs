//! Canonical JSON encoding of conversations.
//!
//! A conversation serializes to a JSON array of role-tagged objects and
//! deserializes back; [`lemma_conversation_round_trip`] proves that decoding
//! an encoded conversation returns it unchanged, so every property of the
//! original — the tool-result correlation invariant among them — survives
//! the round trip.

use vstd::prelude::*;

use crate::json::{get_str, json_get, json_member, json_view, JsonSpec, JsonValue};
use crate::messages::{
    AssistantContent, AssistantContentSpec, ImageContent, ImageContentSpec, Message, MessageSpec,
    Metadata, SystemContent, ToolCall, ToolCallSpec, ToolResult, ToolResultSpec, UserContent,
    UserContentSpec,
};

verus! {

/// A member lookup finds the member at position `i` when no earlier member
/// shares its key.
pub proof fn lemma_json_member_at(members: Seq<(Seq<char>, JsonSpec)>, i: int)
    requires
        0 <= i < members.len(),
        forall|j: int| 0 <= j < i ==> (#[trigger] members[j]).0 != members[i].0,
    ensures
        json_member(members, members[i].0) == Some(members[i].1),
    decreases i,
{
    if i > 0 {
        lemma_json_member_at(members.skip(1), i - 1);
        assert(members.skip(1)[i - 1] == members[i]);
        assert forall|j: int| 0 <= j < i - 1 implies (#[trigger] members.skip(1)[j]).0
            != members.skip(1)[i - 1].0 by {
            assert(members.skip(1)[j] == members[j + 1]);
        }
    }
}

/// An optional text as JSON: the text, or null.
pub open spec fn enc_opt_str(s: Option<Seq<char>>) -> JsonSpec {
    match s {
        Some(x) => JsonSpec::Str(x),
        None => JsonSpec::Null,
    }
}

/// Reads an optional text back; any other shape is malformed.
pub open spec fn dec_opt_str(j: JsonSpec) -> Option<Option<Seq<char>>> {
    match j {
        JsonSpec::Null => Some(None),
        JsonSpec::Str(x) => Some(Some(x)),
        _ => None,
    }
}

/// Metadata as JSON: the mapping as an object, or null when absent.
pub open spec fn enc_meta(m: Option<Seq<(Seq<char>, JsonSpec)>>) -> JsonSpec {
    match m {
        Some(obj) => JsonSpec::Obj(obj),
        None => JsonSpec::Null,
    }
}

/// Reads metadata back; any other shape is malformed.
pub open spec fn dec_meta(j: Option<JsonSpec>) -> Option<Option<Seq<(Seq<char>, JsonSpec)>>> {
    match j {
        Some(JsonSpec::Null) => Some(None),
        Some(JsonSpec::Obj(o)) => Some(Some(o)),
        _ => None,
    }
}

/// One user content part as JSON.
pub open spec fn enc_user_part(p: UserContentSpec) -> JsonSpec {
    match p {
        UserContentSpec::Text(t) => JsonSpec::Obj(
            seq![("type"@, JsonSpec::Str("text"@)), ("text"@, JsonSpec::Str(t))],
        ),
        UserContentSpec::Image(img) => JsonSpec::Obj(
            seq![
                ("type"@, JsonSpec::Str("image"@)),
                ("url"@, enc_opt_str(img.url)),
                ("base64"@, enc_opt_str(img.base64)),
                ("mime_type"@, enc_opt_str(img.mime_type)),
            ],
        ),
    }
}

/// Reads one user content part back.
pub open spec fn dec_user_part(j: JsonSpec) -> Option<UserContentSpec> {
    match json_get(j, "type"@) {
        Some(JsonSpec::Str(t)) => if t == "text"@ {
            match json_get(j, "text"@) {
                Some(JsonSpec::Str(x)) => Some(UserContentSpec::Text(x)),
                _ => None,
            }
        } else if t == "image"@ {
            match (json_get(j, "url"@), json_get(j, "base64"@), json_get(j, "mime_type"@)) {
                (Some(u), Some(b), Some(m)) => match (dec_opt_str(u), dec_opt_str(b), dec_opt_str(
                    m,
                )) {
                    (Some(url), Some(base64), Some(mime_type)) => Some(
                        UserContentSpec::Image(ImageContentSpec { url, base64, mime_type }),
                    ),
                    _ => None,
                },
                _ => None,
            }
        } else {
            None
        },
        _ => None,
    }
}

/// One assistant content part as JSON.
pub open spec fn enc_assistant_part(p: AssistantContentSpec) -> JsonSpec {
    match p {
        AssistantContentSpec::Text(t) => JsonSpec::Obj(
            seq![("type"@, JsonSpec::Str("text"@)), ("text"@, JsonSpec::Str(t))],
        ),
        AssistantContentSpec::ToolCall(tc) => JsonSpec::Obj(
            seq![
                ("type"@, JsonSpec::Str("tool_call"@)),
                ("id"@, JsonSpec::Str(tc.id)),
                ("name"@, JsonSpec::Str(tc.name)),
                ("arguments"@, tc.arguments),
            ],
        ),
    }
}

/// Reads one assistant content part back.
pub open spec fn dec_assistant_part(j: JsonSpec) -> Option<AssistantContentSpec> {
    match json_get(j, "type"@) {
        Some(JsonSpec::Str(t)) => if t == "text"@ {
            match json_get(j, "text"@) {
                Some(JsonSpec::Str(x)) => Some(AssistantContentSpec::Text(x)),
                _ => None,
            }
        } else if t == "tool_call"@ {
            match (json_get(j, "id"@), json_get(j, "name"@), json_get(j, "arguments"@)) {
                (Some(JsonSpec::Str(id)), Some(JsonSpec::Str(name)), Some(arguments)) => Some(
                    AssistantContentSpec::ToolCall(ToolCallSpec { id, name, arguments }),
                ),
                _ => None,
            }
        } else {
            None
        },
        _ => None,
    }
}

/// One tool result as JSON.
pub open spec fn enc_result(r: ToolResultSpec) -> JsonSpec {
    JsonSpec::Obj(
        seq![
            ("tool_call_id"@, JsonSpec::Str(r.tool_call_id)),
            ("result"@, r.result),
            ("is_error"@, JsonSpec::Bool(r.is_error)),
        ],
    )
}

/// Reads one tool result back.
pub open spec fn dec_result(j: JsonSpec) -> Option<ToolResultSpec> {
    match (json_get(j, "tool_call_id"@), json_get(j, "result"@), json_get(j, "is_error"@)) {
        (Some(JsonSpec::Str(tool_call_id)), Some(result), Some(JsonSpec::Bool(is_error))) => Some(
            ToolResultSpec { tool_call_id, result, is_error },
        ),
        _ => None,
    }
}

/// System text parts as JSON strings, in order.
pub open spec fn enc_sys_parts(ps: Seq<Seq<char>>) -> Seq<JsonSpec>
    decreases ps.len(),
{
    if ps.len() == 0 {
        Seq::empty()
    } else {
        seq![JsonSpec::Str(ps[0])] + enc_sys_parts(ps.skip(1))
    }
}

/// Reads system text parts back.
pub open spec fn dec_sys_parts(items: Seq<JsonSpec>) -> Option<Seq<Seq<char>>>
    decreases items.len(),
{
    if items.len() == 0 {
        Some(Seq::empty())
    } else {
        match items[0] {
            JsonSpec::Str(t) => match dec_sys_parts(items.skip(1)) {
                Some(rest) => Some(seq![t] + rest),
                None => None,
            },
            _ => None,
        }
    }
}

/// User content parts as JSON, in order.
pub open spec fn enc_user_parts(ps: Seq<UserContentSpec>) -> Seq<JsonSpec>
    decreases ps.len(),
{
    if ps.len() == 0 {
        Seq::empty()
    } else {
        seq![enc_user_part(ps[0])] + enc_user_parts(ps.skip(1))
    }
}

/// Reads user content parts back.
pub open spec fn dec_user_parts(items: Seq<JsonSpec>) -> Option<Seq<UserContentSpec>>
    decreases items.len(),
{
    if items.len() == 0 {
        Some(Seq::empty())
    } else {
        match dec_user_part(items[0]) {
            Some(p) => match dec_user_parts(items.skip(1)) {
                Some(rest) => Some(seq![p] + rest),
                None => None,
            },
            None => None,
        }
    }
}

/// Assistant content parts as JSON, in order.
pub open spec fn enc_assistant_parts(ps: Seq<AssistantContentSpec>) -> Seq<JsonSpec>
    decreases ps.len(),
{
    if ps.len() == 0 {
        Seq::empty()
    } else {
        seq![enc_assistant_part(ps[0])] + enc_assistant_parts(ps.skip(1))
    }
}

/// Reads assistant content parts back.
pub open spec fn dec_assistant_parts(items: Seq<JsonSpec>) -> Option<Seq<AssistantContentSpec>>
    decreases items.len(),
{
    if items.len() == 0 {
        Some(Seq::empty())
    } else {
        match dec_assistant_part(items[0]) {
            Some(p) => match dec_assistant_parts(items.skip(1)) {
                Some(rest) => Some(seq![p] + rest),
                None => None,
            },
            None => None,
        }
    }
}

/// Tool results as JSON, in order.
pub open spec fn enc_results(rs: Seq<ToolResultSpec>) -> Seq<JsonSpec>
    decreases rs.len(),
{
    if rs.len() == 0 {
        Seq::empty()
    } else {
        seq![enc_result(rs[0])] + enc_results(rs.skip(1))
    }
}

/// Reads tool results back.
pub open spec fn dec_results(items: Seq<JsonSpec>) -> Option<Seq<ToolResultSpec>>
    decreases items.len(),
{
    if items.len() == 0 {
        Some(Seq::empty())
    } else {
        match dec_result(items[0]) {
            Some(r) => match dec_results(items.skip(1)) {
                Some(rest) => Some(seq![r] + rest),
                None => None,
            },
            None => None,
        }
    }
}

/// One message as a role-tagged JSON object.
pub open spec fn enc_message(m: MessageSpec) -> JsonSpec {
    match m {
        MessageSpec::System { content, metadata } => JsonSpec::Obj(
            seq![
                ("role"@, JsonSpec::Str("system"@)),
                ("content"@, JsonSpec::Arr(enc_sys_parts(content))),
                ("metadata"@, enc_meta(metadata)),
            ],
        ),
        MessageSpec::User { content, metadata } => JsonSpec::Obj(
            seq![
                ("role"@, JsonSpec::Str("user"@)),
                ("content"@, JsonSpec::Arr(enc_user_parts(content))),
                ("metadata"@, enc_meta(metadata)),
            ],
        ),
        MessageSpec::Assistant { content, metadata } => JsonSpec::Obj(
            seq![
                ("role"@, JsonSpec::Str("assistant"@)),
                ("content"@, JsonSpec::Arr(enc_assistant_parts(content))),
                ("metadata"@, enc_meta(metadata)),
            ],
        ),
        MessageSpec::Tool { tool_results, metadata } => JsonSpec::Obj(
            seq![
                ("role"@, JsonSpec::Str("tool"@)),
                ("tool_results"@, JsonSpec::Arr(enc_results(tool_results))),
                ("metadata"@, enc_meta(metadata)),
            ],
        ),
    }
}

/// Reads one message back.
pub open spec fn dec_message(j: JsonSpec) -> Option<MessageSpec> {
    match json_get(j, "role"@) {
        Some(JsonSpec::Str(role)) => if role == "system"@ {
            match json_get(j, "content"@) {
                Some(JsonSpec::Arr(items)) => match (dec_sys_parts(items), dec_meta(
                    json_get(j, "metadata"@),
                )) {
                    (Some(content), Some(metadata)) => Some(
                        MessageSpec::System { content, metadata },
                    ),
                    _ => None,
                },
                _ => None,
            }
        } else if role == "user"@ {
            match json_get(j, "content"@) {
                Some(JsonSpec::Arr(items)) => match (dec_user_parts(items), dec_meta(
                    json_get(j, "metadata"@),
                )) {
                    (Some(content), Some(metadata)) => Some(
                        MessageSpec::User { content, metadata },
                    ),
                    _ => None,
                },
                _ => None,
            }
        } else if role == "assistant"@ {
            match json_get(j, "content"@) {
                Some(JsonSpec::Arr(items)) => match (dec_assistant_parts(items), dec_meta(
                    json_get(j, "metadata"@),
                )) {
                    (Some(content), Some(metadata)) => Some(
                        MessageSpec::Assistant { content, metadata },
                    ),
                    _ => None,
                },
                _ => None,
            }
        } else if role == "tool"@ {
            match json_get(j, "tool_results"@) {
                Some(JsonSpec::Arr(items)) => match (dec_results(items), dec_meta(
                    json_get(j, "metadata"@),
                )) {
                    (Some(tool_results), Some(metadata)) => Some(
                        MessageSpec::Tool { tool_results, metadata },
                    ),
                    _ => None,
                },
                _ => None,
            }
        } else {
            None
        },
        _ => None,
    }
}

/// A conversation as a JSON array of messages.
pub open spec fn enc_messages(msgs: Seq<MessageSpec>) -> Seq<JsonSpec>
    decreases msgs.len(),
{
    if msgs.len() == 0 {
        Seq::empty()
    } else {
        seq![enc_message(msgs[0])] + enc_messages(msgs.skip(1))
    }
}

/// Reads a conversation back.
pub open spec fn dec_messages(items: Seq<JsonSpec>) -> Option<Seq<MessageSpec>>
    decreases items.len(),
{
    if items.len() == 0 {
        Some(Seq::empty())
    } else {
        match dec_message(items[0]) {
            Some(m) => match dec_messages(items.skip(1)) {
                Some(rest) => Some(seq![m] + rest),
                None => None,
            },
            None => None,
        }
    }
}

/// The canonical encoding of a conversation.
pub open spec fn enc_conversation(msgs: Seq<MessageSpec>) -> JsonSpec {
    JsonSpec::Arr(enc_messages(msgs))
}

/// The canonical decoding of a conversation.
pub open spec fn dec_conversation(j: JsonSpec) -> Option<Seq<MessageSpec>> {
    match j {
        JsonSpec::Arr(items) => dec_messages(items),
        _ => None,
    }
}


proof fn lemma_rt_user_part(p: UserContentSpec)
    ensures
        dec_user_part(enc_user_part(p)) == Some(p),
{
    reveal_strlit("type");
    reveal_strlit("text");
    reveal_strlit("image");
    reveal_strlit("url");
    reveal_strlit("base64");
    reveal_strlit("mime_type");
    assert("type"@.len() == 4);
    assert("text"@.len() == 4);
    assert("image"@.len() == 5);
    assert("url"@.len() == 3);
    assert("base64"@.len() == 6);
    assert("mime_type"@.len() == 9);
    assert("type"@[1] == 'y');
    assert("text"@[1] == 'e');
    match p {
        UserContentSpec::Text(t) => {
            let members = seq![("type"@, JsonSpec::Str("text"@)), ("text"@, JsonSpec::Str(t))];
            assert("type"@ != "text"@);
            lemma_json_member_at(members, 0);
            lemma_json_member_at(members, 1);
        },
        UserContentSpec::Image(img) => {
            let members = seq![
                ("type"@, JsonSpec::Str("image"@)),
                ("url"@, enc_opt_str(img.url)),
                ("base64"@, enc_opt_str(img.base64)),
                ("mime_type"@, enc_opt_str(img.mime_type)),
            ];
            assert("type"@ != "url"@);
            assert("type"@ != "base64"@);
            assert("type"@ != "mime_type"@);
            assert("url"@ != "base64"@);
            assert("url"@ != "mime_type"@);
            assert("base64"@ != "mime_type"@);
            assert("text"@ != "image"@);
            lemma_json_member_at(members, 0);
            lemma_json_member_at(members, 1);
            lemma_json_member_at(members, 2);
            lemma_json_member_at(members, 3);
        },
    }
}

proof fn lemma_rt_assistant_part(p: AssistantContentSpec)
    ensures
        dec_assistant_part(enc_assistant_part(p)) == Some(p),
{
    reveal_strlit("type");
    reveal_strlit("text");
    reveal_strlit("tool_call");
    reveal_strlit("id");
    reveal_strlit("name");
    reveal_strlit("arguments");
    assert("type"@.len() == 4);
    assert("text"@.len() == 4);
    assert("tool_call"@.len() == 9);
    assert("id"@.len() == 2);
    assert("name"@.len() == 4);
    assert("arguments"@.len() == 9);
    assert("type"@[1] == 'y');
    assert("text"@[1] == 'e');
    assert("type"@[0] == 't');
    assert("name"@[0] == 'n');
    assert("tool_call"@[0] == 't');
    assert("arguments"@[0] == 'a');
    match p {
        AssistantContentSpec::Text(t) => {
            let members = seq![("type"@, JsonSpec::Str("text"@)), ("text"@, JsonSpec::Str(t))];
            assert("type"@ != "text"@);
            lemma_json_member_at(members, 0);
            lemma_json_member_at(members, 1);
        },
        AssistantContentSpec::ToolCall(tc) => {
            let members = seq![
                ("type"@, JsonSpec::Str("tool_call"@)),
                ("id"@, JsonSpec::Str(tc.id)),
                ("name"@, JsonSpec::Str(tc.name)),
                ("arguments"@, tc.arguments),
            ];
            assert("type"@ != "id"@);
            assert("type"@ != "name"@);
            assert("type"@ != "arguments"@);
            assert("id"@ != "name"@);
            assert("id"@ != "arguments"@);
            assert("name"@ != "arguments"@);
            assert("text"@ != "tool_call"@);
            lemma_json_member_at(members, 0);
            lemma_json_member_at(members, 1);
            lemma_json_member_at(members, 2);
            lemma_json_member_at(members, 3);
        },
    }
}

proof fn lemma_rt_result(r: ToolResultSpec)
    ensures
        dec_result(enc_result(r)) == Some(r),
{
    reveal_strlit("tool_call_id");
    reveal_strlit("result");
    reveal_strlit("is_error");
    assert("tool_call_id"@.len() == 12);
    assert("result"@.len() == 6);
    assert("is_error"@.len() == 8);
    let members = seq![
        ("tool_call_id"@, JsonSpec::Str(r.tool_call_id)),
        ("result"@, r.result),
        ("is_error"@, JsonSpec::Bool(r.is_error)),
    ];
    assert("tool_call_id"@ != "result"@);
    assert("tool_call_id"@ != "is_error"@);
    assert("result"@ != "is_error"@);
    lemma_json_member_at(members, 0);
    lemma_json_member_at(members, 1);
    lemma_json_member_at(members, 2);
}

proof fn lemma_rt_sys_parts(ps: Seq<Seq<char>>)
    ensures
        dec_sys_parts(enc_sys_parts(ps)) == Some(ps),
    decreases ps.len(),
{
    if ps.len() > 0 {
        lemma_rt_sys_parts(ps.skip(1));
        let items = enc_sys_parts(ps);
        assert(items[0] == JsonSpec::Str(ps[0]));
        assert(items.skip(1) =~= enc_sys_parts(ps.skip(1)));
        assert(seq![ps[0]] + ps.skip(1) =~= ps);
    }
}

proof fn lemma_rt_user_parts(ps: Seq<UserContentSpec>)
    ensures
        dec_user_parts(enc_user_parts(ps)) == Some(ps),
    decreases ps.len(),
{
    if ps.len() > 0 {
        lemma_rt_user_part(ps[0]);
        lemma_rt_user_parts(ps.skip(1));
        let items = enc_user_parts(ps);
        assert(items[0] == enc_user_part(ps[0]));
        assert(items.skip(1) =~= enc_user_parts(ps.skip(1)));
        assert(seq![ps[0]] + ps.skip(1) =~= ps);
    }
}

proof fn lemma_rt_assistant_parts(ps: Seq<AssistantContentSpec>)
    ensures
        dec_assistant_parts(enc_assistant_parts(ps)) == Some(ps),
    decreases ps.len(),
{
    if ps.len() > 0 {
        lemma_rt_assistant_part(ps[0]);
        lemma_rt_assistant_parts(ps.skip(1));
        let items = enc_assistant_parts(ps);
        assert(items[0] == enc_assistant_part(ps[0]));
        assert(items.skip(1) =~= enc_assistant_parts(ps.skip(1)));
        assert(seq![ps[0]] + ps.skip(1) =~= ps);
    }
}

proof fn lemma_rt_results(rs: Seq<ToolResultSpec>)
    ensures
        dec_results(enc_results(rs)) == Some(rs),
    decreases rs.len(),
{
    if rs.len() > 0 {
        lemma_rt_result(rs[0]);
        lemma_rt_results(rs.skip(1));
        let items = enc_results(rs);
        assert(items[0] == enc_result(rs[0]));
        assert(items.skip(1) =~= enc_results(rs.skip(1)));
        assert(seq![rs[0]] + rs.skip(1) =~= rs);
    }
}

/// Decoding an encoded message returns it unchanged.
pub proof fn lemma_message_round_trip(m: MessageSpec)
    ensures
        dec_message(enc_message(m)) == Some(m),
{
    reveal_strlit("role");
    reveal_strlit("content");
    reveal_strlit("metadata");
    reveal_strlit("tool_results");
    reveal_strlit("system");
    reveal_strlit("user");
    reveal_strlit("assistant");
    reveal_strlit("tool");
    assert("role"@.len() == 4);
    assert("content"@.len() == 7);
    assert("metadata"@.len() == 8);
    assert("tool_results"@.len() == 12);
    assert("system"@.len() == 6);
    assert("user"@.len() == 4);
    assert("assistant"@.len() == 9);
    assert("tool"@.len() == 4);
    assert("user"@[0] == 'u');
    assert("tool"@[0] == 't');
    assert("role"@[0] == 'r');
    assert("user"@[1] == 's');
    assert("tool"@[1] == 'o');
    assert("role"@[1] == 'o');
    assert("role"@ != "content"@);
    assert("role"@ != "metadata"@);
    assert("content"@ != "metadata"@);
    assert("role"@ != "tool_results"@);
    assert("tool_results"@ != "metadata"@);
    assert("system"@ != "user"@);
    assert("system"@ != "assistant"@);
    assert("system"@ != "tool"@);
    assert("user"@ != "assistant"@);
    assert("user"@ != "tool"@);
    assert("assistant"@ != "tool"@);
    match m {
        MessageSpec::System { content, metadata } => {
            let members = seq![
                ("role"@, JsonSpec::Str("system"@)),
                ("content"@, JsonSpec::Arr(enc_sys_parts(content))),
                ("metadata"@, enc_meta(metadata)),
            ];
            lemma_json_member_at(members, 0);
            lemma_json_member_at(members, 1);
            lemma_json_member_at(members, 2);
            lemma_rt_sys_parts(content);
        },
        MessageSpec::User { content, metadata } => {
            let members = seq![
                ("role"@, JsonSpec::Str("user"@)),
                ("content"@, JsonSpec::Arr(enc_user_parts(content))),
                ("metadata"@, enc_meta(metadata)),
            ];
            lemma_json_member_at(members, 0);
            lemma_json_member_at(members, 1);
            lemma_json_member_at(members, 2);
            lemma_rt_user_parts(content);
        },
        MessageSpec::Assistant { content, metadata } => {
            let members = seq![
                ("role"@, JsonSpec::Str("assistant"@)),
                ("content"@, JsonSpec::Arr(enc_assistant_parts(content))),
                ("metadata"@, enc_meta(metadata)),
            ];
            lemma_json_member_at(members, 0);
            lemma_json_member_at(members, 1);
            lemma_json_member_at(members, 2);
            lemma_rt_assistant_parts(content);
        },
        MessageSpec::Tool { tool_results, metadata } => {
            let members = seq![
                ("role"@, JsonSpec::Str("tool"@)),
                ("tool_results"@, JsonSpec::Arr(enc_results(tool_results))),
                ("metadata"@, enc_meta(metadata)),
            ];
            lemma_json_member_at(members, 0);
            lemma_json_member_at(members, 1);
            lemma_json_member_at(members, 2);
            lemma_rt_results(tool_results);
        },
    }
}

/// Decoding an encoded conversation returns it unchanged: every property of
/// the conversation — among them the correlation of each tool result to a
/// preceding assistant tool call — survives the round trip.
pub proof fn lemma_conversation_round_trip(msgs: Seq<MessageSpec>)
    ensures
        dec_conversation(enc_conversation(msgs)) == Some(msgs),
    decreases msgs.len(),
{
    if msgs.len() > 0 {
        lemma_message_round_trip(msgs[0]);
        lemma_conversation_round_trip(msgs.skip(1));
        let items = enc_messages(msgs);
        assert(items[0] == enc_message(msgs[0]));
        assert(items.skip(1) =~= enc_messages(msgs.skip(1)));
        assert(dec_messages(items.skip(1)) == dec_messages(enc_messages(msgs.skip(1))));
        assert(seq![msgs[0]] + msgs.skip(1) =~= msgs);
    }
}


fn obj2(k1: &str, v1: JsonValue, k2: &str, v2: JsonValue) -> (r: JsonValue)
    ensures
        json_view(r) == JsonSpec::Obj(seq![(k1@, json_view(v1)), (k2@, json_view(v2))]),
{
    let ghost s1 = json_view(v1);
    let ghost s2 = json_view(v2);
    let mut members: Vec<(String, JsonValue)> = Vec::new();
    members.push((k1.to_owned(), v1));
    members.push((k2.to_owned(), v2));
    let r = JsonValue::Obj(members);
    proof {
        crate::json::lemma_json_obj_view(r->Obj_0@);
        assert(crate::json::json_obj_view(r->Obj_0@) =~= seq![(k1@, s1), (k2@, s2)]);
    }
    r
}

fn obj3(k1: &str, v1: JsonValue, k2: &str, v2: JsonValue, k3: &str, v3: JsonValue) -> (r:
    JsonValue)
    ensures
        json_view(r) == JsonSpec::Obj(
            seq![(k1@, json_view(v1)), (k2@, json_view(v2)), (k3@, json_view(v3))],
        ),
{
    let ghost s1 = json_view(v1);
    let ghost s2 = json_view(v2);
    let ghost s3 = json_view(v3);
    let mut members: Vec<(String, JsonValue)> = Vec::new();
    members.push((k1.to_owned(), v1));
    members.push((k2.to_owned(), v2));
    members.push((k3.to_owned(), v3));
    let r = JsonValue::Obj(members);
    proof {
        crate::json::lemma_json_obj_view(r->Obj_0@);
        assert(crate::json::json_obj_view(r->Obj_0@) =~= seq![(k1@, s1), (k2@, s2), (k3@, s3)]);
    }
    r
}

fn obj4(
    k1: &str,
    v1: JsonValue,
    k2: &str,
    v2: JsonValue,
    k3: &str,
    v3: JsonValue,
    k4: &str,
    v4: JsonValue,
) -> (r: JsonValue)
    ensures
        json_view(r) == JsonSpec::Obj(
            seq![
                (k1@, json_view(v1)),
                (k2@, json_view(v2)),
                (k3@, json_view(v3)),
                (k4@, json_view(v4)),
            ],
        ),
{
    let ghost s1 = json_view(v1);
    let ghost s2 = json_view(v2);
    let ghost s3 = json_view(v3);
    let ghost s4 = json_view(v4);
    let mut members: Vec<(String, JsonValue)> = Vec::new();
    members.push((k1.to_owned(), v1));
    members.push((k2.to_owned(), v2));
    members.push((k3.to_owned(), v3));
    members.push((k4.to_owned(), v4));
    let r = JsonValue::Obj(members);
    proof {
        crate::json::lemma_json_obj_view(r->Obj_0@);
        assert(crate::json::json_obj_view(r->Obj_0@) =~= seq![
            (k1@, s1),
            (k2@, s2),
            (k3@, s3),
            (k4@, s4),
        ]);
    }
    r
}

fn opt_str_json(s: &Option<String>) -> (r: JsonValue)
    ensures
        json_view(r) == enc_opt_str(s.deep_view()),
{
    match s {
        Some(x) => JsonValue::Str(x.clone()),
        None => JsonValue::Null,
    }
}

fn meta_json(m: &Option<Metadata>) -> (r: JsonValue)
    ensures
        json_view(r) == enc_meta(crate::messages::meta_view(*m)),
{
    match m {
        Some(entries) => {
            let mut out: Metadata = Vec::new();
            let n = entries.len();
            let mut i: usize = 0;
            while i < n
                invariant
                    0 <= i <= n,
                    n == entries@.len(),
                    out@.len() == i,
                    forall|j: int|
                        0 <= j < i ==> out@[j].0@ == entries@[j].0@ && json_view(out@[j].1)
                            == json_view(entries@[j].1),
                decreases n - i,
            {
                let k = entries[i].0.clone();
                let v = entries[i].1.deep_clone();
                out.push((k, v));
                i = i + 1;
            }
            proof {
                crate::json::lemma_json_obj_view(out@);
                crate::json::lemma_json_obj_view(entries@);
                assert(crate::json::json_obj_view(out@) =~= crate::json::json_obj_view(entries@));
            }
            JsonValue::Obj(out)
        },
        None => JsonValue::Null,
    }
}

fn encode_user_part(p: &UserContent) -> (r: JsonValue)
    ensures
        json_view(r) == enc_user_part(p.deep_view()),
{
    match p {
        UserContent::Text { text } => obj2(
            "type",
            JsonValue::Str("text".to_owned()),
            "text",
            JsonValue::Str(text.clone()),
        ),
        UserContent::Image { image } => obj4(
            "type",
            JsonValue::Str("image".to_owned()),
            "url",
            opt_str_json(&image.url),
            "base64",
            opt_str_json(&image.base64),
            "mime_type",
            opt_str_json(&image.mime_type),
        ),
    }
}

fn encode_assistant_part(p: &AssistantContent) -> (r: JsonValue)
    ensures
        json_view(r) == enc_assistant_part(p.deep_view()),
{
    match p {
        AssistantContent::Text { text } => obj2(
            "type",
            JsonValue::Str("text".to_owned()),
            "text",
            JsonValue::Str(text.clone()),
        ),
        AssistantContent::ToolCall { tool_call } => obj4(
            "type",
            JsonValue::Str("tool_call".to_owned()),
            "id",
            JsonValue::Str(tool_call.id.clone()),
            "name",
            JsonValue::Str(tool_call.name.clone()),
            "arguments",
            tool_call.arguments.deep_clone(),
        ),
    }
}

fn encode_result(r0: &ToolResult) -> (r: JsonValue)
    ensures
        json_view(r) == enc_result(r0.deep_view()),
{
    obj3(
        "tool_call_id",
        JsonValue::Str(r0.tool_call_id.clone()),
        "result",
        r0.result.deep_clone(),
        "is_error",
        JsonValue::Bool(r0.is_error),
    )
}

/// Encodes one message as a role-tagged JSON object.
#[verifier::loop_isolation(false)]
pub fn encode_message(m: &Message) -> (r: JsonValue)
    ensures
        json_view(r) == enc_message(m.deep_view()),
{
    match m {
        Message::System { content, metadata } => {
            let ghost cv = content.deep_view();
            let mut items: Vec<JsonValue> = Vec::new();
            let n = content.len();
            let mut i: usize = 0;
            proof {
                assert(cv.skip(0) =~= cv);
                crate::json::lemma_json_arr_view(items@);
                assert(crate::json::json_arr_view(items@) =~= Seq::<JsonSpec>::empty());
            }
            while i < n
                invariant
                    0 <= i <= n,
                    crate::json::json_arr_view(items@) + enc_sys_parts(cv.skip(i as int))
                        == enc_sys_parts(cv),
                decreases n - i,
            {
                let ghost pre_items = items@;
                let ghost pre = crate::json::json_arr_view(pre_items);
                proof {
                    assert(cv.skip(i as int)[0] == cv[i as int]);
                    assert(cv.skip(i as int).skip(1) =~= cv.skip(i as int + 1));
                }
                match &content[i] {
                    SystemContent::Text { text } => items.push(JsonValue::Str(text.clone())),
                }
                proof {
                    crate::json::lemma_json_arr_view(pre_items);
                    crate::json::lemma_json_arr_view(items@);
                    assert(items@ =~= pre_items.push(items@[items@.len() - 1]));
                    assert(crate::json::json_arr_view(items@) =~= pre.push(
                        json_view(items@[items@.len() - 1]),
                    ));
                    assert(pre.push(json_view(items@[items@.len() - 1])) + enc_sys_parts(
                        cv.skip(i as int + 1),
                    ) =~= pre + (seq![json_view(items@[items@.len() - 1])] + enc_sys_parts(
                        cv.skip(i as int + 1),
                    )));
                }
                i = i + 1;
            }
            proof {
                assert(cv.skip(n as int) =~= Seq::<Seq<char>>::empty());
                assert(crate::json::json_arr_view(items@) + Seq::<JsonSpec>::empty()
                    =~= crate::json::json_arr_view(items@));
            }
            obj3(
                "role",
                JsonValue::Str("system".to_owned()),
                "content",
                JsonValue::Arr(items),
                "metadata",
                meta_json(metadata),
            )
        },
        Message::User { content, metadata } => {
            let ghost cv = content.deep_view();
            let mut items: Vec<JsonValue> = Vec::new();
            let n = content.len();
            let mut i: usize = 0;
            proof {
                assert(cv.skip(0) =~= cv);
                crate::json::lemma_json_arr_view(items@);
                assert(crate::json::json_arr_view(items@) =~= Seq::<JsonSpec>::empty());
            }
            while i < n
                invariant
                    0 <= i <= n,
                    crate::json::json_arr_view(items@) + enc_user_parts(cv.skip(i as int))
                        == enc_user_parts(cv),
                decreases n - i,
            {
                let ghost pre_items = items@;
                let ghost pre = crate::json::json_arr_view(pre_items);
                proof {
                    assert(cv.skip(i as int)[0] == cv[i as int]);
                    assert(cv.skip(i as int).skip(1) =~= cv.skip(i as int + 1));
                }
                items.push(encode_user_part(&content[i]));
                proof {
                    crate::json::lemma_json_arr_view(pre_items);
                    crate::json::lemma_json_arr_view(items@);
                    assert(items@ =~= pre_items.push(items@[items@.len() - 1]));
                    assert(crate::json::json_arr_view(items@) =~= pre.push(
                        json_view(items@[items@.len() - 1]),
                    ));
                    assert(pre.push(json_view(items@[items@.len() - 1])) + enc_user_parts(
                        cv.skip(i as int + 1),
                    ) =~= pre + (seq![json_view(items@[items@.len() - 1])] + enc_user_parts(
                        cv.skip(i as int + 1),
                    )));
                }
                i = i + 1;
            }
            proof {
                assert(cv.skip(n as int) =~= Seq::<UserContentSpec>::empty());
                assert(crate::json::json_arr_view(items@) + Seq::<JsonSpec>::empty()
                    =~= crate::json::json_arr_view(items@));
            }
            obj3(
                "role",
                JsonValue::Str("user".to_owned()),
                "content",
                JsonValue::Arr(items),
                "metadata",
                meta_json(metadata),
            )
        },
        Message::Assistant { content, metadata } => {
            let ghost cv = content.deep_view();
            let mut items: Vec<JsonValue> = Vec::new();
            let n = content.len();
            let mut i: usize = 0;
            proof {
                assert(cv.skip(0) =~= cv);
                crate::json::lemma_json_arr_view(items@);
                assert(crate::json::json_arr_view(items@) =~= Seq::<JsonSpec>::empty());
            }
            while i < n
                invariant
                    0 <= i <= n,
                    crate::json::json_arr_view(items@) + enc_assistant_parts(cv.skip(i as int))
                        == enc_assistant_parts(cv),
                decreases n - i,
            {
                let ghost pre_items = items@;
                let ghost pre = crate::json::json_arr_view(pre_items);
                proof {
                    assert(cv.skip(i as int)[0] == cv[i as int]);
                    assert(cv.skip(i as int).skip(1) =~= cv.skip(i as int + 1));
                }
                items.push(encode_assistant_part(&content[i]));
                proof {
                    crate::json::lemma_json_arr_view(pre_items);
                    crate::json::lemma_json_arr_view(items@);
                    assert(items@ =~= pre_items.push(items@[items@.len() - 1]));
                    assert(crate::json::json_arr_view(items@) =~= pre.push(
                        json_view(items@[items@.len() - 1]),
                    ));
                    assert(pre.push(json_view(items@[items@.len() - 1])) + enc_assistant_parts(
                        cv.skip(i as int + 1),
                    ) =~= pre + (seq![json_view(items@[items@.len() - 1])] + enc_assistant_parts(
                        cv.skip(i as int + 1),
                    )));
                }
                i = i + 1;
            }
            proof {
                assert(cv.skip(n as int) =~= Seq::<AssistantContentSpec>::empty());
                assert(crate::json::json_arr_view(items@) + Seq::<JsonSpec>::empty()
                    =~= crate::json::json_arr_view(items@));
            }
            obj3(
                "role",
                JsonValue::Str("assistant".to_owned()),
                "content",
                JsonValue::Arr(items),
                "metadata",
                meta_json(metadata),
            )
        },
        Message::Tool { tool_results, metadata } => {
            let ghost cv = tool_results.deep_view();
            let mut items: Vec<JsonValue> = Vec::new();
            let n = tool_results.len();
            let mut i: usize = 0;
            proof {
                assert(cv.skip(0) =~= cv);
                crate::json::lemma_json_arr_view(items@);
                assert(crate::json::json_arr_view(items@) =~= Seq::<JsonSpec>::empty());
            }
            while i < n
                invariant
                    0 <= i <= n,
                    crate::json::json_arr_view(items@) + enc_results(cv.skip(i as int))
                        == enc_results(cv),
                decreases n - i,
            {
                let ghost pre_items = items@;
                let ghost pre = crate::json::json_arr_view(pre_items);
                proof {
                    assert(cv.skip(i as int)[0] == cv[i as int]);
                    assert(cv.skip(i as int).skip(1) =~= cv.skip(i as int + 1));
                }
                items.push(encode_result(&tool_results[i]));
                proof {
                    crate::json::lemma_json_arr_view(pre_items);
                    crate::json::lemma_json_arr_view(items@);
                    assert(items@ =~= pre_items.push(items@[items@.len() - 1]));
                    assert(crate::json::json_arr_view(items@) =~= pre.push(
                        json_view(items@[items@.len() - 1]),
                    ));
                    assert(pre.push(json_view(items@[items@.len() - 1])) + enc_results(
                        cv.skip(i as int + 1),
                    ) =~= pre + (seq![json_view(items@[items@.len() - 1])] + enc_results(
                        cv.skip(i as int + 1),
                    )));
                }
                i = i + 1;
            }
            proof {
                assert(cv.skip(n as int) =~= Seq::<ToolResultSpec>::empty());
                assert(crate::json::json_arr_view(items@) + Seq::<JsonSpec>::empty()
                    =~= crate::json::json_arr_view(items@));
            }
            obj3(
                "role",
                JsonValue::Str("tool".to_owned()),
                "tool_results",
                JsonValue::Arr(items),
                "metadata",
                meta_json(metadata),
            )
        },
    }
}

/// Encodes a conversation as a JSON array of messages.
#[verifier::loop_isolation(false)]
pub fn encode_conversation(msgs: &Vec<Message>) -> (r: JsonValue)
    ensures
        json_view(r) == enc_conversation(msgs.deep_view()),
{
    let ghost mv = msgs.deep_view();
    let mut items: Vec<JsonValue> = Vec::new();
    let n = msgs.len();
    let mut i: usize = 0;
    proof {
        assert(mv.skip(0) =~= mv);
        crate::json::lemma_json_arr_view(items@);
        assert(crate::json::json_arr_view(items@) =~= Seq::<JsonSpec>::empty());
    }
    while i < n
        invariant
            0 <= i <= n,
            crate::json::json_arr_view(items@) + enc_messages(mv.skip(i as int)) == enc_messages(
                mv,
            ),
        decreases n - i,
    {
        let ghost pre_items = items@;
        let ghost pre = crate::json::json_arr_view(pre_items);
        proof {
            assert(mv.skip(i as int)[0] == mv[i as int]);
            assert(mv.skip(i as int).skip(1) =~= mv.skip(i as int + 1));
        }
        items.push(encode_message(&msgs[i]));
        proof {
            crate::json::lemma_json_arr_view(pre_items);
            crate::json::lemma_json_arr_view(items@);
            assert(items@ =~= pre_items.push(items@[items@.len() - 1]));
            assert(crate::json::json_arr_view(items@) =~= pre.push(
                json_view(items@[items@.len() - 1]),
            ));
            assert(pre.push(json_view(items@[items@.len() - 1])) + enc_messages(
                mv.skip(i as int + 1),
            ) =~= pre + (seq![json_view(items@[items@.len() - 1])] + enc_messages(
                mv.skip(i as int + 1),
            )));
        }
        i = i + 1;
    }
    proof {
        assert(mv.skip(n as int) =~= Seq::<MessageSpec>::empty());
        assert(crate::json::json_arr_view(items@) + Seq::<JsonSpec>::empty()
            =~= crate::json::json_arr_view(items@));
    }
    JsonValue::Arr(items)
}


fn decode_opt_str(v: &JsonValue) -> (r: Option<Option<String>>)
    ensures
        match r {
            Some(s) => dec_opt_str(v.deep_view()) == Some(s.deep_view()),
            None => dec_opt_str(v.deep_view()) is None,
        },
{
    match v {
        JsonValue::Null => Some(None),
        JsonValue::Str(x) => Some(Some(x.clone())),
        _ => None,
    }
}

fn decode_meta(v: Option<&JsonValue>) -> (r: Option<Option<Metadata>>)
    ensures
        match r {
            Some(m) => dec_meta(match v {
                Some(j) => Some(j.deep_view()),
                None => None,
            }) == Some(crate::messages::meta_view(m)),
            None => dec_meta(match v {
                Some(j) => Some(j.deep_view()),
                None => None,
            }) is None,
        },
{
    match v {
        Some(JsonValue::Null) => Some(None),
        Some(JsonValue::Obj(entries)) => {
            let mut out: Metadata = Vec::new();
            let n = entries.len();
            let mut i: usize = 0;
            while i < n
                invariant
                    0 <= i <= n,
                    n == entries@.len(),
                    out@.len() == i,
                    forall|j: int|
                        0 <= j < i ==> out@[j].0@ == entries@[j].0@ && json_view(out@[j].1)
                            == json_view(entries@[j].1),
                decreases n - i,
            {
                let k = entries[i].0.clone();
                let val = entries[i].1.deep_clone();
                out.push((k, val));
                i = i + 1;
            }
            proof {
                crate::json::lemma_json_obj_view(out@);
                crate::json::lemma_json_obj_view(entries@);
                assert(crate::json::json_obj_view(out@) =~= crate::json::json_obj_view(entries@));
            }
            Some(Some(out))
        },
        _ => None,
    }
}

fn decode_user_part(v: &JsonValue) -> (r: Option<UserContent>)
    ensures
        match r {
            Some(p) => dec_user_part(v.deep_view()) == Some(p.deep_view()),
            None => dec_user_part(v.deep_view()) is None,
        },
{
    let t = match get_str(v, "type".to_owned()) {
        Some(t) => t,
        None => {
            return None;
        },
    };
    if *t == "text".to_owned() {
        match v.get(&"text".to_owned()) {
            Some(JsonValue::Str(x)) => Some(UserContent::Text { text: x.clone() }),
            _ => None,
        }
    } else if *t == "image".to_owned() {
        let u = match v.get(&"url".to_owned()) {
            Some(x) => x,
            None => {
                return None;
            },
        };
        let b = match v.get(&"base64".to_owned()) {
            Some(x) => x,
            None => {
                return None;
            },
        };
        let m = match v.get(&"mime_type".to_owned()) {
            Some(x) => x,
            None => {
                return None;
            },
        };
        let url = match decode_opt_str(u) {
            Some(s) => s,
            None => {
                return None;
            },
        };
        let base64 = match decode_opt_str(b) {
            Some(s) => s,
            None => {
                return None;
            },
        };
        let mime_type = match decode_opt_str(m) {
            Some(s) => s,
            None => {
                return None;
            },
        };
        Some(UserContent::Image { image: ImageContent { url, base64, mime_type } })
    } else {
        None
    }
}

fn decode_assistant_part(v: &JsonValue) -> (r: Option<AssistantContent>)
    ensures
        match r {
            Some(p) => dec_assistant_part(v.deep_view()) == Some(p.deep_view()),
            None => dec_assistant_part(v.deep_view()) is None,
        },
{
    let t = match get_str(v, "type".to_owned()) {
        Some(t) => t,
        None => {
            return None;
        },
    };
    if *t == "text".to_owned() {
        match v.get(&"text".to_owned()) {
            Some(JsonValue::Str(x)) => Some(AssistantContent::Text { text: x.clone() }),
            _ => None,
        }
    } else if *t == "tool_call".to_owned() {
        let id = match v.get(&"id".to_owned()) {
            Some(JsonValue::Str(s)) => s.clone(),
            _ => {
                return None;
            },
        };
        let name = match v.get(&"name".to_owned()) {
            Some(JsonValue::Str(s)) => s.clone(),
            _ => {
                return None;
            },
        };
        let arguments = match v.get(&"arguments".to_owned()) {
            Some(x) => x.deep_clone(),
            None => {
                return None;
            },
        };
        Some(AssistantContent::ToolCall { tool_call: ToolCall { id, name, arguments } })
    } else {
        None
    }
}

fn decode_result(v: &JsonValue) -> (r: Option<ToolResult>)
    ensures
        match r {
            Some(t) => dec_result(v.deep_view()) == Some(t.deep_view()),
            None => dec_result(v.deep_view()) is None,
        },
{
    let tool_call_id = match v.get(&"tool_call_id".to_owned()) {
        Some(JsonValue::Str(s)) => s.clone(),
        _ => {
            return None;
        },
    };
    let result = match v.get(&"result".to_owned()) {
        Some(x) => x.deep_clone(),
        None => {
            return None;
        },
    };
    let is_error = match v.get(&"is_error".to_owned()) {
        Some(JsonValue::Bool(b)) => *b,
        _ => {
            return None;
        },
    };
    Some(ToolResult { tool_call_id, result, is_error })
}

/// Reads one role-tagged JSON object back into a message; `None` on any
/// malformed shape.
#[verifier::loop_isolation(false)]
pub fn decode_message(v: &JsonValue) -> (r: Option<Message>)
    ensures
        match r {
            Some(m) => dec_message(v.deep_view()) == Some(m.deep_view()),
            None => dec_message(v.deep_view()) is None,
        },
{
    let role = match get_str(v, "role".to_owned()) {
        Some(x) => x,
        None => {
            return None;
        },
    };
    if *role == "system".to_owned() {
        let items = match v.get(&"content".to_owned()) {
            Some(JsonValue::Arr(items)) => items,
            _ => {
                return None;
            },
        };
        let ghost iv = crate::json::json_arr_view(items@);
        let mut out: Vec<SystemContent> = Vec::new();
        let n = items.len();
        let mut i: usize = 0;
        proof {
            crate::json::lemma_json_arr_view(items@);
            assert(iv.skip(0) =~= iv);
            assert(out.deep_view() =~= Seq::<Seq<char>>::empty());
        }
        while i < n
            invariant
                0 <= i <= n,
                iv.len() == n,
                dec_sys_parts(iv) == (match dec_sys_parts(iv.skip(i as int)) {
                    Some(rest) => Some(out.deep_view() + rest),
                    None => None::<Seq<Seq<char>>>,
                }),
            decreases n - i,
        {
            let ghost pre = out.deep_view();
            proof {
                assert(iv.skip(i as int)[0] == iv[i as int]);
                assert(iv.skip(i as int).skip(1) =~= iv.skip(i as int + 1));
                assert(iv[i as int] == json_view(items@[i as int]));
            }
            match &items[i] {
                JsonValue::Str(x) => {
                    out.push(SystemContent::Text { text: x.clone() });
                    proof {
                        assert(out.deep_view() =~= pre.push(x@));
                        match dec_sys_parts(iv.skip(i as int + 1)) {
                                Some(rest) => {
                                    assert(pre + (seq![x@] + rest) =~= pre.push(x@) + rest);
                                },
                                None => {},
                            }
                    }
                },
                _ => {
                    return None;
                },
            }
            i = i + 1;
        }
        proof {
            assert(iv.skip(n as int) =~= Seq::<JsonSpec>::empty());
            assert(out.deep_view() + Seq::<Seq<char>>::empty() =~= out.deep_view());
        }
        let metadata = match decode_meta(v.get(&"metadata".to_owned())) {
            Some(m) => m,
            None => {
                return None;
            },
        };
        Some(Message::System { content: out, metadata })
    } else if *role == "user".to_owned() {
        let items = match v.get(&"content".to_owned()) {
            Some(JsonValue::Arr(items)) => items,
            _ => {
                return None;
            },
        };
        let ghost iv = crate::json::json_arr_view(items@);
        let mut out: Vec<UserContent> = Vec::new();
        let n = items.len();
        let mut i: usize = 0;
        proof {
            crate::json::lemma_json_arr_view(items@);
            assert(iv.skip(0) =~= iv);
            assert(out.deep_view() =~= Seq::<UserContentSpec>::empty());
        }
        while i < n
            invariant
                0 <= i <= n,
                iv.len() == n,
                dec_user_parts(iv) == (match dec_user_parts(iv.skip(i as int)) {
                    Some(rest) => Some(out.deep_view() + rest),
                    None => None::<Seq<UserContentSpec>>,
                }),
            decreases n - i,
        {
            let ghost pre = out.deep_view();
            proof {
                assert(iv.skip(i as int)[0] == iv[i as int]);
                assert(iv.skip(i as int).skip(1) =~= iv.skip(i as int + 1));
                assert(iv[i as int] == json_view(items@[i as int]));
            }
            match decode_user_part(&items[i]) {
                Some(p) => {
                    let ghost pv = p.deep_view();
                    out.push(p);
                    proof {
                        assert(out.deep_view() =~= pre.push(pv));
                        match dec_user_parts(iv.skip(i as int + 1)) {
                                Some(rest) => {
                                    assert(pre + (seq![pv] + rest) =~= pre.push(pv) + rest);
                                },
                                None => {},
                            }
                    }
                },
                None => {
                    return None;
                },
            }
            i = i + 1;
        }
        proof {
            assert(iv.skip(n as int) =~= Seq::<JsonSpec>::empty());
            assert(out.deep_view() + Seq::<UserContentSpec>::empty() =~= out.deep_view());
        }
        let metadata = match decode_meta(v.get(&"metadata".to_owned())) {
            Some(m) => m,
            None => {
                return None;
            },
        };
        Some(Message::User { content: out, metadata })
    } else if *role == "assistant".to_owned() {
        let items = match v.get(&"content".to_owned()) {
            Some(JsonValue::Arr(items)) => items,
            _ => {
                return None;
            },
        };
        let ghost iv = crate::json::json_arr_view(items@);
        let mut out: Vec<AssistantContent> = Vec::new();
        let n = items.len();
        let mut i: usize = 0;
        proof {
            crate::json::lemma_json_arr_view(items@);
            assert(iv.skip(0) =~= iv);
            assert(out.deep_view() =~= Seq::<AssistantContentSpec>::empty());
        }
        while i < n
            invariant
                0 <= i <= n,
                iv.len() == n,
                dec_assistant_parts(iv) == (match dec_assistant_parts(iv.skip(i as int)) {
                    Some(rest) => Some(out.deep_view() + rest),
                    None => None::<Seq<AssistantContentSpec>>,
                }),
            decreases n - i,
        {
            let ghost pre = out.deep_view();
            proof {
                assert(iv.skip(i as int)[0] == iv[i as int]);
                assert(iv.skip(i as int).skip(1) =~= iv.skip(i as int + 1));
                assert(iv[i as int] == json_view(items@[i as int]));
            }
            match decode_assistant_part(&items[i]) {
                Some(p) => {
                    let ghost pv = p.deep_view();
                    out.push(p);
                    proof {
                        assert(out.deep_view() =~= pre.push(pv));
                        match dec_assistant_parts(iv.skip(i as int + 1)) {
                                Some(rest) => {
                                    assert(pre + (seq![pv] + rest) =~= pre.push(pv) + rest);
                                },
                                None => {},
                            }
                    }
                },
                None => {
                    return None;
                },
            }
            i = i + 1;
        }
        proof {
            assert(iv.skip(n as int) =~= Seq::<JsonSpec>::empty());
            assert(out.deep_view() + Seq::<AssistantContentSpec>::empty() =~= out.deep_view());
        }
        let metadata = match decode_meta(v.get(&"metadata".to_owned())) {
            Some(m) => m,
            None => {
                return None;
            },
        };
        Some(Message::Assistant { content: out, metadata })
    } else if *role == "tool".to_owned() {
        let items = match v.get(&"tool_results".to_owned()) {
            Some(JsonValue::Arr(items)) => items,
            _ => {
                return None;
            },
        };
        let ghost iv = crate::json::json_arr_view(items@);
        let mut out: Vec<ToolResult> = Vec::new();
        let n = items.len();
        let mut i: usize = 0;
        proof {
            crate::json::lemma_json_arr_view(items@);
            assert(iv.skip(0) =~= iv);
            assert(out.deep_view() =~= Seq::<ToolResultSpec>::empty());
        }
        while i < n
            invariant
                0 <= i <= n,
                iv.len() == n,
                dec_results(iv) == (match dec_results(iv.skip(i as int)) {
                    Some(rest) => Some(out.deep_view() + rest),
                    None => None::<Seq<ToolResultSpec>>,
                }),
            decreases n - i,
        {
            let ghost pre = out.deep_view();
            proof {
                assert(iv.skip(i as int)[0] == iv[i as int]);
                assert(iv.skip(i as int).skip(1) =~= iv.skip(i as int + 1));
                assert(iv[i as int] == json_view(items@[i as int]));
            }
            match decode_result(&items[i]) {
                Some(t) => {
                    let ghost tv = t.deep_view();
                    out.push(t);
                    proof {
                        assert(out.deep_view() =~= pre.push(tv));
                        match dec_results(iv.skip(i as int + 1)) {
                                Some(rest) => {
                                    assert(pre + (seq![tv] + rest) =~= pre.push(tv) + rest);
                                },
                                None => {},
                            }
                    }
                },
                None => {
                    return None;
                },
            }
            i = i + 1;
        }
        proof {
            assert(iv.skip(n as int) =~= Seq::<JsonSpec>::empty());
            assert(out.deep_view() + Seq::<ToolResultSpec>::empty() =~= out.deep_view());
        }
        let metadata = match decode_meta(v.get(&"metadata".to_owned())) {
            Some(m) => m,
            None => {
                return None;
            },
        };
        Some(Message::Tool { tool_results: out, metadata })
    } else {
        None
    }
}

/// Reads a JSON array of messages back into a conversation; `None` on any
/// malformed shape.
#[verifier::loop_isolation(false)]
pub fn decode_conversation(v: &JsonValue) -> (r: Option<Vec<Message>>)
    ensures
        match r {
            Some(msgs) => dec_conversation(v.deep_view()) == Some(msgs.deep_view()),
            None => dec_conversation(v.deep_view()) is None,
        },
{
    let items = match v {
        JsonValue::Arr(items) => items,
        _ => {
            return None;
        },
    };
    let ghost iv = crate::json::json_arr_view(items@);
    let mut out: Vec<Message> = Vec::new();
    let n = items.len();
    let mut i: usize = 0;
    proof {
        crate::json::lemma_json_arr_view(items@);
        assert(iv.skip(0) =~= iv);
        assert(out.deep_view() =~= Seq::<MessageSpec>::empty());
    }
    while i < n
        invariant
            0 <= i <= n,
            iv.len() == n,
            dec_messages(iv) == (match dec_messages(iv.skip(i as int)) {
                Some(rest) => Some(out.deep_view() + rest),
                None => None::<Seq<MessageSpec>>,
            }),
        decreases n - i,
    {
        let ghost pre = out.deep_view();
        proof {
            assert(iv.skip(i as int)[0] == iv[i as int]);
            assert(iv.skip(i as int).skip(1) =~= iv.skip(i as int + 1));
            assert(iv[i as int] == json_view(items@[i as int]));
        }
        match decode_message(&items[i]) {
            Some(m) => {
                let ghost mv = m.deep_view();
                out.push(m);
                proof {
                    assert(out.deep_view() =~= pre.push(mv));
                    match dec_messages(iv.skip(i as int + 1)) {
                            Some(rest) => {
                                assert(pre + (seq![mv] + rest) =~= pre.push(mv) + rest);
                            },
                            None => {},
                        }
                }
            },
            None => {
                return None;
            },
        }
        i = i + 1;
    }
    proof {
        assert(iv.skip(n as int) =~= Seq::<JsonSpec>::empty());
        assert(out.deep_view() + Seq::<MessageSpec>::empty() =~= out.deep_view());
    }
    Some(out)
}

} // verus!
