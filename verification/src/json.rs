//! JSON wire framing and response-field extraction.
//!
//! Requests are the UTF-8 serialization of `{"COMMAND": <name>, "PARAMETERS":
//! [<value>, ...]}`; a framed request line is that object followed by CRLF.
//! Responses are one JSON object line carrying at least an integer
//! `status_code` and a string `status_text`. Serialization and parsing are
//! done by serde_json behind the trusted items below; everything downstream is
//! stated over the two names `json_frame` and `status_fields`.

use vstd::prelude::*;
use vstd::string::StringExecFns;

verus! {

/// The serde_json serialization of `{"COMMAND": cmd, "PARAMETERS": params}`,
/// a function of the command name and the parameter list alone.
pub uninterp spec fn json_frame(cmd: Seq<char>, params: Seq<u8>) -> Seq<char>;

/// The integer `status_code` and string `status_text` fields that serde_json
/// extracts from `line`, or `None` where `line` is not a JSON object bearing
/// both fields with those types.
pub uninterp spec fn status_fields(line: Seq<char>) -> Option<(i64, Seq<char>)>;

/// Printable characters that serde_json's string serializer emits verbatim:
/// no quote, no backslash, no control character. The whole command vocabulary
/// is such.
pub open spec fn json_plain(s: Seq<char>) -> bool {
    forall|i: int|
        0 <= i < s.len() ==> s[i] != '"' && s[i] != '\\' && 0x20 <= (s[i] as u32) && (
        s[i] as u32) <= 0x7e
}

/// A parameterless command object. Relies on serde_json (`Map::insert`,
/// `Value::to_string`): serializing `{"COMMAND": cmd, "PARAMETERS": []}`
/// depends on `cmd` alone (key order is the map's, which is deterministic),
/// and a name that needs no string escaping appears verbatim.
#[verifier::external_body]
pub(crate) fn json_cmd(cmd: &str) -> (r: String)
    ensures
        r@ == json_frame(cmd@, Seq::<u8>::empty()),
        json_plain(cmd@) ==> r@ == "{\"COMMAND\":\""@ + cmd@ + "\",\"PARAMETERS\":[]}"@,
{
    let mut obj = serde_json::Map::new();
    obj.insert("COMMAND".to_string(), serde_json::Value::String(cmd.to_string()));
    obj.insert("PARAMETERS".to_string(), serde_json::Value::Array(Vec::new()));
    serde_json::Value::Object(obj).to_string()
}

/// A command object with two numeric parameters, as the register commands
/// send. Relies on serde_json (`Map::insert`, `Value::to_string`): serializing
/// `{"COMMAND": cmd, "PARAMETERS": [a, b]}` depends on the arguments alone.
#[verifier::external_body]
pub(crate) fn json_cmd_pair(cmd: &str, a: u8, b: u8) -> (r: String)
    ensures
        r@ == json_frame(cmd@, seq![a, b]),
{
    let mut obj = serde_json::Map::new();
    obj.insert("COMMAND".to_string(), serde_json::Value::String(cmd.to_string()));
    obj.insert(
        "PARAMETERS".to_string(),
        serde_json::Value::Array(vec![serde_json::Value::from(a), serde_json::Value::from(b)]),
    );
    serde_json::Value::Object(obj).to_string()
}

/// Relies on serde_json (`from_str::<Value>`, `Value::get`, `Value::as_i64`,
/// `Value::as_str`): returns the integer `status_code` and string
/// `status_text` fields of the JSON object in `line`, or `None` where `line`
/// does not parse as an object bearing both.
#[verifier::external_body]
pub(crate) fn parse_status_fields(line: &str) -> (r: Option<(i64, String)>)
    ensures
        r matches Some(p) ==> status_fields(line@) matches Some(q) && q.0 == p.0 && q.1 == p.1@,
        r is None ==> status_fields(line@) is None,
{
    let v: serde_json::Value = match serde_json::from_str(line) {
        Ok(v) => v,
        Err(_) => return None,
    };
    let code = match v.get("status_code").and_then(serde_json::Value::as_i64) {
        Some(c) => c,
        None => return None,
    };
    match v.get("status_text").and_then(serde_json::Value::as_str) {
        Some(t) => Some((code, t.to_string())),
        None => None,
    }
}

/// A complete request line: the command object followed by the CRLF
/// terminator.
pub open spec fn json_line(cmd: Seq<char>, params: Seq<u8>) -> Seq<char> {
    json_frame(cmd, params) + "\r\n"@
}

/// Frames a parameterless command for the wire; for an escape-free command
/// name the whole line is pinned to the letter.
pub(crate) fn json_cmd_line(cmd: &str) -> (r: String)
    ensures
        r@ == json_line(cmd@, Seq::<u8>::empty()),
        json_plain(cmd@) ==> r@ == "{\"COMMAND\":\""@ + cmd@ + "\",\"PARAMETERS\":[]}\r\n"@,
{
    let r = json_cmd(cmd).concat("\r\n");
    proof {
        if json_plain(cmd@) {
            assert(r@ =~= "{\"COMMAND\":\""@ + cmd@ + "\",\"PARAMETERS\":[]}\r\n"@) by {
                reveal_strlit("{\"COMMAND\":\"");
                reveal_strlit("\",\"PARAMETERS\":[]}");
                reveal_strlit("\",\"PARAMETERS\":[]}\r\n");
                reveal_strlit("\r\n");
            }
        }
    }
    r
}

} // verus!
