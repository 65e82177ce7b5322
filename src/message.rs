//! The one message shape of the control protocol, and its JSON-line form.
use vstd::prelude::*;

use crate::error::{opt_view, ControlError};

verus! {

/// A request to the host, or the host's answer to one.
#[derive(Debug, Clone, PartialEq, Eq)]
pub struct ControlMessage {
    /// The operation requested, or answered.
    pub command: String,
    /// Qualifies a request; in an answer, says what kind of payload it carries.
    pub key: Option<String>,
    /// The payload.
    pub value: Option<String>,
}

/// What a message holds, as mathematical values.
pub struct MessageModel {
    pub command: Seq<char>,
    pub key: Option<Seq<char>>,
    pub value: Option<Seq<char>>,
}

impl View for ControlMessage {
    type V = MessageModel;

    open spec fn view(&self) -> MessageModel {
        MessageModel { command: self.command@, key: opt_view(self.key), value: opt_view(self.value) }
    }
}

/// The JSON text that serde_json writes for a string: the quoted, escaped literal.
pub uninterp spec fn json_quoted(s: Seq<char>) -> Seq<char>;

/// Whether a text holds no line terminator.
pub open spec fn no_newline(t: Seq<char>) -> bool {
    forall|i: int| 0 <= i < t.len() ==> t[i] != '\n'
}

/// Whether a text is exactly one line: a line terminator at its end and none before.
pub open spec fn single_line(t: Seq<char>) -> bool {
    t.len() > 0 && t.last() == '\n' && no_newline(t.drop_last())
}

/// Relies on `serde_json::to_string` on a `str`: the JSON string literal for `s`.
/// For a `str` it writes into a `Vec` and cannot fail. The literal opens and
/// closes with `"`, and a line feed inside it is written as the escape `\n`.
#[verifier::external_body]
fn quote(s: &str) -> (r: String)
    ensures
        r@ == json_quoted(s@),
        r@.len() >= 2,
        r@[0] == '"',
        r@.last() == '"',
        no_newline(r@),
{
    serde_json::to_string(s).unwrap_or_default()
}

/// The JSON text of an optional member value: the literal, or `null`.
pub open spec fn member_text(v: Option<Seq<char>>) -> Seq<char> {
    match v {
        Some(s) => json_quoted(s),
        None => "null"@,
    }
}

/// A member's value, as the library reads it: a string, null, or anything else.
#[derive(Debug, Clone, PartialEq, Eq)]
pub enum JsonMember {
    Text(String),
    Null,
    /// A number, boolean, array or object.
    Other,
}

/// What a member holds, as mathematical values.
pub enum MemberModel {
    Text(Seq<char>),
    Null,
    Other,
}

impl View for JsonMember {
    type V = MemberModel;

    open spec fn view(&self) -> MemberModel {
        match self {
            JsonMember::Text(t) => MemberModel::Text(t@),
            JsonMember::Null => MemberModel::Null,
            JsonMember::Other => MemberModel::Other,
        }
    }
}

/// The member that carries an optional part: its string, or null where absent.
pub open spec fn member_of(v: Option<Seq<char>>) -> MemberModel {
    match v {
        Some(t) => MemberModel::Text(t),
        None => MemberModel::Null,
    }
}

/// The members of a message on the wire: every one of the three names, absent values as null.
pub open spec fn members_of(m: MessageModel) -> Map<Seq<char>, MemberModel> {
    map![
        "command"@ => MemberModel::Text(m.command),
        "key"@ => member_of(m.key),
        "value"@ => member_of(m.value),
    ]
}

/// The line that carries a message: one compact JSON object with the members
/// `command`, `key` and `value` in that order, then a newline.
pub open spec fn wire_text(m: MessageModel) -> Seq<char> {
    "{\"command\":"@ + json_quoted(m.command) + ",\"key\":"@ + member_text(m.key) + ",\"value\":"@
        + member_text(m.value) + "}\n"@
}

/// The members of a JSON text, where serde_json reads it as an object;
/// `None` where it does not.
pub uninterp spec fn json_members(text: Seq<char>) -> Option<Map<Seq<char>, MemberModel>>;

/// A list of members, each name once, that holds exactly the members of `mm`.
pub open spec fn lists_members(list: Seq<(String, JsonMember)>, mm: Map<Seq<char>, MemberModel>) -> bool {
    &&& forall|i: int, j: int|
        0 <= i < j < list.len() ==> list[i].0@ != list[j].0@
    &&& forall|i: int|
        0 <= i < list.len() ==> mm.contains_key(#[trigger] list[i].0@) && mm[list[i].0@] == list[i].1@
    &&& forall|k: Seq<char>|
        #[trigger] mm.contains_key(k) ==> exists|i: int| 0 <= i < list.len() && list[i].0@ == k
}

/// Relies on `serde_json::from_str` into a map from `String` to `serde_json::Value`:
/// it accepts a JSON object, and the map holds each member name once. Each
/// value is told apart by its variant. The pairs are listed in no particular order.
#[verifier::external_body]
fn parse_members(line: &str) -> (r: Option<Vec<(String, JsonMember)>>)
    ensures
        match json_members(line@) {
            None => r is None,
            Some(mm) => r is Some && lists_members(r->0@, mm),
        },
{
    let parsed = serde_json::from_str::<std::collections::HashMap<String, serde_json::Value>>(line);
    parsed.ok().map(|m| m.into_iter().map(|(k, v)| (k, match v {
        serde_json::Value::String(t) => JsonMember::Text(t),
        serde_json::Value::Null => JsonMember::Null,
        serde_json::Value::Bool(_) => JsonMember::Other,
        serde_json::Value::Number(_) => JsonMember::Other,
        serde_json::Value::Array(_) => JsonMember::Other,
        serde_json::Value::Object(_) => JsonMember::Other,
    })).collect())
}

/// What an optional part of a message reads as: an absent or null member is
/// no value, a string member is that value; `None` where the member is of
/// another kind.
pub open spec fn optional_member(mm: Map<Seq<char>, MemberModel>, name: Seq<char>) -> Option<
    Option<Seq<char>>,
> {
    if !mm.contains_key(name) {
        Some(None)
    } else {
        match mm[name] {
            MemberModel::Text(t) => Some(Some(t)),
            MemberModel::Null => Some(None),
            MemberModel::Other => None,
        }
    }
}

/// The message that a set of members stands for: `command` must be a string,
/// `key` and `value` strings, null or absent; other members are ignored.
pub open spec fn message_of_members(mm: Map<Seq<char>, MemberModel>) -> Option<MessageModel> {
    if mm.contains_key("command"@) && mm["command"@] is Text && optional_member(mm, "key"@) is Some
        && optional_member(mm, "value"@) is Some {
        Some(
            MessageModel {
                command: mm["command"@]->Text_0,
                key: optional_member(mm, "key"@)->0,
                value: optional_member(mm, "value"@)->0,
            },
        )
    } else {
        None
    }
}

/// What decoding a line gives, as a model: the message, or `None` for a malformed line.
pub open spec fn decoded(text: Seq<char>) -> Option<MessageModel> {
    match json_members(text) {
        Some(mm) => message_of_members(mm),
        None => None,
    }
}

/// The position of the member `name` in a list of members, if it is there.
fn find_member(list: &Vec<(String, JsonMember)>, name: &str) -> (r: Option<usize>)
    ensures
        match r {
            Some(i) => i < list@.len() && list@[i as int].0@ == name@,
            None => forall|i: int| 0 <= i < list@.len() ==> list@[i].0@ != name@,
        },
{
    let wanted = String::from_str(name);
    let mut i: usize = 0;
    while i < list.len()
        invariant
            wanted@ == name@,
            i <= list.len(),
            forall|j: int| 0 <= j < i ==> list@[j].0@ != name@,
        decreases list.len() - i,
    {
        if list[i].0 == wanted {
            return Some(i);
        }
        i = i + 1;
    }
    None
}

/// Reads an optional part of a message from a list of members.
fn read_optional(list: &Vec<(String, JsonMember)>, name: &str) -> (r: Result<Option<String>, ControlError>)
    ensures
        forall|mm: Map<Seq<char>, MemberModel>|
            #[trigger] lists_members(list@, mm) ==> match optional_member(mm, name@) {
                Some(o) => r is Ok && opt_view(r->Ok_0) == o,
                None => r == Err::<Option<String>, ControlError>(ControlError::Malformed),
            },
{
    match find_member(list, name) {
        None => Ok(None),
        Some(i) => match &list[i].1 {
            JsonMember::Text(t) => Ok(Some(t.clone())),
            JsonMember::Null => Ok(None),
            JsonMember::Other => Err(ControlError::Malformed),
        },
    }
}

impl ControlMessage {
    /// A message from its three parts.
    pub fn new(command: String, key: Option<String>, value: Option<String>) -> (r: ControlMessage)
        ensures
            r.command@ == command@,
            opt_view(r.key) == opt_view(key),
            opt_view(r.value) == opt_view(value),
    {
        ControlMessage { command, key, value }
    }

    /// The line that carries this message on the wire, newline included.
    pub fn encode(&self) -> (r: String)
        ensures
            r@ == wire_text(self@),
            single_line(r@),
    {
        let command = quote(self.command.as_str());
        let key = encode_member(&self.key);
        let value = encode_member(&self.value);
        proof {
            lemma_wire_text_single_line(self@);
        }
        let mut line = String::from_str("{\"command\":");
        line.append(command.as_str());
        line.append(",\"key\":");
        line.append(key.as_str());
        line.append(",\"value\":");
        line.append(value.as_str());
        line.append("}\n");
        line
    }

    /// Reads a message from one line of JSON text. A missing or null `key` or
    /// `value` is `None`; a line that is not a JSON object of string or null
    /// members with a string `command` is `Malformed`.
    pub fn decode(line: &str) -> (r: Result<ControlMessage, ControlError>)
        ensures
            match decoded(line@) {
                Some(m) => r is Ok && r->Ok_0@ == m,
                None => r == Err::<ControlMessage, ControlError>(ControlError::Malformed),
            },
    {
        match parse_members(line) {
            Some(list) => ControlMessage::from_members(&list),
            None => Err(ControlError::Malformed),
        }
    }

    /// The message that a list of members stands for (each name at most once).
    pub fn from_members(list: &Vec<(String, JsonMember)>) -> (r: Result<ControlMessage, ControlError>)
        ensures
            forall|mm: Map<Seq<char>, MemberModel>|
                #[trigger] lists_members(list@, mm) ==> match message_of_members(mm) {
                    Some(m) => r is Ok && r->Ok_0@ == m,
                    None => r == Err::<ControlMessage, ControlError>(ControlError::Malformed),
                },
    {
        let command = match find_member(list, "command") {
            Some(i) => match &list[i].1 {
                JsonMember::Text(t) => t.clone(),
                _ => return Err(ControlError::Malformed),
            },
            None => return Err(ControlError::Malformed),
        };
        let key = read_optional(list, "key")?;
        let value = read_optional(list, "value")?;
        Ok(ControlMessage { command, key, value })
    }
}

/// The JSON text of an optional member value.
fn encode_member(v: &Option<String>) -> (r: String)
    ensures
        r@ == member_text(opt_view(*v)),
        no_newline(r@),
{
    proof {
        reveal_strlit("null");
    }
    match v {
        Some(s) => quote(s.as_str()),
        None => String::from_str("null"),
    }
}

/// A text made of two texts without line terminators has none.
proof fn lemma_concat_no_newline(a: Seq<char>, b: Seq<char>)
    requires
        no_newline(a),
        no_newline(b),
    ensures
        no_newline(a + b),
{
    assert forall|i: int| 0 <= i < (a + b).len() implies (a + b)[i] != '\n' by {
        if i < a.len() {
            assert((a + b)[i] == a[i]);
        } else {
            assert((a + b)[i] == b[i - a.len()]);
        }
    }
}

/// The wire text of a message is one line, where its string literals hold no
/// line terminator.
proof fn lemma_wire_text_single_line(m: MessageModel)
    requires
        no_newline(json_quoted(m.command)),
        no_newline(member_text(m.key)),
        no_newline(member_text(m.value)),
    ensures
        single_line(wire_text(m)),
{
    reveal_strlit("{\"command\":");
    reveal_strlit(",\"key\":");
    reveal_strlit(",\"value\":");
    reveal_strlit("}\n");
    reveal_strlit("}");
    let p0 = "{\"command\":"@;
    let p1 = p0 + json_quoted(m.command);
    let p2 = p1 + ",\"key\":"@;
    let p3 = p2 + member_text(m.key);
    let p4 = p3 + ",\"value\":"@;
    let p5 = p4 + member_text(m.value);
    lemma_concat_no_newline(p0, json_quoted(m.command));
    lemma_concat_no_newline(p1, ",\"key\":"@);
    lemma_concat_no_newline(p2, member_text(m.key));
    lemma_concat_no_newline(p3, ",\"value\":"@);
    lemma_concat_no_newline(p4, member_text(m.value));
    lemma_concat_no_newline(p5, "}"@);
    let w = p5 + "}\n"@;
    assert(w == wire_text(m));
    assert(w.drop_last() =~= p5 + "}"@);
}

/// The members of a message's wire object (`members_of`: the three names that
/// `wire_text` writes, absent values as null), read back as `decode` reads
/// members, give that message again: absent parts stay absent and empty ones
/// stay empty.
pub proof fn lemma_members_round_trip(m: MessageModel)
    ensures
        message_of_members(members_of(m)) == Some(m),
{
    reveal_strlit("command");
    reveal_strlit("key");
    reveal_strlit("value");
    assert("command"@.len() == 7);
    assert("key"@.len() == 3);
    assert("value"@.len() == 5);
    let mm = members_of(m);
    assert(mm.contains_key("command"@));
    assert(mm.contains_key("key"@));
    assert(mm.contains_key("value"@));
    assert(optional_member(mm, "key"@) == Some(m.key));
    assert(optional_member(mm, "value"@) == Some(m.value));
}

} // verus!
