//! The client side of line-delimited JSON-RPC 2.0, without the socket.
//!
//! One request is outstanding at a time. [`RpcClient::call`] numbers a request
//! and hands out the line to be written; [`RpcClient::step`] is then told
//! that the line is written, and of every line that was read, until it
//! declares the call finished.
//!
//! The JSON itself is left to `serde_json`: its values are made, encoded,
//! parsed and read through a handful of its functions, each of which is
//! trusted to return what its name here stands for.

use vstd::prelude::*;
use vstd::std_specs::iter::IteratorSpec;
use vstd::string::StringExecFns;

use serde_json::Value;

use crate::text::same_text;

verus! {

/// A JSON value of `serde_json`. What it holds is known through the names
/// below only.
#[verifier::external_type_specification]
#[verifier::external_body]
pub struct ExValue(serde_json::Value);

/// Whether Unicode counts `c` as `White_Space`, as `char::is_whitespace` of
/// the standard library tells it. It is asked of the characters only of which
/// the documentation of that function gives no answer.
pub uninterp spec fn white_space(c: char) -> bool;

/// Whether `c` is white space to `char::is_whitespace` of the standard
/// library. Its documentation shows that the space, the line feed and the
/// no-break space are white space and that the ideograph U+8D8A is not; of
/// every other character the answer goes by the name [`white_space`].
pub open spec fn is_whitespace(c: char) -> bool {
    if c == ' ' || c == '\n' || c == '\u{a0}' {
        true
    } else if c == '\u{8d8a}' {
        false
    } else {
        white_space(c)
    }
}

/// The JSON string that holds the text `s`: what `Value::from` makes of a
/// `&str`.
pub uninterp spec fn json_string(s: Seq<char>) -> Value;

/// The JSON number `n`: what `Value::from` makes of a `u32`.
pub uninterp spec fn json_number(n: u32) -> Value;

/// The JSON object that is collected from `members`, each a key with its
/// value: what `Value::from_iter` makes of them.
pub uninterp spec fn json_object(members: Seq<(Seq<char>, Value)>) -> Value;

/// The text that `serde_json::to_string` writes for a JSON value.
pub uninterp spec fn json_text(v: Value) -> Seq<char>;

/// The JSON value that `serde_json::from_str` reads from a text, or `None`
/// where it refuses the text.
pub uninterp spec fn json_parsed(text: Seq<char>) -> Option<Value>;

/// What `serde_json::from_str` says of a text that it refuses.
pub uninterp spec fn json_error(text: Seq<char>) -> Seq<char>;

/// The member that `Value::get` finds under `key`: `None` where the value is
/// no object or has no such member.
pub uninterp spec fn json_member(v: Value, key: Seq<char>) -> Option<Value>;

/// The text that `Value::as_str` finds in a value: `None` where the value is
/// no string.
pub uninterp spec fn json_str(v: Value) -> Option<Seq<char>>;

/// The number that `Value::as_u64` finds in a value: `None` where the value
/// is no integer from 0 to 2^64 - 1.
pub uninterp spec fn json_u64(v: Value) -> Option<u64>;

/// `char::is_whitespace` of the standard library. Its answer depends on the
/// character alone: it is what [`is_whitespace`] says, which holds the
/// answers that the documentation shows and a name for the others.
pub assume_specification[ char::is_whitespace ](c: char) -> (b: bool)
    ensures
        b == is_whitespace(c),
        c != ' ' && c != '\n' && c != '\u{a0}' && c != '\u{8d8a}' ==> b == white_space(c),
;

/// `Value::from` of `serde_json`, on a string slice. What it returns depends
/// on the text alone and is given the name [`json_string`].
#[verifier::external_body]
fn string_value(s: &str) -> (v: Value)
    ensures
        v == json_string(s@),
{
    Value::from(s)
}

/// `Value::from` of `serde_json`, on a `u32`. What it returns depends on the
/// number alone and is given the name [`json_number`].
#[verifier::external_body]
fn number_value(n: u32) -> (v: Value)
    ensures
        v == json_number(n),
{
    Value::from(n)
}

/// `Value::from_iter` of `serde_json`, on pairs of a key and a value. What it
/// returns depends on the pairs and their order alone and is given the name
/// [`json_object`].
#[verifier::external_body]
fn object_value(members: Vec<(String, Value)>) -> (v: Value)
    ensures
        v == json_object(keyed(members@)),
{
    Value::from_iter(members)
}

/// `serde_json::to_string`, on a JSON value. It gives a text, the one named
/// [`json_text`]: the encoder writes into memory, and a JSON value has
/// strings for keys and no number that is not finite, so that none of the
/// ways in which the encoder can fail is open. An error would be handed back
/// as the text that `serde_json` shows for it.
#[verifier::external_body]
fn encode(v: &Value) -> (text: Result<String, String>)
    ensures
        match text {
            Ok(t) => t@ == json_text(*v),
            Err(_) => false,
        },
{
    serde_json::to_string(v).map_err(|e| e.to_string())
}

/// `serde_json::from_str`, for a JSON value. The value, where it reads one,
/// is the one named [`json_parsed`]; where it refuses the text, the error is
/// handed back as the text that `serde_json` shows for it, named
/// [`json_error`].
#[verifier::external_body]
fn parse(text: &str) -> (read: Result<Value, String>)
    ensures
        match read {
            Ok(v) => json_parsed(text@) == Some(v),
            Err(why) => json_parsed(text@) is None && why@ == json_error(text@),
        },
{
    serde_json::from_str::<Value>(text).map_err(|e| e.to_string())
}

/// `Value::get` of `serde_json`, with a key. The member is handed back as a
/// copy; which one it is, is given the name [`json_member`].
#[verifier::external_body]
fn member(v: &Value, key: &str) -> (found: Option<Value>)
    ensures
        found == json_member(*v, key@),
{
    v.get(key).cloned()
}

/// `Value::as_str` of `serde_json`. The text is handed back as a copy; which
/// one it is, is given the name [`json_str`].
#[verifier::external_body]
fn as_text(v: &Value) -> (found: Option<String>)
    ensures
        match found {
            Some(text) => json_str(*v) == Some(text@),
            None => json_str(*v) is None,
        },
{
    v.as_str().map(str::to_owned)
}

/// `Value::as_u64` of `serde_json`. What it returns is given the name
/// [`json_u64`].
#[verifier::external_body]
fn as_number(v: &Value) -> (found: Option<u64>)
    ensures
        found == json_u64(*v),
{
    v.as_u64()
}

/// The members of an object with their keys as sequences of characters.
spec fn keyed(members: Seq<(String, Value)>) -> Seq<(Seq<char>, Value)> {
    members.map_values(|m: (String, Value)| (m.0@, m.1))
}

/// A reply of the daemon. A member that the reply does not have is `None`;
/// one that it has is `Some`, whatever its value.
#[derive(Debug, PartialEq)]
pub struct Response {
    pub jsonrpc: String,
    pub id: u32,
    pub result: Option<Value>,
    pub error: Option<Value>,
}

/// What a [`Response`] says, with its version as a sequence of characters.
pub struct ResponseView {
    pub jsonrpc: Seq<char>,
    pub id: u32,
    pub result: Option<Value>,
    pub error: Option<Value>,
}

impl View for Response {
    type V = ResponseView;

    open spec fn view(&self) -> ResponseView {
        ResponseView {
            jsonrpc: self.jsonrpc@,
            id: self.id,
            result: self.result,
            error: self.error,
        }
    }
}

/// Why a call failed.
#[derive(Debug, PartialEq)]
pub enum CallError {
    /// The request could not be written as JSON; the text says why. The
    /// encoder is not known to refuse any request: see [`RpcClient::call`].
    Unencodable(String),
    /// The line is no JSON; the text says why.
    Malformed(String),
    /// The line is JSON, but no reply: it is no object, or a member that a
    /// reply must have is missing or of the wrong kind.
    NotAResponse,
    /// The reply does not speak JSON-RPC 2.0.
    InvalidVersion,
    /// The reply answers another request than the one outstanding.
    UnexpectedId(u32),
    /// The daemon answered with an error, carried here.
    Upstream(Value),
    /// The reply holds neither a result nor an error.
    NoResult,
    /// The stream ended before a reply came.
    ConnectionClosed,
}

/// What happened on the connection since the last action.
#[derive(Debug, PartialEq)]
pub enum Event {
    /// The line of the request is written.
    Written,
    /// A line was read.
    Line(String),
    /// The stream has ended.
    Closed,
}

/// What the owner of the connection is to do next.
#[derive(Debug, PartialEq)]
pub enum Action {
    /// Read the next line and report it.
    Read,
    /// The call is over, with this outcome.
    Finish(Result<Value, CallError>),
}

/// Where a client stands between two calls or within one.
#[derive(Debug, Clone, Copy, PartialEq, Eq, Structural)]
pub enum Stage {
    /// No request is outstanding.
    Idle,
    /// The line of the request `expected` is handed out and not written yet.
    Writing { expected: u32 },
    /// The request `expected` is written and its reply is awaited.
    Reading { expected: u32 },
}

/// The state of a client as the contracts see it.
pub struct ClientView {
    /// The id that the next request will carry.
    pub next_id: u32,
    pub stage: Stage,
}

/// The protocol state of one connection.
#[derive(Debug)]
pub struct RpcClient {
    next_id: u32,
    stage: Stage,
}

impl View for RpcClient {
    type V = ClientView;

    closed spec fn view(&self) -> ClientView {
        ClientView { next_id: self.next_id, stage: self.stage }
    }
}

/// The request that calls `method` with `params` under the id `id`, as a JSON
/// value.
pub open spec fn request(method: Seq<char>, id: u32, params: Value) -> Value {
    json_object(
        seq![
            ("jsonrpc"@, json_string("2.0"@)),
            ("method"@, json_string(method)),
            ("id"@, json_number(id)),
            ("params"@, params),
        ],
    )
}

/// Whether a line holds nothing but white space. The empty line does.
pub open spec fn is_blank(line: Seq<char>) -> bool {
    forall|i: int| 0 <= i < line.len() ==> is_whitespace(#[trigger] line[i])
}

/// The reply that a JSON value is, if it is one: an object whose member
/// `jsonrpc` is a string and whose member `id` is an integer of 32 bits
/// without sign. The members `result` and `error` are taken as they are
/// found: each may be any value, `null` too, or be missing. Other members are
/// passed over.
pub open spec fn response_of(v: Value) -> Option<ResponseView> {
    match (json_member(v, "jsonrpc"@), json_member(v, "id"@)) {
        (Some(version), Some(id)) => match (json_str(version), json_u64(id)) {
            (Some(version), Some(id)) => if id <= u32::MAX {
                Some(
                    ResponseView {
                        jsonrpc: version,
                        id: id as u32,
                        result: json_member(v, "result"@),
                        error: json_member(v, "error"@),
                    },
                )
            } else {
                None
            },
            _ => None,
        },
        _ => None,
    }
}

/// The reply that a line holds, if it holds one.
pub open spec fn decoded(line: Seq<char>) -> Option<ResponseView> {
    match json_parsed(line) {
        Some(v) => response_of(v),
        None => None,
    }
}

/// How a reply is judged against the id of the outstanding request: the
/// version is checked first, then the id. After that a reply that has an
/// error fails the call with it, whatever the error is and whether or not
/// there is a result beside it; a reply that has a result and no error
/// succeeds with the result, whatever it is; and a reply with neither is
/// refused.
pub open spec fn judge(expected: u32, resp: ResponseView) -> Result<Value, CallError> {
    if resp.jsonrpc != "2.0"@ {
        Err(CallError::InvalidVersion)
    } else if resp.id != expected {
        Err(CallError::UnexpectedId(resp.id))
    } else if let Some(e) = resp.error {
        Err(CallError::Upstream(e))
    } else if let Some(r) = resp.result {
        Ok(r)
    } else {
        Err(CallError::NoResult)
    }
}

/// Whether `outcome` is what a line that is not blank makes of the call for
/// the request `expected`: the judgement of the reply that the line holds, or
/// else the reason why it holds none.
pub open spec fn settles(outcome: Result<Value, CallError>, expected: u32, line: Seq<char>) -> bool {
    match json_parsed(line) {
        None => outcome matches Err(CallError::Malformed(why)) && why@ == json_error(line),
        Some(v) => match response_of(v) {
            None => outcome == Err::<Value, CallError>(CallError::NotAResponse),
            Some(resp) => outcome == judge(expected, resp),
        },
    }
}

/// The client after `event`. Once the request is written its reply is
/// awaited. A blank line changes nothing then; any other line ends the call,
/// and so does the end of the stream. An event that does not belong to the
/// stage changes nothing either: no line is read before the request is
/// written, and none reaches an idle client.
pub open spec fn client_next(c: ClientView, event: Event) -> ClientView {
    match (c.stage, event) {
        (Stage::Writing { expected }, Event::Written) => ClientView {
            stage: Stage::Reading { expected },
            ..c
        },
        (Stage::Reading { .. }, Event::Line(line)) => if is_blank(line@) {
            c
        } else {
            ClientView { stage: Stage::Idle, ..c }
        },
        (Stage::Reading { .. }, Event::Closed) => ClientView { stage: Stage::Idle, ..c },
        _ => c,
    }
}

/// Whether `action` is what a client answers `event` with. The written
/// request is followed by reading. A blank line is skipped: the next one is
/// read. The first line that is not blank settles the call. `None` is the
/// answer to an event that does not belong to the stage.
pub open spec fn answers(c: ClientView, event: Event, action: Option<Action>) -> bool {
    match (c.stage, event) {
        (Stage::Writing { .. }, Event::Written) => action == Some(Action::Read),
        (Stage::Reading { expected }, Event::Line(line)) => if is_blank(line@) {
            action == Some(Action::Read)
        } else {
            action matches Some(Action::Finish(outcome)) && settles(outcome, expected, line@)
        },
        (Stage::Reading { .. }, Event::Closed) => action == Some(
            Action::Finish(Err(CallError::ConnectionClosed)),
        ),
        _ => action is None,
    }
}

/// Tells whether a line holds nothing but white space.
pub fn line_is_blank(line: &str) -> (blank: bool)
    ensures
        blank == is_blank(line@),
{
    let mut chars = line.chars();
    let ghost mut seen: int = 0;
    loop
        invariant
            chars.obeys_prophetic_iter_laws(),
            0 <= seen <= line@.len(),
            chars.remaining() == line@.skip(seen),
            forall|k: int| 0 <= k < seen ==> is_whitespace(#[trigger] line@[k]),
        decreases line@.len() - seen,
    {
        match chars.next() {
            Some(c) => {
                if !c.is_whitespace() {
                    return false;
                }
                proof {
                    seen = seen + 1;
                }
            },
            None => {
                return true;
            },
        }
    }
}

/// Reads the reply that a line holds.
///
/// The line is first read as a JSON value. Where an object names a member
/// more than once, that value holds it as it was named last, and so does the
/// reply. A reply must be an object: an array of the same values is none.
pub fn decode(line: &str) -> (reply: Result<Response, CallError>)
    ensures
        match reply {
            Ok(resp) => decoded(line@) == Some(resp@),
            Err(CallError::Malformed(why)) => json_parsed(line@) is None && why@ == json_error(
                line@,
            ),
            Err(e) => e == CallError::NotAResponse && json_parsed(line@) is Some && decoded(line@)
                is None,
        },
{
    let v = match parse(line) {
        Ok(v) => v,
        Err(why) => {
            return Err(CallError::Malformed(why));
        },
    };
    let version = match member(&v, "jsonrpc") {
        Some(m) => as_text(&m),
        None => None,
    };
    let id = match member(&v, "id") {
        Some(m) => as_number(&m),
        None => None,
    };
    match (version, id) {
        (Some(version), Some(id)) => {
            if id > u32::MAX as u64 {
                return Err(CallError::NotAResponse);
            }
            Ok(
                Response {
                    jsonrpc: version,
                    id: id as u32,
                    result: member(&v, "result"),
                    error: member(&v, "error"),
                },
            )
        },
        _ => Err(CallError::NotAResponse),
    }
}

/// Judges a reply against the id of the outstanding request.
pub fn judge_response(expected: u32, resp: Response) -> (verdict: Result<Value, CallError>)
    ensures
        verdict == judge(expected, resp@),
{
    if !same_text(resp.jsonrpc.as_str(), "2.0") {
        return Err(CallError::InvalidVersion);
    }
    if resp.id != expected {
        return Err(CallError::UnexpectedId(resp.id));
    }
    if let Some(e) = resp.error {
        return Err(CallError::Upstream(e));
    }
    if let Some(r) = resp.result {
        Ok(r)
    } else {
        Err(CallError::NoResult)
    }
}

impl RpcClient {
    /// The client of a fresh connection: ids start at 0 and nothing is
    /// outstanding.
    pub fn new() -> (client: Self)
        ensures
            client@ == (ClientView { next_id: 0, stage: Stage::Idle }),
    {
        RpcClient { next_id: 0, stage: Stage::Idle }
    }

    /// Tells whether the connection has an id left for another request.
    pub fn has_id_left(&self) -> (left: bool)
        ensures
            left == (self@.next_id < u32::MAX),
    {
        self.next_id < u32::MAX
    }

    /// Starts a call: gives the request the next id and hands out the line to
    /// be written. Whatever was outstanding before is given up.
    pub fn call(&mut self, method: &str, params: Value) -> (line: Result<String, CallError>)
        requires
            old(self)@.next_id < u32::MAX,
        ensures
            line matches Ok(text) && text@ == json_text(
                request(method@, old(self)@.next_id, params),
            ),
            final(self)@ == (ClientView {
                next_id: (old(self)@.next_id + 1) as u32,
                stage: Stage::Writing { expected: old(self)@.next_id },
            }),
    {
        let expected_id = self.next_id;
        self.next_id += 1;
        self.stage = Stage::Writing { expected: expected_id };

        let mut members: Vec<(String, Value)> = Vec::new();
        members.push(("jsonrpc".to_owned(), string_value("2.0")));
        members.push(("method".to_owned(), string_value(method)));
        members.push(("id".to_owned(), number_value(expected_id)));
        members.push(("params".to_owned(), params));
        assert(keyed(members@) =~= seq![
            ("jsonrpc"@, json_string("2.0"@)),
            ("method"@, json_string(method@)),
            ("id"@, json_number(expected_id)),
            ("params"@, params),
        ]);
        let payload = object_value(members);

        match encode(&payload) {
            Ok(text) => Ok(text),
            Err(why) => Err(CallError::Unencodable(why)),
        }
    }

    /// Takes in what happened on the connection and says what to do next.
    pub fn step(&mut self, event: Event) -> (action: Option<Action>)
        ensures
            final(self)@ == client_next(old(self)@, event),
            answers(old(self)@, event, action),
    {
        match (self.stage, event) {
            (Stage::Writing { expected }, Event::Written) => {
                self.stage = Stage::Reading { expected };
                Some(Action::Read)
            },
            (Stage::Reading { expected }, Event::Line(line)) => {
                if line_is_blank(line.as_str()) {
                    Some(Action::Read)
                } else {
                    self.stage = Stage::Idle;
                    Some(
                        Action::Finish(
                            match decode(line.as_str()) {
                                Ok(resp) => judge_response(expected, resp),
                                Err(e) => Err(e),
                            },
                        ),
                    )
                }
            },
            (Stage::Reading { .. }, Event::Closed) => {
                self.stage = Stage::Idle;
                Some(Action::Finish(Err(CallError::ConnectionClosed)))
            },
            _ => None,
        }
    }
}

/// Which halves of a connection are shut down.
#[derive(Debug, Clone, Copy, PartialEq, Eq, Structural)]
pub enum Shutdown {
    Read,
    Write,
    Both,
}

impl RpcClient {
    /// Ends the use of the connection. Both halves are to be shut down, so
    /// that the connection is never left open in one direction only.
    pub fn close(self) -> (how: Shutdown)
        ensures
            how == Shutdown::Both,
    {
        Shutdown::Both
    }
}

impl CallError {
    /// Renders the error as text. A number and a JSON value are shown as
    /// their `Display` shows them.
    pub fn message(&self) -> (s: String)
        ensures
            match *self {
                CallError::Unencodable(why) => s@ == why@,
                CallError::Malformed(why) => s@ == why@,
                CallError::NotAResponse => s@ == "Invalid response"@,
                CallError::InvalidVersion => s@ == "Invalid jsonrpc version"@,
                CallError::UnexpectedId(id) => exists|shown: String|
                    vstd::string::to_string_from_display_ensures::<u32>(&id, shown) && s@
                        == "Unexpected message id "@ + shown@,
                CallError::Upstream(e) => exists|shown: String|
                    vstd::string::to_string_from_display_ensures::<Value>(&e, shown) && s@
                        == "Responded with error: "@ + shown@,
                CallError::NoResult => s@ == "Response has no result"@,
                CallError::ConnectionClosed => s@ == "connection closed"@,
            },
    {
        match self {
            CallError::Unencodable(why) => why.clone(),
            CallError::Malformed(why) => why.clone(),
            CallError::NotAResponse => String::from_str("Invalid response"),
            CallError::InvalidVersion => String::from_str("Invalid jsonrpc version"),
            CallError::UnexpectedId(id) => {
                let shown = id.to_string();
                String::from_str("Unexpected message id ").concat(shown.as_str())
            },
            CallError::Upstream(e) => {
                let shown = e.to_string();
                String::from_str("Responded with error: ").concat(shown.as_str())
            },
            CallError::NoResult => String::from_str("Response has no result"),
            CallError::ConnectionClosed => String::from_str("connection closed"),
        }
    }
}

/// A reply to another request than the outstanding one fails the call, and no
/// line that comes after it is taken for the reply: the client is idle then,
/// and takes in nothing until the next call.
pub proof fn lemma_mismatched_id_ends_call(
    c: ClientView,
    line: String,
    action: Option<Action>,
    later: Event,
    afterwards: Option<Action>,
)
    requires
        c.stage matches Stage::Reading { expected } && decoded(line@) matches Some(resp) && resp.id
            != expected,
        !is_blank(line@),
        answers(c, Event::Line(line), action),
        answers(client_next(c, Event::Line(line)), later, afterwards),
    ensures
        ({
            let resp = decoded(line@)->0;
            let after = client_next(c, Event::Line(line));
            &&& action == Some(
                Action::Finish(
                    Err(
                        if resp.jsonrpc == "2.0"@ {
                            CallError::UnexpectedId(resp.id)
                        } else {
                            CallError::InvalidVersion
                        },
                    ),
                ),
            )
            &&& after == (ClientView { stage: Stage::Idle, ..c })
            &&& client_next(after, later) == after
            &&& afterwards is None
        }),
{
}

/// Nothing is read before the request is written: a client whose line was
/// handed out takes no line in, and does not take the end of the stream for
/// the end of the call, until it is told that the line is written. Then it
/// reads.
pub proof fn lemma_written_before_read(c: ClientView, event: Event, action: Option<Action>)
    requires
        c.stage is Writing,
        answers(c, event, action),
    ensures
        event is Written ==> action == Some(Action::Read) && client_next(c, event).stage == (
            Stage::Reading { expected: c.stage->Writing_expected }
        ),
        !(event is Written) ==> action is None && client_next(c, event) == c,
{
}

/// A line that holds a reply with the version 2.0, the id of the outstanding
/// request, a result and no error ends the call with that result, whatever
/// the result is: `null` is a result like any other.
pub proof fn lemma_present_result_succeeds(
    c: ClientView,
    line: String,
    action: Option<Action>,
    v: Value,
    result: Value,
)
    requires
        c.stage matches Stage::Reading { expected } && json_member(v, "id"@) matches Some(id)
            && json_u64(id) == Some(expected as u64),
        json_member(v, "jsonrpc"@) matches Some(version) && json_str(version) == Some("2.0"@),
        json_member(v, "result"@) == Some(result),
        json_member(v, "error"@) is None,
        json_parsed(line@) == Some(v),
        !is_blank(line@),
        answers(c, Event::Line(line), action),
    ensures
        action == Some(Action::Finish(Ok(result))),
{
}

/// A call succeeds on one kind of reply only: it speaks version 2.0, carries
/// the id of the outstanding request, holds no error and holds a result, which
/// is what the call returns.
pub proof fn lemma_success_is_owed_to_the_reply(expected: u32, resp: ResponseView)
    ensures
        judge(expected, resp) is Ok <==> resp.jsonrpc == "2.0"@ && resp.id == expected
            && resp.error is None && resp.result is Some,
        judge(expected, resp) is Ok ==> judge(expected, resp) == Ok::<Value, CallError>(
            resp.result->0,
        ),
        resp.jsonrpc == "2.0"@ && resp.id == expected && resp.error is Some ==> judge(
            expected,
            resp,
        ) == Err::<Value, CallError>(CallError::Upstream(resp.error->0)),
{
}

} // verus!
