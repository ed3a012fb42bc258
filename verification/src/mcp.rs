//! The Model Context Protocol as adapters and the daemon speak it: JSON-RPC
//! 2.0 messages, how a server routes a request, how a client tells incoming
//! messages apart, and the content of a tool's answer. Reading and writing the
//! JSON itself is left to the program around the library.

use crate::outside::{
    json_has_member, json_parse, json_parses, json_text_member, json_u64_member, member_text, member_u64,
    member_value,
};
use vstd::prelude::*;

verus! {

/// JSON-RPC: the message is not valid JSON.
pub const PARSE_ERROR: i64 = -32700i64;

/// JSON-RPC: no such method (or tool).
pub const METHOD_NOT_FOUND: i64 = -32601i64;

/// JSON-RPC: the method failed.
pub const INTERNAL_ERROR: i64 = -32603i64;

/// The protocol revision the shell speaks, in handshakes both ways.
pub fn protocol_version() -> (res: &'static str)
    ensures
        res@ == "2024-11-05"@,
{
    "2024-11-05"
}

/// A JSON-RPC 2.0 request, or a notification when it has no id.
#[derive(Debug)]
pub struct JsonRpcRequest {
    pub jsonrpc: String,
    pub id: Option<u64>,
    pub method: String,
    pub params: Option<serde_json::Value>,
}

impl JsonRpcRequest {
    /// A request with an id, to be answered.
    pub fn new(id: u64, method: &str, params: Option<serde_json::Value>) -> (res: JsonRpcRequest)
        ensures
            res.jsonrpc@ == "2.0"@,
            res.id == Some(id),
            res.method@ == method@,
            res.params == params,
    {
        JsonRpcRequest { jsonrpc: String::from_str("2.0"), id: Some(id), method: String::from_str(method), params }
    }

    /// A notification: no id, no answer.
    pub fn notification(method: &str, params: Option<serde_json::Value>) -> (res: JsonRpcRequest)
        ensures
            res.jsonrpc@ == "2.0"@,
            res.id is None,
            res.method@ == method@,
            res.params == params,
    {
        JsonRpcRequest { jsonrpc: String::from_str("2.0"), id: None, method: String::from_str(method), params }
    }
}

/// One piece of a tool's answer.
#[derive(Debug)]
pub struct ContentItem {
    /// `text`, `image`, ...
    pub content_type: String,
    pub text: Option<String>,
    pub data: Option<String>,
    pub mime_type: Option<String>,
}

/// A tool's answer.
#[derive(Debug)]
pub struct CallToolResult {
    pub content: Vec<ContentItem>,
    pub is_error: bool,
}

/// An answer made of one piece of text.
pub fn text_content(text: &str) -> (res: CallToolResult)
    ensures
        res.content@.len() == 1,
        res.content@[0].content_type@ == "text"@,
        res.content@[0].text matches Some(t) && t@ == text@,
        res.content@[0].data is None,
        res.content@[0].mime_type is None,
        !res.is_error,
{
    let mut content: Vec<ContentItem> = Vec::new();
    content.push(
        ContentItem {
            content_type: String::from_str("text"),
            text: Some(String::from_str(text)),
            data: None,
            mime_type: None,
        },
    );
    CallToolResult { content, is_error: false }
}

/// What a server does with a message.
#[derive(Debug, Clone, Copy, PartialEq, Eq, Structural)]
pub enum Route {
    /// `initialize`: answer with the server's information.
    Initialize,
    /// `ping`: answer with an empty object.
    Ping,
    /// `tools/list`: answer with the registered tools.
    ListTools,
    /// `tools/call`: run the named tool.
    CallTool,
    /// `notifications/initialized`: note that the client is ready; no answer.
    Initialized,
    /// Any other message without an id: a notification, ignored.
    Ignore,
    /// Another method with an id: answer with `METHOD_NOT_FOUND`.
    MethodNotFound,
}

/// What a server does with a message of method `method`, with or without an
/// id. A message without an id is a notification and gets no answer:
/// `notifications/initialized` marks the client ready and any other is
/// ignored. A request with an id is routed by its method.
pub open spec fn spec_route(method: Seq<char>, has_id: bool) -> Route {
    if method == "notifications/initialized"@ {
        Route::Initialized
    } else if !has_id {
        Route::Ignore
    } else if method == "initialize"@ {
        Route::Initialize
    } else if method == "ping"@ {
        Route::Ping
    } else if method == "tools/list"@ {
        Route::ListTools
    } else if method == "tools/call"@ {
        Route::CallTool
    } else {
        Route::MethodNotFound
    }
}

/// What a server does with a message of method `method`, with or without an
/// id; see [`spec_route`].
pub fn route(method: &str, has_id: bool) -> (res: Route)
    ensures
        res == spec_route(method@, has_id),
{
    if crate::text::str_eq(method, "notifications/initialized") {
        Route::Initialized
    } else if !has_id {
        Route::Ignore
    } else if crate::text::str_eq(method, "initialize") {
        Route::Initialize
    } else if crate::text::str_eq(method, "ping") {
        Route::Ping
    } else if crate::text::str_eq(method, "tools/list") {
        Route::ListTools
    } else if crate::text::str_eq(method, "tools/call") {
        Route::CallTool
    } else {
        Route::MethodNotFound
    }
}

/// Whether a route is answered: every route but the two notifications.
pub open spec fn answered(route: Route) -> bool {
    !(route is Initialized || route is Ignore)
}

/// The id an answer carries: the request's, or 0 when it had none.
pub fn answer_id(id: Option<u64>) -> (res: u64)
    ensures
        res == match id {
            Some(i) => i,
            None => 0,
        },
{
    match id {
        Some(i) => i,
        None => 0,
    }
}

/// The message of an answer to an unknown method: `Method not found: <m>`.
pub fn method_not_found_message(method: &str) -> (res: String)
    ensures
        res@ == "Method not found: "@ + method@,
{
    let mut text = String::from_str("Method not found: ");
    text.append(method);
    text
}

/// The message of an answer naming an unknown tool: `Tool not found: <t>`.
pub fn tool_not_found_message(tool: &str) -> (res: String)
    ensures
        res@ == "Tool not found: "@ + tool@,
{
    let mut text = String::from_str("Tool not found: ");
    text.append(tool);
    text
}

/// The message of an answer whose tool failed: `Tool error: <e>`.
pub fn tool_error_message(error: &str) -> (res: String)
    ensures
        res@ == "Tool error: "@ + error@,
{
    let mut text = String::from_str("Tool error: ");
    text.append(error);
    text
}

/// The message of an answer to a line that is not JSON: `Parse error: <e>`.
pub fn parse_error_message(error: &str) -> (res: String)
    ensures
        res@ == "Parse error: "@ + error@,
{
    let mut text = String::from_str("Parse error: ");
    text.append(error);
    text
}

/// What a client does with a message from a server.
#[derive(Debug, Clone, Copy, PartialEq, Eq, Structural)]
pub enum Incoming {
    /// The answer to the pending request of that id.
    Response,
    /// A notification (a request from the server counts as one).
    Notification,
    /// Neither an id nor a method: dropped.
    Dropped,
}

/// What a client does with a message from a server: with an id, a message is
/// a server request (passed on as a notification) when it has a method, else
/// a response; without an id, a message with a method is a notification, and
/// any other is dropped.
pub fn classify_incoming(has_id: bool, has_method: bool) -> (res: Incoming)
    ensures
        res == (if has_method {
            Incoming::Notification
        } else if has_id {
            Incoming::Response
        } else {
            Incoming::Dropped
        }),
{
    if has_id {
        if has_method {
            Incoming::Notification
        } else {
            Incoming::Response
        }
    } else if has_method {
        Incoming::Notification
    } else {
        Incoming::Dropped
    }
}

// ---- One line of NDJSON ----

/// What a server does with one line of its input.
#[derive(Debug)]
pub enum LineDecision {
    /// The line is not JSON: answer `PARSE_ERROR` with this message.
    ParseError { message: String },
    /// A message: its method (empty when the `method` member is missing or
    /// not a string), its id (when the `id` member is an unsigned integer),
    /// its params, and where it goes.
    Request { method: String, id: Option<u64>, params: Option<serde_json::Value>, route: Route },
}

/// Whether `d` is the decision for a message whose `method` member reads as
/// `method`, whose `id` member reads as `id`, and whose params are `params`.
pub open spec fn is_request_decision(
    d: LineDecision,
    method: Option<Seq<char>>,
    id: Option<u64>,
    params: Option<serde_json::Value>,
) -> bool {
    let text = match method {
        Some(m) => m,
        None => Seq::empty(),
    };
    d matches LineDecision::Request { method: m, id: i, params: p, route: r } && m@ == text && i == id
        && p == params && r == spec_route(text, id is Some)
}

/// The decision for a message whose fields were read: see
/// [`is_request_decision`].
pub fn request_decision(method: Option<String>, id: Option<u64>, params: Option<serde_json::Value>) -> (res:
    LineDecision)
    ensures
        is_request_decision(
            res,
            match method {
                Some(m) => Some(m@),
                None => None,
            },
            id,
            params,
        ),
{
    let text = match method {
        Some(m) => m,
        None => String::new(),
    };
    let r = route(text.as_str(), id.is_some());
    LineDecision::Request { method: text, id, params, route: r }
}

/// A text, or the empty text for none.
pub open spec fn text_or_empty(text: Option<Seq<char>>) -> Seq<char> {
    match text {
        Some(t) => t,
        None => Seq::empty(),
    }
}

/// What a server does with one line of its input: a line that is not JSON
/// gets a parse error; any other is read for its `method` (a string, else
/// empty), `id` (an unsigned integer, else none) and `params` members and
/// routed as [`spec_route`] says.
pub fn decide_request_line(line: &str) -> (res: LineDecision)
    ensures
        res is ParseError <==> !json_parses(line@),
        res matches LineDecision::ParseError { message } ==> exists|e: Seq<char>|
            message@ == "Parse error: "@ + e,
        res matches LineDecision::Request { method, id, params, route } ==> {
            &&& method@ == text_or_empty(json_text_member(line@, "method"@))
            &&& id == json_u64_member(line@, "id"@)
            &&& (params is Some <==> json_has_member(line@, "params"@))
            &&& route == spec_route(method@, id is Some)
        },
{
    match json_parse(line) {
        Err(e) => LineDecision::ParseError { message: parse_error_message(e.as_str()) },
        Ok(_) => {
            let method = member_text(line, "method");
            let id = member_u64(line, "id");
            let params = member_value(line, "params");
            let ghost m = match &method {
                Some(t) => Some(t@),
                None => None,
            };
            let ghost p = params;
            let res = request_decision(method, id, params);
            assert(is_request_decision(res, m, id, p));
            res
        },
    }
}

/// The tool a `tools/call` request names and the arguments it passes, read
/// from the request's params (their JSON text): the `name` member (a string,
/// else empty) and the `arguments` member, if any.
pub fn tool_call_target(params: &str) -> (res: (String, Option<serde_json::Value>))
    ensures
        res.0@ == text_or_empty(json_text_member(params@, "name"@)),
        res.1 is Some <==> json_has_member(params@, "arguments"@),
{
    let name = match member_text(params, "name") {
        Some(t) => t,
        None => String::new(),
    };
    (name, member_value(params, "arguments"))
}

/// A text argument of a tool call, read from the arguments' JSON text: the
/// member named `key` when it is a string.
pub fn argument_text(args: &str, key: &str) -> (res: Option<String>)
    ensures
        match res {
            Some(t) => json_text_member(args@, key@) == Some(t@),
            None => json_text_member(args@, key@) is None,
        },
{
    member_text(args, key)
}

/// A text argument of a tool call with a default: the member named `key`
/// of the arguments' JSON text when it is a string, else `default`.
pub fn text_argument_or(args: &str, key: &str, default: &str) -> (res: String)
    ensures
        res@ == match json_text_member(args@, key@) {
            Some(t) => t,
            None => default@,
        },
{
    match member_text(args, key) {
        Some(t) => t,
        None => String::from_str(default),
    }
}

/// A text argument of a tool call: the member named `key` of the
/// arguments' JSON text when it is a string, else the empty text.
pub fn text_argument(args: &str, key: &str) -> (res: String)
    ensures
        res@ == text_or_empty(json_text_member(args@, key@)),
{
    match member_text(args, key) {
        Some(t) => t,
        None => String::new(),
    }
}

/// What a client does with one line from a server.
#[derive(Debug)]
pub enum IncomingLine {
    /// A notification (or a request from the server): its method (empty when
    /// not a string) and params.
    Notification { method: String, params: Option<serde_json::Value> },
    /// The answer to the pending request `id`, with its result.
    Response { id: u64, result: Option<serde_json::Value> },
    /// Neither an id nor a method: dropped.
    Dropped,
}

/// Whether `x` is what a client makes of a message with or without an id,
/// with or without a `method` member, whose method reads as `method`, and
/// whose `params` and `result` members are `params` and `result`: the kind
/// is the one [`classify_incoming`] gives.
pub open spec fn is_incoming_line(
    x: IncomingLine,
    id: Option<u64>,
    has_method: bool,
    method: Option<Seq<char>>,
    params: Option<serde_json::Value>,
    result: Option<serde_json::Value>,
) -> bool {
    if has_method {
        x matches IncomingLine::Notification { method: m, params: p } && m@ == (match method {
            Some(t) => t,
            None => Seq::empty(),
        }) && p == params
    } else if id is Some {
        x matches IncomingLine::Response { id: i, result: r } && i == id->Some_0 && r == result
    } else {
        x is Dropped
    }
}

/// What a client makes of a message whose fields were read: see
/// [`is_incoming_line`].
pub fn incoming_line(
    id: Option<u64>,
    has_method: bool,
    method: Option<String>,
    params: Option<serde_json::Value>,
    result: Option<serde_json::Value>,
) -> (res: IncomingLine)
    ensures
        is_incoming_line(
            res,
            id,
            has_method,
            match method {
                Some(m) => Some(m@),
                None => None,
            },
            params,
            result,
        ),
{
    match classify_incoming(id.is_some(), has_method) {
        Incoming::Notification => {
            let text = match method {
                Some(m) => m,
                None => String::new(),
            };
            IncomingLine::Notification { method: text, params }
        },
        Incoming::Response => IncomingLine::Response { id: answer_id(id), result },
        Incoming::Dropped => IncomingLine::Dropped,
    }
}

/// What a client does with one line from a server: nothing (`None`) when
/// the line is not JSON; otherwise the line is read for its `id` (an
/// unsigned integer, else none), `method` (whether present, and its text),
/// `params` and `result` members and sorted as [`classify_incoming`] says.
pub fn decode_incoming_line(line: &str) -> (res: Option<IncomingLine>)
    ensures
        res is None <==> !json_parses(line@),
        res matches Some(x) ==> exists|p: Option<serde_json::Value>, r: Option<serde_json::Value>|
            #![trigger is_incoming_line(x, json_u64_member(line@, "id"@), json_has_member(line@, "method"@), json_text_member(line@, "method"@), p, r)]
            is_incoming_line(
                x,
                json_u64_member(line@, "id"@),
                json_has_member(line@, "method"@),
                json_text_member(line@, "method"@),
                p,
                r,
            ) && (p is Some <==> json_has_member(line@, "params"@)) && (r is Some <==> json_has_member(
                line@,
                "result"@,
            )),
{
    match json_parse(line) {
        Err(_) => None,
        Ok(_) => {
            let id = member_u64(line, "id");
            let has_method = member_value(line, "method").is_some();
            let method = member_text(line, "method");
            let params = member_value(line, "params");
            let result = member_value(line, "result");
            let ghost m = match &method {
                Some(t) => Some(t@),
                None => None,
            };
            let ghost p = params;
            let ghost r = result;
            let x = incoming_line(id, has_method, method, params, result);
            assert(is_incoming_line(x, id, has_method, m, p, r));
            Some(x)
        },
    }
}

} // verus!

verus! {

// ---- The tools a server offers ----

/// A tool as a server lists it: its name, what it does, and the JSON schema of
/// its arguments.
#[derive(Debug)]
pub struct Tool {
    pub name: String,
    pub description: Option<String>,
    pub input_schema: serde_json::Value,
}

/// The mathematical value of a [`Tool`].
pub struct ToolView {
    pub name: Seq<char>,
    pub description: Option<Seq<char>>,
    pub input_schema: serde_json::Value,
}

impl View for Tool {
    type V = ToolView;

    open spec fn view(&self) -> ToolView {
        ToolView {
            name: self.name@,
            description: self.description.deep_view(),
            input_schema: self.input_schema,
        }
    }
}

/// The tools a server offers, each name once, in the order they were first
/// registered. A server keeps each tool's handler at the same position.
pub struct ToolCatalog {
    tools: Vec<Tool>,
}

impl View for ToolCatalog {
    type V = Seq<ToolView>;

    closed spec fn view(&self) -> Seq<ToolView> {
        self.tools@.map_values(|t: Tool| t@)
    }
}

/// The position of the tool named `name` in `tools`, if any.
pub open spec fn tool_position(tools: Seq<ToolView>, name: Seq<char>) -> Option<int> {
    if exists|i: int| 0 <= i < tools.len() && #[trigger] tools[i].name == name {
        Some(choose|i: int| 0 <= i < tools.len() && #[trigger] tools[i].name == name)
    } else {
        None
    }
}

/// No two tools share a name.
pub open spec fn names_distinct(tools: Seq<ToolView>) -> bool {
    forall|i: int, j: int| 0 <= i < tools.len() && 0 <= j < tools.len() && i != j ==> #[trigger] tools[i].name
        != #[trigger] tools[j].name
}

/// Among tools of distinct names, the one named `name` sits at `i`.
proof fn lemma_position_unique(tools: Seq<ToolView>, name: Seq<char>, i: int)
    requires
        names_distinct(tools),
        0 <= i < tools.len(),
        tools[i].name == name,
    ensures
        tool_position(tools, name) == Some(i),
{
    let j = choose|j: int| 0 <= j < tools.len() && #[trigger] tools[j].name == name;
    if j != i {
        assert(tools[i].name != tools[j].name);
    }
}

impl ToolCatalog {
    /// No two tools share a name.
    #[verifier::type_invariant]
    closed spec fn well_formed(&self) -> bool {
        names_distinct(self@)
    }

    /// A catalog with no tool.
    pub fn new() -> (res: ToolCatalog)
        ensures
            res@ == Seq::<ToolView>::empty(),
    {
        let res = ToolCatalog { tools: Vec::new() };
        assert(res@ =~= Seq::<ToolView>::empty());
        res
    }

    /// The number of tools.
    pub fn len(&self) -> (res: usize)
        ensures
            res == self@.len(),
    {
        self.tools.len()
    }

    /// The tool at position `i`.
    pub fn tool(&self, i: usize) -> (res: &Tool)
        requires
            i < self@.len(),
        ensures
            res@ == self@[i as int],
    {
        &self.tools[i]
    }

    /// The position of the tool named `name`, if there is one; see
    /// [`tool_position`].
    pub fn find(&self, name: &str) -> (res: Option<usize>)
        ensures
            res == match tool_position(self@, name@) {
                Some(i) => Some(i as usize),
                None => None::<usize>,
            },
            res matches Some(i) ==> i < self@.len() && self@[i as int].name == name@,
    {
        proof {
            use_type_invariant(self);
        }
        let mut i: usize = 0;
        while i < self.tools.len()
            invariant
                i <= self@.len(),
                names_distinct(self@),
                self@.len() == self.tools@.len(),
                forall|j: int| 0 <= j < i ==> #[trigger] self@[j].name != name@,
            decreases self.tools@.len() - i,
        {
            assert(self@[i as int].name == self.tools@[i as int].name@);
            if crate::text::str_eq(self.tools[i].name.as_str(), name) {
                proof {
                    lemma_position_unique(self@, name@, i as int);
                }
                return Some(i);
            }
            i = i + 1;
        }
        None
    }

    /// Registers a tool: a tool of the same name is replaced in place, any
    /// other is added at the end. Gives the tool's position.
    pub fn register(&mut self, name: &str, description: &str, input_schema: serde_json::Value) -> (res: usize)
        ensures
            names_distinct(old(self)@),
            names_distinct(final(self)@),
            res < final(self)@.len(),
            final(self)@[res as int] == (ToolView {
                name: name@,
                description: Some(description@),
                input_schema,
            }),
            match tool_position(old(self)@, name@) {
                Some(i) => res == i && final(self)@ == old(self)@.update(i, final(self)@[res as int]),
                None => res == old(self)@.len() && final(self)@ == old(self)@.push(final(self)@[res as int]),
            },
    {
        proof {
            use_type_invariant(&*self);
        }
        let tool = Tool {
            name: String::from_str(name),
            description: Some(String::from_str(description)),
            input_schema,
        };
        let ghost before = self@;
        let found = self.find(name);
        let mut tools: Vec<Tool> = Vec::new();
        std::mem::swap(&mut tools, &mut self.tools);
        assert(tools@.map_values(|t: Tool| t@) == before);
        let pos = match found {
            Some(i) => {
                tools.set(i, tool);
                i
            },
            None => {
                let n = tools.len();
                tools.push(tool);
                n
            },
        };
        let ghost after = tools@.map_values(|t: Tool| t@);
        proof {
            match found {
                Some(i) => {
                    assert(after =~= before.update(i as int, after[i as int]));
                    assert forall|a: int, b: int|
                        0 <= a < after.len() && 0 <= b < after.len() && a != b implies #[trigger] after[a].name
                        != #[trigger] after[b].name by {
                        assert(before[a].name != before[b].name);
                    }
                },
                None => {
                    let n = before.len();
                    assert(after =~= before.push(after[n as int]));
                    assert forall|a: int, b: int|
                        0 <= a < after.len() && 0 <= b < after.len() && a != b implies #[trigger] after[a].name
                        != #[trigger] after[b].name by {
                        if a < n && b < n {
                            assert(before[a].name != before[b].name);
                        } else if a == n {
                            assert(before[b].name != name@);
                        } else {
                            assert(before[a].name != name@);
                        }
                    }
                },
            }
        }
        std::mem::swap(&mut tools, &mut self.tools);
        assert(self@ == after);
        pos
    }
}

/// Registering a tool makes it findable under its name, with what was
/// registered; registering a name again replaces its tool and keeps the
/// catalog's size.
pub proof fn lemma_register_then_find(
    before: Seq<ToolView>,
    after: Seq<ToolView>,
    pos: int,
    name: Seq<char>,
    tool: ToolView,
)
    requires
        names_distinct(before),
        names_distinct(after),
        tool.name == name,
        0 <= pos < after.len(),
        after[pos] == tool,
        match tool_position(before, name) {
            Some(i) => pos == i && after == before.update(i, tool),
            None => pos == before.len() && after == before.push(tool),
        },
    ensures
        tool_position(after, name) == Some(pos),
        tool_position(before, name) is Some ==> after.len() == before.len(),
        tool_position(before, name) is None ==> after.len() == before.len() + 1,
        forall|other: Seq<char>|
            other != name ==> #[trigger] tool_position(after, other) == tool_position(before, other),
{
    lemma_position_unique(after, name, pos);
    assert forall|other: Seq<char>| other != name implies #[trigger] tool_position(after, other)
        == tool_position(before, other) by {
        match tool_position(before, other) {
            Some(i) => {
                let i = choose|i: int| 0 <= i < before.len() && #[trigger] before[i].name == other;
                assert(after[i] == before[i]);
                lemma_position_unique(before, other, i);
                lemma_position_unique(after, other, i);
            },
            None => {
                if exists|k: int| 0 <= k < after.len() && #[trigger] after[k].name == other {
                    let k = choose|k: int| 0 <= k < after.len() && #[trigger] after[k].name == other;
                    assert(k != pos);
                    assert(before[k] == after[k]);
                    assert(before[k].name == other);
                }
            },
        }
    }
}

} // verus!

verus! {

/// A server answers exactly the messages that carry an id, except
/// `notifications/initialized`: notifications get no answer.
pub proof fn lemma_route_answers(method: Seq<char>, has_id: bool)
    ensures
        answered(spec_route(method, has_id)) <==> (has_id && method != "notifications/initialized"@),
        !has_id ==> !answered(spec_route(method, has_id)),
{
}

} // verus!

verus! {

// ---- Transports not built yet ----

/// A transport over a Unix socket. It is not implemented yet: every request
/// fails, and it is never alive.
#[derive(Debug, Clone, Copy)]
pub struct UnixSocketTransport;

impl UnixSocketTransport {
    /// Sending fails: `Unix socket transport not yet implemented`.
    pub fn send(&self, request: &JsonRpcRequest) -> (res: Result<serde_json::Value, String>)
        ensures
            res matches Err(msg) && msg@ == "Unix socket transport not yet implemented"@,
    {
        Err(String::from_str("Unix socket transport not yet implemented"))
    }

    /// Never alive.
    pub fn is_alive(&self) -> (res: bool)
        ensures
            !res,
    {
        false
    }

    /// Shutting down succeeds: there is nothing to close.
    pub fn shutdown(&self) -> (res: Result<(), String>)
        ensures
            res is Ok,
    {
        Ok(())
    }
}

/// A transport over TCP. It is not implemented yet: every request fails, and
/// it is never alive.
#[derive(Debug, Clone, Copy)]
pub struct TcpTransport;

impl TcpTransport {
    /// Sending fails: `TCP transport not yet implemented`.
    pub fn send(&self, request: &JsonRpcRequest) -> (res: Result<serde_json::Value, String>)
        ensures
            res matches Err(msg) && msg@ == "TCP transport not yet implemented"@,
    {
        Err(String::from_str("TCP transport not yet implemented"))
    }

    /// Never alive.
    pub fn is_alive(&self) -> (res: bool)
        ensures
            !res,
    {
        false
    }

    /// Shutting down succeeds: there is nothing to close.
    pub fn shutdown(&self) -> (res: Result<(), String>)
        ensures
            res is Ok,
    {
        Ok(())
    }
}

/// The ids a client gives its requests: 1 first, then one more each time
/// (wrapping around after the largest).
#[derive(Debug)]
pub struct RequestIds {
    pub next: u64,
}

/// One id taken: `id` is the next id of `before`, and `after` has the one
/// after it (wrapping at `u64::MAX`).
pub open spec fn take_step(before: RequestIds, id: u64, after: RequestIds) -> bool {
    id == before.next && after.next == (before.next + 1) % 0x1_0000_0000_0000_0000
}

impl RequestIds {
    /// Ids starting at 1.
    pub fn new() -> (res: RequestIds)
        ensures
            res.next == 1,
    {
        RequestIds { next: 1 }
    }

    /// Takes the next id.
    pub fn take(&mut self) -> (res: u64)
        ensures
            take_step(*old(self), res, *final(self)),
    {
        let id = self.next;
        self.next = self.next.wrapping_add(1);
        id
    }
}

/// The request a client sends to call a method: the next id, the method and
/// its parameters.
pub fn next_request(ids: &mut RequestIds, method: &str, params: Option<serde_json::Value>) -> (res: JsonRpcRequest)
    ensures
        res.jsonrpc@ == "2.0"@,
        res.id == Some(old(ids).next),
        res.method@ == method@,
        res.params == params,
        take_step(*old(ids), old(ids).next, *final(ids)),
{
    let id = ids.take();
    JsonRpcRequest::new(id, method, params)
}

proof fn lemma_next_after(states: Seq<RequestIds>, ids: Seq<u64>, k: int)
    requires
        states.len() == ids.len() + 1,
        states[0].next == 1,
        ids.len() < u64::MAX,
        forall|j: int| 0 <= j < ids.len() ==> take_step(states[j], #[trigger] ids[j], states[j + 1]),
        0 <= k <= ids.len(),
    ensures
        states[k].next == k + 1,
    decreases k,
{
    if k > 0 {
        lemma_next_after(states, ids, k - 1);
        assert(take_step(states[k - 1], ids[k - 1], states[k]));
    }
}

/// Ids taken one after another from fresh ids (`RequestIds::new`) count up
/// from 1: the `k`-th request gets id `k + 1`, so no two requests share an
/// id and a later request has a larger one (as long as fewer than
/// `u64::MAX` are taken). `states` are the ids before and after each take.
pub proof fn lemma_fresh_ids_count_up(states: Seq<RequestIds>, ids: Seq<u64>)
    requires
        states.len() == ids.len() + 1,
        states[0].next == 1,
        ids.len() < u64::MAX,
        forall|k: int| 0 <= k < ids.len() ==> take_step(states[k], #[trigger] ids[k], states[k + 1]),
    ensures
        forall|k: int| 0 <= k < ids.len() ==> #[trigger] ids[k] == k + 1,
        forall|j: int, k: int| 0 <= j < k < ids.len() ==> ids[j] < ids[k],
{
    assert forall|k: int| 0 <= k < ids.len() implies #[trigger] ids[k] == k + 1 by {
        lemma_next_after(states, ids, k);
        assert(take_step(states[k], ids[k], states[k + 1]));
    }
    assert forall|j: int, k: int| 0 <= j < k < ids.len() implies ids[j] < ids[k] by {
        assert(ids[j] == j + 1);
        assert(ids[k] == k + 1);
    }
}

} // verus!
