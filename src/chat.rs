use vstd::prelude::*;

use crate::error::ChatError;
use crate::json::{
    lemma_read_quoted, read_string, field, opt_text, optional_text_field, optional_text_of, get_field, int_field, integer_field, json_string, quoted, text_field, text_of, JsonValue,
};

verus! {

/// The accepted model identifiers.
#[derive(Debug, Clone, Copy, PartialEq, Eq, Structural)]
pub enum Model {
    Gpt3Turbo,
    Gpt4,
    Gpt41106Preview,
}

/// The wire name of each model.
pub open spec fn model_name(m: Model) -> Seq<char> {
    match m {
        Model::Gpt3Turbo => "gpt-3.5-turbo"@,
        Model::Gpt4 => "gpt-4"@,
        Model::Gpt41106Preview => "gpt-4-1106-preview"@,
    }
}

/// The model whose wire name is `name`, if any.
pub open spec fn model_named(name: Seq<char>) -> Option<Model> {
    if name == "gpt-3.5-turbo"@ {
        Some(Model::Gpt3Turbo)
    } else if name == "gpt-4"@ {
        Some(Model::Gpt4)
    } else if name == "gpt-4-1106-preview"@ {
        Some(Model::Gpt41106Preview)
    } else {
        None
    }
}

impl Model {
    /// Parses a model identifier; anything outside the closed set is refused.
    pub fn new(model: &str) -> (r: Result<Model, ChatError>)
        ensures
            match model_named(model@) {
                Some(m) => r == Ok::<Model, ChatError>(m),
                None => r == Err::<Model, ChatError>(ChatError::InvalidModel),
            },
    {
        let name = model.to_owned();
        if name == "gpt-3.5-turbo".to_owned() {
            Ok(Model::Gpt3Turbo)
        } else if name == "gpt-4".to_owned() {
            Ok(Model::Gpt4)
        } else if name == "gpt-4-1106-preview".to_owned() {
            Ok(Model::Gpt41106Preview)
        } else {
            Err(ChatError::InvalidModel)
        }
    }

    /// The identifier sent on the wire.
    pub fn name(&self) -> (r: &'static str)
        ensures
            r@ == model_name(*self),
    {
        match self {
            Model::Gpt3Turbo => "gpt-3.5-turbo",
            Model::Gpt4 => "gpt-4",
            Model::Gpt41106Preview => "gpt-4-1106-preview",
        }
    }
}


/// Token counts reported by the service.
#[derive(Debug, Clone, Copy, PartialEq, Eq, Structural)]
pub struct Usage {
    pub prompt_tokens: i32,
    pub completion_tokens: i32,
    pub total_tokens: i32,
}

/// One chat message: who speaks and what is said.
#[derive(Debug, PartialEq, Eq)]
pub struct Message {
    pub role: String,
    pub content: String,
}

/// The mathematical value of a `Message`.
pub struct MessageView {
    pub role: Seq<char>,
    pub content: Seq<char>,
}

impl View for Message {
    type V = MessageView;

    open spec fn view(&self) -> MessageView {
        MessageView { role: self.role@, content: self.content@ }
    }
}

impl Message {
    /// A message from the user.
    pub fn new(content: &str) -> (r: Message)
        ensures
            r@ == (MessageView { role: "user"@, content: content@ }),
    {
        Message { role: "user".to_owned(), content: content.to_owned() }
    }
}

/// One candidate completion.
#[derive(Debug, PartialEq, Eq)]
pub struct Choice {
    pub message: Message,
    pub finish_reason: String,
    pub index: usize,
}

/// The mathematical value of a `Choice`.
pub struct ChoiceView {
    pub message: MessageView,
    pub finish_reason: Seq<char>,
    pub index: usize,
}

impl View for Choice {
    type V = ChoiceView;

    open spec fn view(&self) -> ChoiceView {
        ChoiceView {
            message: self.message@,
            finish_reason: self.finish_reason@,
            index: self.index,
        }
    }
}

/// A completed request: metadata, token usage and the candidate completions.
#[derive(Debug, PartialEq, Eq)]
pub struct SuccessResponse {
    pub id: Option<String>,
    pub object: String,
    pub created: i64,
    pub model: String,
    pub usage: Usage,
    pub choices: Vec<Choice>,
}

/// The mathematical value of a `SuccessResponse`.
pub struct SuccessView {
    pub id: Option<Seq<char>>,
    pub object: Seq<char>,
    pub created: i64,
    pub model: Seq<char>,
    pub usage: Usage,
    pub choices: Seq<ChoiceView>,
}

/// The views of a sequence of choices.
pub open spec fn choice_views(cs: Seq<Choice>) -> Seq<ChoiceView> {
    cs.map_values(|c: Choice| c@)
}

impl View for SuccessResponse {
    type V = SuccessView;

    open spec fn view(&self) -> SuccessView {
        SuccessView {
            id: opt_text(self.id),
            object: self.object@,
            created: self.created,
            model: self.model@,
            usage: self.usage,
            choices: choice_views(self.choices@),
        }
    }
}

/// The error object the service reports.
#[derive(Debug, PartialEq, Eq)]
pub struct Error {
    pub message: String,
    pub error_type: String,
    /// The parameter at fault, when the service names one.
    pub param: Option<String>,
    pub code: String,
}

/// The mathematical value of an `Error`.
pub struct ErrorView {
    pub message: Seq<char>,
    pub error_type: Seq<char>,
    pub param: Option<Seq<char>>,
    pub code: Seq<char>,
}

impl View for Error {
    type V = ErrorView;

    open spec fn view(&self) -> ErrorView {
        ErrorView {
            message: self.message@,
            error_type: self.error_type@,
            param: opt_text(self.param),
            code: self.code@,
        }
    }
}

/// A response body of the error shape.
#[derive(Debug, PartialEq, Eq)]
pub struct ErrorResponse {
    pub error: Error,
}

/// `"<message> <type> <param> <code>"`; an absent parameter reads as empty.
pub open spec fn error_text(e: ErrorView) -> Seq<char> {
    let param = match e.param {
        Some(p) => p,
        None => Seq::empty(),
    };
    e.message + " "@ + e.error_type + " "@ + param + " "@ + e.code
}

impl ErrorResponse {
    /// The service's error as one line: message, type, parameter and code.
    pub fn to_text(&self) -> (r: String)
        ensures
            r@ == error_text(self.error@),
    {
        let mut t = self.error.message.clone();
        t.append(" ");
        t.append(self.error.error_type.as_str());
        t.append(" ");
        match &self.error.param {
            Some(p) => t.append(p.as_str()),
            None => {},
        }
        t.append(" ");
        t.append(self.error.code.as_str());
        t
    }
}

impl From<ErrorResponse> for String {
    fn from(value: ErrorResponse) -> (r: String)
        ensures
            r@ == error_text(value.error@),
    {
        value.to_text()
    }
}

impl vstd::std_specs::convert::FromSpecImpl<ErrorResponse> for String {
    /// The text is fixed by its view only, so `from` states it through
    /// `error_text` rather than as one `String` value.
    open spec fn obeys_from_spec() -> bool {
        false
    }

    open spec fn from_spec(v: ErrorResponse) -> String {
        choose|s: String| #[trigger] s@ == error_text(v.error@)
    }
}

/// A response body: told apart by shape, success first.
#[derive(Debug, PartialEq, Eq)]
pub enum Response {
    Success(SuccessResponse),
    Error(ErrorResponse),
}

/// The mathematical value of a `Response`.
pub enum ResponseView {
    Success(SuccessView),
    Error(ErrorView),
}

impl View for Response {
    type V = ResponseView;

    open spec fn view(&self) -> ResponseView {
        match self {
            Response::Success(s) => ResponseView::Success(s@),
            Response::Error(e) => ResponseView::Error(e.error@),
        }
    }
}

/// The request body: a model and the conversation.
#[derive(Debug, PartialEq, Eq)]
pub struct Payload {
    pub model: Model,
    pub messages: Vec<Message>,
}

/// The mathematical value of a `Payload`.
pub struct PayloadView {
    pub model: Model,
    pub messages: Seq<MessageView>,
}

impl View for Payload {
    type V = PayloadView;

    open spec fn view(&self) -> PayloadView {
        PayloadView { model: self.model, messages: self.messages@.map_values(|m: Message| m@) }
    }
}

/// The payload for a single user message to the model named `model`.
pub open spec fn payload_for(model: Seq<char>, content: Seq<char>) -> Option<PayloadView> {
    match model_named(model) {
        Some(m) => Some(
            PayloadView { model: m, messages: seq![MessageView { role: "user"@, content }] },
        ),
        None => None,
    }
}

/// The JSON object of one message.
pub open spec fn message_json(m: MessageView) -> Seq<char> {
    "{\"role\":"@ + quoted(m.role) + ",\"content\":"@ + quoted(m.content) + "}"@
}

/// The messages' JSON objects, separated by commas.
pub open spec fn messages_json(ms: Seq<MessageView>) -> Seq<char>
    decreases ms.len(),
{
    if ms.len() == 0 {
        Seq::empty()
    } else if ms.len() == 1 {
        message_json(ms[0])
    } else {
        messages_json(ms.drop_last()) + ","@ + message_json(ms.last())
    }
}

/// The JSON text of a payload, members in declaration order, no spaces.
pub open spec fn payload_json(p: PayloadView) -> Seq<char> {
    "{\"model\":"@ + quoted(model_name(p.model)) + ",\"messages\":["@ + messages_json(p.messages)
        + "]}"@
}

impl Payload {
    /// Checks the model name and wraps `content` as the single user message.
    pub fn new(model: &str, content: &str) -> (r: Result<Payload, ChatError>)
        ensures
            match payload_for(model@, content@) {
                Some(p) => r matches Ok(q) && q@ == p,
                None => r == Err::<Payload, ChatError>(ChatError::InvalidModel),
            },
    {
        let m = Model::new(model)?;
        let mut messages: Vec<Message> = Vec::new();
        messages.push(Message::new(content));
        let r = Payload { model: m, messages };
        assert(r@.messages =~= seq![MessageView { role: "user"@, content: content@ }]);
        Ok(r)
    }

    /// The JSON request body.
    pub fn to_json(&self) -> (r: String)
        ensures
            r@ == payload_json(self@),
    {
        let mut t = String::from_str("{\"model\":");
        let name = json_string(self.model.name());
        t.append(name.as_str());
        t.append(",\"messages\":[");
        let ghost views = self@.messages;
        let mut i: usize = 0;
        while i < self.messages.len()
            invariant
                0 <= i <= self.messages@.len(),
                views == self@.messages,
                t@ == "{\"model\":"@ + quoted(model_name(self.model)) + ",\"messages\":["@
                    + messages_json(views.subrange(0, i as int)),
            decreases self.messages@.len() - i,
        {
            let m = &self.messages[i];
            if i > 0 {
                t.append(",");
            }
            t.append("{\"role\":");
            t.append(json_string(m.role.as_str()).as_str());
            t.append(",\"content\":");
            t.append(json_string(m.content.as_str()).as_str());
            t.append("}");
            assert(views.subrange(0, i + 1).drop_last() =~= views.subrange(0, i as int));
            assert(views.subrange(0, i + 1).last() == m@);
            i = i + 1;
        }
        assert(views.subrange(0, i as int) =~= views);
        t.append("]}");
        t
    }
}

/// What `post` needs from the command line.
pub struct Args<'a> {
    pub message: &'a str,
    pub api_key: &'a str,
    pub model_name: &'a str,
    pub timeout: &'a u64,
    pub debug: &'a bool,
}

/// The value of the `Authorization` header.
pub struct BearerToken(pub String);

impl BearerToken {
    /// `"Bearer "` followed by the key.
    pub fn new(api_key: &str) -> (r: BearerToken)
        ensures
            r.0@ == "Bearer "@ + api_key@,
    {
        let mut t = String::from_str("Bearer ");
        t.append(api_key);
        BearerToken(t)
    }
}


/// A message object: `role` and `content` strings.
pub open spec fn decode_message(v: JsonValue) -> Option<MessageView> {
    match (text_of(v, "role"@), text_of(v, "content"@)) {
        (Some(role), Some(content)) => Some(MessageView { role, content }),
        _ => None,
    }
}

/// A choice object: a message, a finish reason and a non-negative index.
pub open spec fn decode_choice(v: JsonValue) -> Option<ChoiceView> {
    match (
        field(v, "message"@),
        text_of(v, "finish_reason"@),
        int_field(v, "index"@, 0, usize::MAX as int),
    ) {
        (Some(mv), Some(finish_reason), Some(index)) => match decode_message(mv) {
            Some(message) => Some(ChoiceView { message, finish_reason, index: index as usize }),
            None => None,
        },
        _ => None,
    }
}

/// Every item decoded as a choice, or `None` if one of them is not a choice.
pub open spec fn decode_choices(items: Seq<JsonValue>) -> Option<Seq<ChoiceView>> {
    if forall|i: int| 0 <= i < items.len() ==> (#[trigger] decode_choice(items[i])) is Some {
        Some(items.map_values(|x: JsonValue| decode_choice(x)->0))
    } else {
        None
    }
}

/// The optional `id`: absent or `null` give `None`.
pub open spec fn decode_id(v: JsonValue) -> Option<Option<Seq<char>>> {
    optional_text_of(v, "id"@)
}

/// A usage object: three 32-bit token counts.
pub open spec fn decode_usage(v: JsonValue) -> Option<Usage> {
    match (
        int_field(v, "prompt_tokens"@, i32::MIN as int, i32::MAX as int),
        int_field(v, "completion_tokens"@, i32::MIN as int, i32::MAX as int),
        int_field(v, "total_tokens"@, i32::MIN as int, i32::MAX as int),
    ) {
        (Some(p), Some(c), Some(t)) => Some(
            Usage { prompt_tokens: p as i32, completion_tokens: c as i32, total_tokens: t as i32 },
        ),
        _ => None,
    }
}

/// The choices array of a success body.
pub open spec fn decode_choice_list(v: JsonValue) -> Option<Seq<ChoiceView>> {
    match field(v, "choices"@) {
        Some(JsonValue::Array(items)) => decode_choices(items@),
        _ => None,
    }
}

/// A body of the success shape.
pub open spec fn decode_success(v: JsonValue) -> Option<SuccessView> {
    match (
        decode_id(v),
        text_of(v, "object"@),
        int_field(v, "created"@, i64::MIN as int, i64::MAX as int),
        text_of(v, "model"@),
    ) {
        (Some(id), Some(object), Some(created), Some(model)) => match (
            field(v, "usage"@),
            decode_choice_list(v),
        ) {
            (Some(u), Some(choices)) => match decode_usage(u) {
                Some(usage) => Some(
                    SuccessView { id, object, created: created as i64, model, usage, choices },
                ),
                None => None,
            },
            _ => None,
        },
        _ => None,
    }
}

/// A body of the error shape: an `error` object with message, type and
/// code strings and an optional parameter name.
pub open spec fn decode_error(v: JsonValue) -> Option<ErrorView> {
    match field(v, "error"@) {
        Some(e) => match (
            text_of(e, "message"@),
            text_of(e, "type"@),
            optional_text_of(e, "param"@),
            text_of(e, "code"@),
        ) {
            (Some(message), Some(error_type), Some(param), Some(code)) => Some(
                ErrorView { message, error_type, param, code },
            ),
            _ => None,
        },
        None => None,
    }
}

/// The success shape is tried first, then the error shape.
pub open spec fn decode_response(v: JsonValue) -> Option<ResponseView> {
    match decode_success(v) {
        Some(s) => Some(ResponseView::Success(s)),
        None => match decode_error(v) {
            Some(e) => Some(ResponseView::Error(e)),
            None => None,
        },
    }
}

fn message_from_json(v: &JsonValue) -> (r: Option<Message>)
    ensures
        match r {
            Some(m) => decode_message(*v) == Some(m@),
            None => decode_message(*v) is None,
        },
{
    match (text_field(v, "role"), text_field(v, "content")) {
        (Some(role), Some(content)) => Some(Message { role, content }),
        _ => None,
    }
}

fn choice_from_json(v: &JsonValue) -> (r: Option<Choice>)
    ensures
        match r {
            Some(c) => decode_choice(*v) == Some(c@),
            None => decode_choice(*v) is None,
        },
{
    let mv = match get_field(v, "message") {
        Some(x) => x,
        None => return None,
    };
    let finish_reason = match text_field(v, "finish_reason") {
        Some(x) => x,
        None => return None,
    };
    let index = match integer_field(v, "index", 0, usize::MAX as i128) {
        Some(x) => x,
        None => return None,
    };
    match message_from_json(mv) {
        Some(message) => Some(Choice { message, finish_reason, index: index as usize }),
        None => None,
    }
}

fn choices_from_json(items: &Vec<JsonValue>) -> (r: Option<Vec<Choice>>)
    ensures
        match r {
            Some(cs) => decode_choices(items@) == Some(choice_views(cs@)),
            None => decode_choices(items@) is None,
        },
{
    let mut out: Vec<Choice> = Vec::new();
    let mut i: usize = 0;
    while i < items.len()
        invariant
            0 <= i <= items@.len(),
            out@.len() == i,
            forall|j: int| 0 <= j < i ==> decode_choice(items@[j]) == Some(#[trigger] out@[j]@),
        decreases items@.len() - i,
    {
        match choice_from_json(&items[i]) {
            Some(c) => out.push(c),
            None => {
                assert(decode_choice(items@[i as int]) is None);
                return None;
            },
        }
        i = i + 1;
    }
    assert forall|j: int| 0 <= j < items@.len() implies (#[trigger] decode_choice(items@[j])) is Some by {
        assert(decode_choice(items@[j]) == Some(out@[j]@));
    }
    assert(choice_views(out@) =~= items@.map_values(|x: JsonValue| decode_choice(x)->0));
    Some(out)
}

fn usage_from_json(v: &JsonValue) -> (r: Option<Usage>)
    ensures
        r == decode_usage(*v),
{
    let lo = i32::MIN as i128;
    let hi = i32::MAX as i128;
    match (
        integer_field(v, "prompt_tokens", lo, hi),
        integer_field(v, "completion_tokens", lo, hi),
        integer_field(v, "total_tokens", lo, hi),
    ) {
        (Some(p), Some(c), Some(t)) => Some(
            Usage { prompt_tokens: p as i32, completion_tokens: c as i32, total_tokens: t as i32 },
        ),
        _ => None,
    }
}

fn success_from_json(v: &JsonValue) -> (r: Option<SuccessResponse>)
    ensures
        match r {
            Some(s) => decode_success(*v) == Some(s@),
            None => decode_success(*v) is None,
        },
{
    let id = match optional_text_field(v, "id") {
        Some(x) => x,
        None => return None,
    };
    let object = match text_field(v, "object") {
        Some(x) => x,
        None => return None,
    };
    let created = match integer_field(v, "created", i64::MIN as i128, i64::MAX as i128) {
        Some(x) => x as i64,
        None => return None,
    };
    let model = match text_field(v, "model") {
        Some(x) => x,
        None => return None,
    };
    let usage = match get_field(v, "usage") {
        Some(u) => match usage_from_json(u) {
            Some(x) => x,
            None => return None,
        },
        None => return None,
    };
    let choices = match get_field(v, "choices") {
        Some(JsonValue::Array(items)) => match choices_from_json(items) {
            Some(x) => x,
            None => return None,
        },
        _ => return None,
    };
    Some(SuccessResponse { id, object, created, model, usage, choices })
}

fn error_from_json(v: &JsonValue) -> (r: Option<ErrorResponse>)
    ensures
        match r {
            Some(e) => decode_error(*v) == Some(e.error@),
            None => decode_error(*v) is None,
        },
{
    let e = match get_field(v, "error") {
        Some(x) => x,
        None => return None,
    };
    match (
        text_field(e, "message"),
        text_field(e, "type"),
        optional_text_field(e, "param"),
        text_field(e, "code"),
    ) {
        (Some(message), Some(error_type), Some(param), Some(code)) => Some(
            ErrorResponse { error: Error { message, error_type, param, code } },
        ),
        _ => None,
    }
}

impl Response {
    /// Decodes a parsed body: the success shape if it fits, else the error
    /// shape, else a parse error.
    pub fn from_json(v: &JsonValue) -> (r: Result<Response, ChatError>)
        ensures
            match decode_response(*v) {
                Some(rv) => r matches Ok(x) && x@ == rv,
                None => r == Err::<Response, ChatError>(ChatError::Parse),
            },
    {
        match success_from_json(v) {
            Some(s) => Ok(Response::Success(s)),
            None => match error_from_json(v) {
                Some(e) => Ok(Response::Error(e)),
                None => Err(ChatError::Parse),
            },
        }
    }
}


/// Whether `c` has the Unicode `White_Space` property.
pub open spec fn white_space(c: char) -> bool {
    let n = c as u32;
    (0x9 <= n <= 0xD) || n == 0x20 || n == 0x85 || n == 0xA0 || n == 0x1680 || (0x2000 <= n
        <= 0x200A) || n == 0x2028 || n == 0x2029 || n == 0x202F || n == 0x205F || n == 0x3000
}

/// `s` without its leading white space.
pub open spec fn trim_start(s: Seq<char>) -> Seq<char>
    decreases s.len(),
{
    if s.len() > 0 && white_space(s[0]) {
        trim_start(s.drop_first())
    } else {
        s
    }
}

/// `s` without its trailing white space.
pub open spec fn trim_end(s: Seq<char>) -> Seq<char>
    decreases s.len(),
{
    if s.len() > 0 && white_space(s.last()) {
        trim_end(s.drop_last())
    } else {
        s
    }
}

/// `s` without leading and trailing white space.
pub open spec fn trimmed(s: Seq<char>) -> Seq<char> {
    trim_end(trim_start(s))
}

/// Relies on `str::trim`, which removes leading and trailing characters with
/// the Unicode `White_Space` property and returns the slice between.
#[verifier::external_body]
fn trim(s: &str) -> (r: &str)
    ensures
        r@ == trimmed(s@),
{
    s.trim()
}

/// What a decoded response yields: the service's error, no text, or the
/// last choice's content with surrounding white space removed.
pub open spec fn reply_ok(r: Result<String, ChatError>, response: ResponseView) -> bool {
    match response {
        ResponseView::Error(e) => r matches Err(ChatError::Api(t)) && t@ == error_text(e),
        ResponseView::Success(s) => if s.choices.len() == 0 {
            r == Err::<String, ChatError>(ChatError::NoText)
        } else {
            r matches Ok(t) && t@ == trimmed(s.choices.last().message.content)
        },
    }
}

/// Picks the reply text out of a response. The last choice is taken, not
/// the first.
pub fn select_reply(response: &Response) -> (r: Result<String, ChatError>)
    ensures
        reply_ok(r, response@),
{
    match response {
        Response::Error(e) => Err(ChatError::Api(e.to_text())),
        Response::Success(s) => {
            let n = s.choices.len();
            if n == 0 {
                Err(ChatError::NoText)
            } else {
                let c = &s.choices[n - 1];
                assert(choice_views(s.choices@).last() == c@);
                Ok(trim(c.message.content.as_str()).to_owned())
            }
        },
    }
}

impl From<BearerToken> for String {
    fn from(value: BearerToken) -> (r: String)
        ensures
            r == value.0,
    {
        value.0
    }
}

impl vstd::std_specs::convert::FromSpecImpl<BearerToken> for String {
    open spec fn obeys_from_spec() -> bool {
        true
    }

    open spec fn from_spec(v: BearerToken) -> String {
        v.0
    }
}

/// The chat-completions endpoint.
pub const ENDPOINT: &'static str = "https://api.openai.com/v1/chat/completions";

/// One HTTP request, ready to send.
pub struct Request {
    pub url: String,
    /// Value of the `Authorization` header.
    pub authorization: String,
    /// JSON body, sent with `Content-Type: application/json`.
    pub body: String,
    pub timeout_secs: u64,
    pub debug: bool,
}

/// The request for a message to a model: the payload must be buildable.
pub open spec fn request_ok(
    r: Result<Request, ChatError>,
    model_name: Seq<char>,
    message: Seq<char>,
    api_key: Seq<char>,
    timeout: u64,
    debug: bool,
) -> bool {
    match payload_for(model_name, message) {
        Some(p) => r matches Ok(q) && q.url@ == ENDPOINT@ && q.authorization@ == "Bearer "@
            + api_key && q.body@ == payload_json(p) && q.timeout_secs == timeout && q.debug
            == debug,
        None => r == Err::<Request, ChatError>(ChatError::InvalidModel),
    }
}

/// Builds the request that `post` sends; an invalid model fails here,
/// before anything goes out.
pub fn prepare_request(args: &Args) -> (r: Result<Request, ChatError>)
    ensures
        request_ok(
            r,
            args.model_name@,
            args.message@,
            args.api_key@,
            *args.timeout,
            *args.debug,
        ),
{
    let payload = Payload::new(args.model_name, args.message)?;
    let token: String = String::from(BearerToken::new(args.api_key));
    Ok(
        Request {
            url: ENDPOINT.to_owned(),
            authorization: token,
            body: payload.to_json(),
            timeout_secs: *args.timeout,
            debug: *args.debug,
        },
    )
}


/// A body of the success shape decodes as a success whose choices are as many
/// as the items of its `choices` array. The shape: an optional string `id`, strings
/// `object` and `model`, an integer `created` that fits `i64`, a `usage` object
/// of three counts that fit `i32`, and a `choices` array of choice objects.
pub proof fn lemma_success_keeps_choice_count(v: JsonValue, u: JsonValue, items: Vec<JsonValue>)
    requires
        decode_id(v) is Some,
        text_of(v, "object"@) is Some,
        int_field(v, "created"@, i64::MIN as int, i64::MAX as int) is Some,
        text_of(v, "model"@) is Some,
        field(v, "usage"@) == Some(u),
        decode_usage(u) is Some,
        field(v, "choices"@) == Some(JsonValue::Array(items)),
        forall|i: int| 0 <= i < items@.len() ==> (#[trigger] decode_choice(items@[i])) is Some,
    ensures
        decode_response(v) matches Some(ResponseView::Success(s)) && s.choices.len() == items@.len(),
{
}

/// A body with an `error` object and no `choices` decodes as an error carrying
/// the fields of that object; the parameter name may be absent or `null`.
pub proof fn lemma_error_shape_keeps_fields(v: JsonValue, e: JsonValue)
    requires
        field(v, "choices"@) is None,
        field(v, "error"@) == Some(e),
        text_of(e, "message"@) is Some,
        text_of(e, "type"@) is Some,
        optional_text_of(e, "param"@) is Some,
        text_of(e, "code"@) is Some,
    ensures
        decode_response(v) matches Some(ResponseView::Error(x)) && Some(x.message) == text_of(
            e,
            "message"@,
        ) && Some(x.error_type) == text_of(e, "type"@) && Some(x.param) == optional_text_of(e, "param"@)
            && Some(x.code) == text_of(e, "code"@),
{
}

/// A name outside the accepted set never yields a payload.
pub proof fn lemma_unknown_model_refused(model: Seq<char>, content: Seq<char>)
    requires
        model != "gpt-3.5-turbo"@,
        model != "gpt-4"@,
        model != "gpt-4-1106-preview"@,
    ensures
        payload_for(model, content) is None,
{
}


/// The text after the prefix `lit` of `t`.
pub open spec fn after(t: Seq<char>, lit: Seq<char>) -> Option<Seq<char>> {
    if lit.len() <= t.len() && t.subrange(0, lit.len() as int) == lit {
        Some(t.skip(lit.len() as int))
    } else {
        None
    }
}

/// Reads one message object at the start of `t`: the message and the text after it.
pub open spec fn read_message(t: Seq<char>) -> Option<(MessageView, Seq<char>)> {
    match after(t, "{\"role\":"@) {
        Some(t1) => match read_string(t1) {
            Some((role, t2)) => match after(t2, ",\"content\":"@) {
                Some(t3) => match read_string(t3) {
                    Some((content, t4)) => match after(t4, "}"@) {
                        Some(t5) => Some((MessageView { role, content }, t5)),
                        None => None,
                    },
                    None => None,
                },
                None => None,
            },
            None => None,
        },
        None => None,
    }
}

/// Reads the text of a payload with one message, in the compact form
/// that `Payload::to_json` writes.
pub open spec fn read_payload(t: Seq<char>) -> Option<PayloadView> {
    match after(t, "{\"model\":"@) {
        Some(t1) => match read_string(t1) {
            Some((name, t2)) => match (model_named(name), after(t2, ",\"messages\":["@)) {
                (Some(model), Some(t3)) => match read_message(t3) {
                    Some((m, t4)) => if after(t4, "]}"@) == Some(Seq::<char>::empty()) {
                        Some(PayloadView { model, messages: seq![m] })
                    } else {
                        None
                    },
                    None => None,
                },
                _ => None,
            },
            None => None,
        },
        None => None,
    }
}

proof fn lemma_after_prefix(a: Seq<char>, b: Seq<char>)
    ensures
        after(a + b, a) == Some(b),
{
    assert((a + b).subrange(0, a.len() as int) =~= a);
    assert((a + b).skip(a.len() as int) =~= b);
}

proof fn lemma_model_name_read(m: Model)
    ensures
        model_named(model_name(m)) == Some(m),
{
    reveal_strlit("gpt-3.5-turbo");
    reveal_strlit("gpt-4");
    reveal_strlit("gpt-4-1106-preview");
    assert("gpt-4"@.len() != "gpt-3.5-turbo"@.len());
    assert("gpt-4-1106-preview"@.len() != "gpt-3.5-turbo"@.len());
    assert("gpt-4-1106-preview"@.len() != "gpt-4"@.len());
}

/// The JSON text of a payload built from a valid model name and a message
/// reads back as that same payload.
pub proof fn lemma_payload_round_trip(model: Seq<char>, content: Seq<char>)
    requires
        payload_for(model, content) is Some,
    ensures
        read_payload(payload_json(payload_for(model, content)->0)) == payload_for(model, content),
{
    let p = payload_for(model, content)->0;
    let m = MessageView { role: "user"@, content };
    let name = model_name(p.model);
    lemma_model_name_read(p.model);
    assert(p.messages.len() == 1 && p.messages[0] == m);
    assert(messages_json(p.messages) == message_json(m));

    let close = "]}"@;
    let t5 = "}"@ + close;
    let t4 = quoted(content) + t5;
    let t3 = ",\"content\":"@ + t4;
    let t2 = quoted("user"@) + t3;
    let msg = "{\"role\":"@ + t2;
    assert(msg =~= message_json(m) + close);
    let u3 = ",\"messages\":["@ + msg;
    let u2 = quoted(name) + u3;
    let t = "{\"model\":"@ + u2;
    assert(t =~= payload_json(p));

    lemma_after_prefix("{\"model\":"@, u2);
    lemma_read_quoted(name, u3);
    lemma_after_prefix(",\"messages\":["@, msg);
    lemma_after_prefix("{\"role\":"@, t2);
    lemma_read_quoted("user"@, t3);
    lemma_after_prefix(",\"content\":"@, t4);
    lemma_read_quoted(content, t5);
    lemma_after_prefix("}"@, close);
    lemma_after_prefix(close, Seq::<char>::empty());
    assert(close + Seq::<char>::empty() =~= close);
    assert(read_message(msg) == Some((m, close)));
    assert(seq![m] =~= p.messages);
}

} // verus!
