use chatgpt_cli::chat::{
    select_reply, BearerToken, Choice, Error, ErrorResponse, Message, Model, Payload, Response,
    SuccessResponse, Usage,
};
use chatgpt_cli::error::ChatError;
use chatgpt_cli::json::{json_string, JsonValue};

fn text(s: &str) -> JsonValue {
    JsonValue::Str(s.to_string())
}

fn object(members: Vec<(&str, JsonValue)>) -> JsonValue {
    JsonValue::Object(members.into_iter().map(|(k, v)| (k.to_string(), v)).collect())
}

fn choice_json(content: &str, index: i128) -> JsonValue {
    object(vec![
        ("message", object(vec![("role", text("assistant")), ("content", text(content))])),
        ("finish_reason", text("stop")),
        ("index", JsonValue::Integer(index)),
    ])
}

fn success_json(choices: Vec<JsonValue>) -> JsonValue {
    object(vec![
        ("id", text("chatcmpl-1")),
        ("object", text("chat.completion")),
        ("created", JsonValue::Integer(1700000000)),
        ("model", text("gpt-4")),
        (
            "usage",
            object(vec![
                ("prompt_tokens", JsonValue::Integer(5)),
                ("completion_tokens", JsonValue::Integer(7)),
                ("total_tokens", JsonValue::Integer(12)),
            ]),
        ),
        ("choices", JsonValue::Array(choices)),
    ])
}

fn success(contents: &[&str]) -> Response {
    Response::Success(SuccessResponse {
        id: None,
        object: "chat.completion".to_string(),
        created: 0,
        model: "gpt-4".to_string(),
        usage: Usage { prompt_tokens: 1, completion_tokens: 2, total_tokens: 3 },
        choices: contents
            .iter()
            .enumerate()
            .map(|(i, c)| Choice {
                message: Message { role: "assistant".to_string(), content: c.to_string() },
                finish_reason: "stop".to_string(),
                index: i,
            })
            .collect(),
    })
}

#[test]
fn test_payload_new() {
    let payload = Payload::new("gpt-4", "Hello world").unwrap();

    assert_eq!(payload.model, Model::Gpt4);
    assert_eq!(payload.messages.len(), 1);
    assert_eq!(payload.messages[0].content, "Hello world");
}

#[test]
fn test_model_new_valid_input() {
    assert_eq!(Model::new("gpt-4").unwrap(), Model::Gpt4);
    assert_eq!(Model::new("gpt-3.5-turbo").unwrap(), Model::Gpt3Turbo);
}

#[test]
fn test_model_new_invalid_input() {
    assert!(Model::new("not-a-model").is_err());
}

#[test]
fn third_model_accepted() {
    assert_eq!(Model::new("gpt-4-1106-preview").unwrap(), Model::Gpt41106Preview);
    assert_eq!(Model::Gpt41106Preview.name(), "gpt-4-1106-preview");
}

#[test]
fn unknown_model_refused_by_payload() {
    assert_eq!(Payload::new("gpt-5", "hi"), Err(ChatError::InvalidModel));
    assert_eq!(Payload::new("", "hi"), Err(ChatError::InvalidModel));
    assert_eq!(Payload::new("GPT-4", "hi"), Err(ChatError::InvalidModel));
}

#[test]
fn message_is_from_user() {
    let m = Message::new("hello");
    assert_eq!(m.role, "user");
    assert_eq!(m.content, "hello");
}

#[test]
fn bearer_token_prefixes_key() {
    assert_eq!(BearerToken::new("sk-abc").0, "Bearer sk-abc");
}

#[test]
fn json_string_escapes() {
    assert_eq!(json_string("plain"), "\"plain\"");
    assert_eq!(json_string("a\"b\\c\nd\te\u{1}"), "\"a\\\"b\\\\c\\nd\\te\\u0001\"");
}

#[test]
fn payload_json_is_exact() {
    let p = Payload::new("gpt-4", "Hello \"world\"").unwrap();
    assert_eq!(
        p.to_json(),
        "{\"model\":\"gpt-4\",\"messages\":[{\"role\":\"user\",\"content\":\"Hello \\\"world\\\"\"}]}"
    );
}

#[test]
fn payload_json_round_trips_through_serde_json() {
    let content = "Line one\nline \"two\"\t\\ \u{7} ünïcödé";
    let p = Payload::new("gpt-3.5-turbo", content).unwrap();
    let v: serde_json::Value = serde_json::from_str(&p.to_json()).unwrap();
    assert_eq!(v["model"], "gpt-3.5-turbo");
    let messages = v["messages"].as_array().unwrap();
    assert_eq!(messages.len(), 1);
    assert_eq!(messages[0]["role"], "user");
    assert_eq!(messages[0]["content"], content);
}

#[test]
fn success_shape_keeps_choice_count() {
    let v = success_json(vec![choice_json("a", 0), choice_json("b", 1), choice_json("c", 2)]);
    match Response::from_json(&v).unwrap() {
        Response::Success(s) => {
            assert_eq!(s.choices.len(), 3);
            assert_eq!(s.id.as_deref(), Some("chatcmpl-1"));
            assert_eq!(s.created, 1700000000);
            assert_eq!(s.usage.total_tokens, 12);
            assert_eq!(s.choices[2].message.content, "c");
            assert_eq!(s.choices[1].index, 1);
        }
        Response::Error(_) => panic!("expected success"),
    }
}

#[test]
fn success_shape_with_no_choices() {
    let v = success_json(vec![]);
    match Response::from_json(&v).unwrap() {
        Response::Success(s) => assert_eq!(s.choices.len(), 0),
        Response::Error(_) => panic!("expected success"),
    }
}

#[test]
fn success_shape_id_may_be_absent_or_null() {
    let mut v = success_json(vec![choice_json("a", 0)]);
    if let JsonValue::Object(members) = &mut v {
        members[0].1 = JsonValue::Null;
    }
    match Response::from_json(&v).unwrap() {
        Response::Success(s) => assert_eq!(s.id, None),
        Response::Error(_) => panic!("expected success"),
    }
    if let JsonValue::Object(members) = &mut v {
        members.remove(0);
    }
    assert!(matches!(Response::from_json(&v), Ok(Response::Success(_))));
}

#[test]
fn error_shape_keeps_fields() {
    let v = object(vec![(
        "error",
        object(vec![
            ("message", text("Incorrect API key")),
            ("type", text("invalid_request_error")),
            ("param", text("key")),
            ("code", text("invalid_api_key")),
        ]),
    )]);
    match Response::from_json(&v).unwrap() {
        Response::Error(e) => {
            assert_eq!(e.error.message, "Incorrect API key");
            assert_eq!(e.error.error_type, "invalid_request_error");
            assert_eq!(e.error.param.as_deref(), Some("key"));
            assert_eq!(e.error.code, "invalid_api_key");
        }
        Response::Success(_) => panic!("expected error"),
    }
}

#[test]
fn neither_shape_is_a_parse_error() {
    assert_eq!(Response::from_json(&JsonValue::Null), Err(ChatError::Parse));
    assert_eq!(Response::from_json(&object(vec![("x", text("y"))])), Err(ChatError::Parse));
    let bad_index = success_json(vec![choice_json("a", -1)]);
    assert_eq!(Response::from_json(&bad_index), Err(ChatError::Parse));
    let big_tokens = object(vec![(
        "usage",
        object(vec![("prompt_tokens", JsonValue::Integer(1 << 40))]),
    )]);
    assert_eq!(Response::from_json(&big_tokens), Err(ChatError::Parse));
    let code_missing = object(vec![(
        "error",
        object(vec![("message", text("m")), ("type", text("t")), ("param", text("p"))]),
    )]);
    assert_eq!(Response::from_json(&code_missing), Err(ChatError::Parse));
}

#[test]
fn error_param_may_be_null_or_absent() {
    let with_null = object(vec![(
        "error",
        object(vec![
            ("message", text("m")),
            ("type", text("t")),
            ("param", JsonValue::Null),
            ("code", text("c")),
        ]),
    )]);
    let without = object(vec![(
        "error",
        object(vec![("message", text("m")), ("type", text("t")), ("code", text("c"))]),
    )]);
    for v in [with_null, without] {
        match Response::from_json(&v).unwrap() {
            Response::Error(e) => {
                assert_eq!(e.error.message, "m");
                assert_eq!(e.error.error_type, "t");
                assert_eq!(e.error.param, None);
                assert_eq!(e.error.code, "c");
            }
            Response::Success(_) => panic!("expected error"),
        }
    }
}

#[test]
fn last_choice_selected_and_trimmed() {
    let r = success(&[" first ", " last answer "]);
    assert_eq!(select_reply(&r), Ok("last answer".to_string()));
}

#[test]
fn zero_choices_is_no_text() {
    assert_eq!(select_reply(&success(&[])), Err(ChatError::NoText));
}

#[test]
fn api_error_is_formatted() {
    let r = Response::Error(ErrorResponse {
        error: Error {
            message: "Bad key".to_string(),
            error_type: "auth".to_string(),
            param: Some("key".to_string()),
            code: "401".to_string(),
        },
    });
    assert_eq!(select_reply(&r), Err(ChatError::Api("Bad key auth key 401".to_string())));
}

#[test]
fn trim_removes_unicode_white_space() {
    let r = success(&["\u{3000}\n\t answer \u{a0}\r\n"]);
    assert_eq!(select_reply(&r), Ok("answer".to_string()));
    assert_eq!(select_reply(&success(&["   "])), Ok(String::new()));
}

#[test]
fn api_error_without_param_is_formatted() {
    let e = ErrorResponse {
        error: Error {
            message: "Overloaded".to_string(),
            error_type: "server_error".to_string(),
            param: None,
            code: "503".to_string(),
        },
    };
    assert_eq!(e.to_text(), "Overloaded server_error  503");
    let s: String = e.into();
    assert_eq!(s, "Overloaded server_error  503");
}
