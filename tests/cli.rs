use chatgpt_cli::chat::{
    Choice, Message, Response, SuccessResponse, Usage, ENDPOINT,
};
use chatgpt_cli::cli::{derive_message, finish, prepare, Cli, Output};
use chatgpt_cli::error::ChatError;

fn cli(prompt: &str, input: Option<&str>, in_place: bool, output: Option<&str>) -> Cli {
    Cli {
        prompt: prompt.to_string(),
        input: input.map(|s| s.to_string()),
        api_key: "sk-test".to_string(),
        model_name: "gpt-4".to_string(),
        timeout: 60,
        output: output.map(|s| s.to_string()),
        in_place,
        debug: false,
    }
}

fn success(contents: &[&str]) -> Response {
    Response::Success(SuccessResponse {
        id: Some("id-1".to_string()),
        object: "chat.completion".to_string(),
        created: 1,
        model: "gpt-4".to_string(),
        usage: Usage { prompt_tokens: 1, completion_tokens: 1, total_tokens: 2 },
        choices: contents
            .iter()
            .enumerate()
            .map(|(i, c)| Choice {
                message: Message { role: "assistant".to_string(), content: c.to_string() },
                finish_reason: "stop".to_string(),
                index: i,
            })
            .collect(),
    })
}

#[test]
fn message_without_input_is_prompt() {
    assert_eq!(derive_message("Summarize", None), "Summarize");
    assert_eq!(derive_message("", None), "");
}

#[test]
fn message_with_input_fences_contents() {
    let m = derive_message("Explain", Some("fn main() {}\n"));
    assert_eq!(m, "Explain ```fn main() {}\n```");
    assert!(m.contains("Explain"));
    assert!(m.contains("fn main() {}\n"));
}

#[test]
fn full_message_uses_cli_prompt() {
    let c = cli("Review", Some("a.rs"), false, None);
    assert_eq!(c.get_full_message(Some("x")), "Review ```x```");
}

#[test]
fn in_place_without_input_fails_before_request() {
    let c = cli("Summarize", None, true, None);
    assert_eq!(c.check(), Err(ChatError::InPlaceWithoutInput));
    assert!(matches!(prepare(&c, None), Err(ChatError::InPlaceWithoutInput)));
}

#[test]
fn prepare_builds_request() {
    let c = cli("Summarize", None, false, None);
    let r = prepare(&c, None).unwrap();
    assert_eq!(r.url, ENDPOINT);
    assert_eq!(r.authorization, "Bearer sk-test");
    assert_eq!(
        r.body,
        "{\"model\":\"gpt-4\",\"messages\":[{\"role\":\"user\",\"content\":\"Summarize\"}]}"
    );
    assert_eq!(r.timeout_secs, 60);
    assert!(!r.debug);
}

#[test]
fn prepare_refuses_invalid_model() {
    let mut c = cli("Summarize", None, false, None);
    c.model_name = "davinci".to_string();
    assert!(matches!(prepare(&c, None), Err(ChatError::InvalidModel)));
}

#[test]
fn finish_selects_last_trimmed() {
    let c = cli("Summarize", None, false, None);
    let out = finish(&c, &success(&[" first ", " last answer "])).unwrap();
    assert_eq!(out, Output::Stdout("last answer\n".to_string()));
}

#[test]
fn finish_with_zero_choices_fails() {
    let c = cli("Summarize", None, false, None);
    assert_eq!(finish(&c, &success(&[])), Err(ChatError::NoText));
}

#[test]
fn end_to_end_prints_hello() {
    let c = cli("Summarize", None, false, None);
    let request = prepare(&c, None).unwrap();
    assert!(request.body.contains("\"content\":\"Summarize\""));
    let out = finish(&c, &success(&[" Hello "])).unwrap();
    assert_eq!(out, Output::Stdout("Hello\n".to_string()));
}

#[test]
fn in_place_writes_input_file() {
    let c = cli("Fix", Some("notes.txt"), true, Some("other.txt"));
    let out = finish(&c, &success(&["  fixed text \n"])).unwrap();
    assert_eq!(
        out,
        Output::File { path: "notes.txt".to_string(), contents: "fixed text".to_string() }
    );
}

#[test]
fn output_flag_writes_output_file() {
    let c = cli("Fix", Some("notes.txt"), false, Some("out.txt"));
    let out = finish(&c, &success(&["done"])).unwrap();
    assert_eq!(out, Output::File { path: "out.txt".to_string(), contents: "done".to_string() });
}

#[test]
fn finish_refuses_in_place_without_input() {
    let c = cli("Summarize", None, true, None);
    assert_eq!(finish(&c, &success(&["text"])), Err(ChatError::InPlaceWithoutInput));
}
