use voice_chat::chat::{
    can_show_completion, can_show_transcription, Action, App, ChatContainer, Item, Message,
};
use voice_chat::openai::{
    authorization_header, completion_body, OpenAiChoices, OpenAiCompletionRes, OpenAiError,
    OpenAiSpeechToTextRes, OpenAiUsage, COMPLETION_URL, TRANSCRIPTION_MODEL, TRANSCRIPTION_URL,
};
use voice_chat::{OPENAI_MODEL, OPENAI_PROMPT_TOKENS_COUNT, OPENAI_TEMPERATURE};

fn lines(app: &App) -> Vec<(String, String)> {
    app.items.iter().map(|item: &Item| (item.name.clone(), item.text.clone())).collect()
}

fn line(name: &str, text: &str) -> (String, String) {
    (String::from(name), String::from(text))
}

fn failure(message: &str) -> OpenAiError {
    OpenAiError {
        message: Some(String::from(message)),
        kind: Some(String::from("invalid_request_error")),
        param: None,
        code: None,
    }
}

fn choice(text: &str, index: u64) -> OpenAiChoices {
    OpenAiChoices {
        text: Some(String::from(text)),
        index: Some(index),
        logprobs: None,
        finish_reason: Some(String::from("stop")),
    }
}

fn completion(choices: Option<Vec<OpenAiChoices>>, error: Option<OpenAiError>) -> OpenAiCompletionRes {
    OpenAiCompletionRes {
        id: Some(String::from("cmpl-1")),
        object: Some(String::from("text_completion")),
        created: Some(1),
        model: Some(String::from(OPENAI_MODEL)),
        choices,
        usage: Some(OpenAiUsage {
            prompt_tokens: Some(1),
            completion_tokens: Some(2),
            total_tokens: Some(3),
        }),
        error,
    }
}

#[test]
fn request_constants_are_fixed() {
    assert_eq!(OPENAI_MODEL, "text-davinci-003");
    assert_eq!(OPENAI_PROMPT_TOKENS_COUNT, 100);
    assert_eq!(OPENAI_TEMPERATURE, 0);
    assert_eq!(TRANSCRIPTION_MODEL, "whisper-1");
    assert_eq!(TRANSCRIPTION_URL, "https://api.openai.com/v1/audio/transcriptions");
    assert_eq!(COMPLETION_URL, "https://api.openai.com/v1/completions");
}

#[test]
fn authorization_header_is_bearer_and_key() {
    assert_eq!(authorization_header("abc"), "Bearer abc");
    assert_eq!(authorization_header(""), "Bearer ");
}

#[test]
fn completion_body_carries_the_question() {
    let body = completion_body(String::from("What is a frame?"));
    assert_eq!(body.len(), 4);
    assert_eq!(body.get("model").and_then(|v| v.as_str()), Some("text-davinci-003"));
    assert_eq!(body.get("prompt").and_then(|v| v.as_str()), Some("What is a frame?"));
    assert_eq!(body.get("max_tokens").and_then(|v| v.as_u64()), Some(100));
    assert_eq!(body.get("temperature").and_then(|v| v.as_u64()), Some(0));
    assert_eq!(
        serde_json::to_string(&body).unwrap(),
        "{\"max_tokens\":100,\"model\":\"text-davinci-003\",\"prompt\":\"What is a frame?\",\"temperature\":0}"
    );
}

#[test]
fn default_container_style_is_content() {
    assert_eq!(ChatContainer::default(), ChatContainer::ContentStyle);
}

#[test]
fn new_app_is_empty() {
    let app = App::new();
    assert_eq!(app.api_key, "");
    assert_eq!(app.input, "");
    assert!(app.items.is_empty());
    assert_eq!(app.title(), "OpenAI ChatGPT by Voice");
}

#[test]
fn audio_messages_ask_for_outside_work() {
    let mut app = App::new();
    assert!(matches!(app.update(Message::AudioStartRecord), Action::BeginRecord));
    assert!(matches!(app.update(Message::AudioStopRecord), Action::StopRecord));
    assert!(matches!(app.update(Message::AudioSpeechToText), Action::Transcribe));
    assert!(app.items.is_empty());
    assert_eq!(app.api_key, "");
    assert_eq!(app.input, "");
}

#[test]
fn key_and_text_input_are_stored() {
    let mut app = App::new();
    assert!(matches!(app.update(Message::ApiKeyInputChanged(String::from("k1"))), Action::Nothing));
    assert_eq!(app.api_key, "k1");
    assert!(matches!(app.update(Message::ApiKeyInputSubmit(String::from("k2"))), Action::Nothing));
    assert_eq!(app.api_key, "k2");
    assert!(matches!(app.update(Message::TextInputChanged(String::from("hel"))), Action::Nothing));
    assert_eq!(app.input, "hel");
    assert!(app.items.is_empty());
}

#[test]
fn submitted_text_is_shown_and_sent() {
    let mut app = App::new();
    app.update(Message::TextInputChanged(String::from("hello")));
    let action = app.update(Message::TextInputSubmit(String::from("hello")));
    match action {
        Action::Complete(question) => assert_eq!(question, "hello"),
        _ => panic!("the question was not sent"),
    }
    assert_eq!(app.input, "");
    assert_eq!(lines(&app), vec![line("You (by text):", "hello")]);
}

#[test]
fn completion_error_is_shown_alone() {
    let mut app = App::new();
    let res = completion(Some(vec![choice("ignored", 0)]), Some(failure("bad key")));
    app.handle_completion(&res);
    assert_eq!(lines(&app), vec![line("ChatGPT (Error):", "bad key")]);
}

#[test]
fn every_choice_is_shown_in_order() {
    let mut app = App::new();
    app.update(Message::TextInputSubmit(String::from("q")));
    let res = completion(Some(vec![choice("first", 0), choice("second", 1)]), None);
    app.handle_completion(&res);
    assert_eq!(
        lines(&app),
        vec![line("You (by text):", "q"), line("ChatGPT:", "first"), line("ChatGPT:", "second")]
    );
    app.handle_completion(&completion(Some(Vec::new()), None));
    assert_eq!(app.items.len(), 3);
}

#[test]
fn transcription_becomes_the_question() {
    let mut app = App::new();
    let res = OpenAiSpeechToTextRes { text: Some(String::from("what time is it")), error: None };
    assert_eq!(app.handle_transcription(&res), Some(String::from("what time is it")));
    assert_eq!(lines(&app), vec![line("You (by voice):", "what time is it")]);
}

#[test]
fn transcription_error_asks_nothing() {
    let mut app = App::new();
    let res = OpenAiSpeechToTextRes { text: Some(String::from("x")), error: Some(failure("too long")) };
    assert_eq!(app.handle_transcription(&res), None);
    assert_eq!(lines(&app), vec![line("ChatGPT (Error):", "too long")]);
}

#[test]
fn completion_can_be_shown_with_a_message_or_with_texts() {
    assert!(can_show_completion(&completion(None, Some(failure("bad key")))));
    assert!(can_show_completion(&completion(Some(vec![choice("a", 0), choice("b", 1)]), None)));
    assert!(can_show_completion(&completion(Some(Vec::new()), None)));
    assert!(!can_show_completion(&completion(None, None)));
    let mut silent = failure("x");
    silent.message = None;
    assert!(!can_show_completion(&completion(Some(vec![choice("a", 0)]), Some(silent))));
    let mut blank = choice("b", 1);
    blank.text = None;
    assert!(!can_show_completion(&completion(Some(vec![choice("a", 0), blank]), None)));
}

#[test]
fn transcription_can_be_shown_with_a_message_or_a_text() {
    assert!(can_show_transcription(&OpenAiSpeechToTextRes { text: Some(String::from("t")), error: None }));
    assert!(!can_show_transcription(&OpenAiSpeechToTextRes { text: None, error: None }));
    assert!(can_show_transcription(&OpenAiSpeechToTextRes { text: None, error: Some(failure("e")) }));
    let mut silent = failure("x");
    silent.message = None;
    assert!(!can_show_transcription(&OpenAiSpeechToTextRes {
        text: Some(String::from("t")),
        error: Some(silent)
    }));
}
