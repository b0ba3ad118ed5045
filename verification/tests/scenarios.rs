use tzh::chat::{ChatChoice, ChatMessage, ChatResponse};
use tzh::config::Config;
use tzh::dispatch::{begin, gather_input, plan};
use tzh::output::{render_result, OutputLine, Style};
use tzh::status::HttpStatus;
use tzh::translator::{Reply, Step, Translator};

/// A service that answers the posts of the client from a script, and a
/// record of what the client did.
struct Run {
    posts: Vec<String>,
    pauses_ms: Vec<u64>,
    delivered: Vec<(String, String)>,
    failed: Option<String>,
}

fn reply(code: u16, content: Option<&str>) -> Reply {
    let status = HttpStatus::new(code).unwrap();
    match content {
        Some(text) => Reply::Arrived {
            status,
            body: String::new(),
            parsed: Ok(ChatResponse {
                choices: vec![ChatChoice { message: ChatMessage::new("", text) }],
            }),
        },
        None => Reply::Arrived { status, body: "error".to_string(), parsed: Err(String::new()) },
    }
}

fn run(words: &[&str], piped: &str, target: &str, stream: bool, script: Vec<Reply>) -> Run {
    let translator = Translator::new(&Config::default());
    let words: Vec<String> = words.iter().map(|w| w.to_string()).collect();
    let mut run = Run { posts: vec![], pauses_ms: vec![], delivered: vec![], failed: None };
    let mut script = script.into_iter();
    let input = match gather_input(&words, piped) {
        Some(input) => input,
        None => return run,
    };
    for unit in plan(input, stream) {
        let mut step = begin(&translator, &unit, target, None);
        loop {
            match step {
                Step::Post { pending, delay_ms, request } => {
                    run.pauses_ms.push(delay_ms);
                    run.posts.push(request.body.messages[1].content.clone());
                    step = translator.resume(pending, script.next().unwrap());
                }
                Step::Deliver { original, translation } => {
                    run.delivered.push((original, translation));
                    break;
                }
                Step::Fail { error } => {
                    run.failed = Some(error.message());
                    return run;
                }
            }
        }
    }
    run
}

#[test]
fn plain_translation_of_a_word() {
    let run = run(&["hello"], "", "zh", false, vec![reply(200, Some("\"\u{4f60}\u{597d}\""))]);
    assert_eq!(run.posts, vec!["Translate this word to Chinese: hello"]);
    assert_eq!(run.delivered, vec![("hello".to_string(), "\u{4f60}\u{597d}".to_string())]);
    let (original, translation) = &run.delivered[0];
    let lines = render_result(original, translation, "zh", true);
    assert_eq!(lines, vec![OutputLine::new(Style::Plain, "\u{4f60}\u{597d}")]);
    let stdout: String = lines.iter().map(|l| format!("{}\n", l.text)).collect();
    assert_eq!(stdout, "\u{4f60}\u{597d}\n");
    assert_eq!(run.failed, None);
}

#[test]
fn formatted_translation_of_a_phrase() {
    let run = run(&["open source"], "", "ja", false, vec![reply(200, Some("translated"))]);
    assert_eq!(run.posts, vec!["Translate the following text to Japanese:\n\nopen source"]);
    let (original, translation) = &run.delivered[0];
    let shown: Vec<String> =
        render_result(original, translation, "ja", false).into_iter().map(|l| l.text).collect();
    assert_eq!(shown, vec!["", "Original:", "open source", "Translation (ja):", "translated"]);
}

#[test]
fn streamed_lines_are_translated_in_order() {
    let run = run(
        &["line1\nline2\n\nline3"],
        "",
        "en",
        true,
        vec![reply(200, Some("one")), reply(200, Some("two")), reply(200, Some("three"))],
    );
    assert_eq!(
        run.posts,
        vec![
            "Translate the following text to English:\n\nline1",
            "Translate the following text to English:\n\nline2",
            "Translate the following text to English:\n\nline3",
        ]
    );
    assert_eq!(
        run.delivered,
        vec![
            ("line1".to_string(), "one".to_string()),
            ("line2".to_string(), "two".to_string()),
            (String::new(), String::new()),
            ("line3".to_string(), "three".to_string()),
        ]
    );
    let translated: Vec<&str> =
        run.delivered.iter().map(|d| d.1.as_str()).filter(|t| !t.is_empty()).collect();
    assert_eq!(translated, vec!["one", "two", "three"]);
}

#[test]
fn streamed_lines_stop_at_the_first_failure() {
    let run = run(
        &["line1\nline2\nline3"],
        "",
        "en",
        true,
        vec![reply(200, Some("one")), reply(500, None), reply(500, None), reply(500, None)],
    );
    assert_eq!(run.posts.len(), 4);
    assert_eq!(run.delivered, vec![("line1".to_string(), "one".to_string())]);
    assert_eq!(
        run.failed,
        Some("API request failed with status 500 Internal Server Error: error".to_string())
    );
}

#[test]
fn piped_input_is_trimmed() {
    let run = run(&[], "  bonjour  ", "en", false, vec![reply(200, Some("hello"))]);
    assert_eq!(run.posts, vec!["Translate the following text to English:\n\nbonjour"]);
    assert_eq!(run.delivered, vec![("bonjour".to_string(), "hello".to_string())]);
}

#[test]
fn empty_piped_input_is_not_translated() {
    let run = run(&[], " \n ", "en", false, vec![]);
    assert!(run.posts.is_empty());
    assert!(run.delivered.is_empty());
    assert_eq!(run.failed, None);
}

#[test]
fn two_failures_then_success() {
    let run = run(
        &["hello"],
        "",
        "zh",
        true,
        vec![reply(500, None), reply(500, None), reply(200, Some("ok"))],
    );
    assert_eq!(run.posts.len(), 3);
    assert_eq!(run.pauses_ms, vec![0, 1000, 2000]);
    assert!(run.pauses_ms.iter().sum::<u64>() >= 3000);
    assert_eq!(run.delivered, vec![("hello".to_string(), "ok".to_string())]);
    assert_eq!(run.failed, None);
}

#[test]
fn three_failures_give_up() {
    let run = run(
        &["hello", "world"],
        "",
        "zh",
        false,
        vec![reply(500, None), reply(503, None), reply(502, None)],
    );
    assert_eq!(run.posts.len(), 3);
    assert_eq!(run.pauses_ms, vec![0, 1000, 2000]);
    assert!(run.delivered.is_empty());
    assert_eq!(
        run.failed,
        Some("API request failed with status 502 Bad Gateway: error".to_string())
    );
}
