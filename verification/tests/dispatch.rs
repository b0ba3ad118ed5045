use tzh::config::Config;
use tzh::dispatch::{
    begin, classify, gather_input, has_blank, interactive_unit, join_words, plan, split_lines,
    Unit,
};
use tzh::output::{render_interactive, render_result, OutputLine, Style};
use tzh::translator::{Mode, Step, Translator};

fn words(list: &[&str]) -> Vec<String> {
    list.iter().map(|w| w.to_string()).collect()
}

fn word(text: &str) -> Unit {
    Unit { mode: Mode::Word, text: text.to_string() }
}

fn line(text: &str) -> Unit {
    Unit { mode: Mode::Line, text: text.to_string() }
}

fn user_content(step: &Step) -> String {
    match step {
        Step::Post { request, .. } => request.body.messages[1].content.clone(),
        other => panic!("expected a post, got {:?}", other),
    }
}

#[test]
fn has_blank_classification() {
    assert!(!has_blank("foo"));
    assert!(has_blank("foo bar"));
    assert!(has_blank("foo\n"));
}

#[test]
fn has_blank_sees_each_ascii_whitespace_byte() {
    for text in ["a b", "a\tb", "a\nb", "a\u{b}b", "a\u{c}b", "a\rb", " ", "\n", "x ", " x"] {
        assert!(has_blank(text), "{:?}", text);
    }
}

#[test]
fn has_blank_sees_nothing_else() {
    for text in ["", "a", "a-b", "\u{4f60}\u{597d}", "a\u{a0}b", "a\u{3000}b", "a\u{85}b", "\u{1f}"] {
        assert!(!has_blank(text), "{:?}", text);
    }
}

#[test]
fn classify_by_whitespace() {
    assert_eq!(classify("hello"), Mode::Word);
    assert_eq!(classify("open source"), Mode::Line);
    assert_eq!(classify(""), Mode::Word);
    assert_eq!(classify("hello\n"), Mode::Line);
}

#[test]
fn join_words_puts_one_space_between() {
    assert_eq!(join_words(&words(&[])), "");
    assert_eq!(join_words(&words(&["hello"])), "hello");
    assert_eq!(join_words(&words(&["open", "source"])), "open source");
    assert_eq!(join_words(&words(&["a", "", "b"])), "a  b");
    assert_eq!(join_words(&words(&["", ""])), " ");
}

#[test]
fn split_lines_cuts_at_line_feeds_and_trims() {
    assert_eq!(split_lines("line1\nline2\n\nline3"), words(&["line1", "line2", "", "line3"]));
    assert_eq!(split_lines("  a  \n\tb\t"), words(&["a", "b"]));
    assert_eq!(split_lines("one line"), words(&["one line"]));
}

#[test]
fn split_lines_takes_carriage_returns_with_the_line_end() {
    assert_eq!(split_lines("a\r\nb\r\n"), words(&["a", "b"]));
    assert_eq!(split_lines("a\rb"), words(&["a\rb"]));
}

#[test]
fn split_lines_has_no_line_after_a_final_line_feed() {
    assert_eq!(split_lines(""), words(&[]));
    assert_eq!(split_lines("a\n"), words(&["a"]));
    assert_eq!(split_lines("\n"), words(&[""]));
    assert_eq!(split_lines("a\n\n"), words(&["a", ""]));
    assert_eq!(split_lines("\na"), words(&["", "a"]));
}

#[test]
fn gather_input_joins_the_words() {
    assert_eq!(gather_input(&words(&["hello"]), ""), Some(word("hello")));
    assert_eq!(gather_input(&words(&["open", "source"]), ""), Some(line("open source")));
    assert_eq!(gather_input(&words(&["open source"]), "ignored"), Some(line("open source")));
    assert_eq!(gather_input(&words(&["hello "]), ""), Some(line("hello ")));
}

#[test]
fn gather_input_falls_back_to_standard_input() {
    assert_eq!(gather_input(&words(&[]), "bonjour"), Some(word("bonjour")));
    assert_eq!(gather_input(&words(&[]), "  bonjour  "), Some(line("bonjour")));
    assert_eq!(gather_input(&words(&[]), "bonjour\n"), Some(line("bonjour")));
    assert_eq!(gather_input(&words(&[]), "a\nb\n"), Some(line("a\nb")));
}

#[test]
fn gather_input_finds_nothing_to_translate() {
    assert_eq!(gather_input(&words(&[]), ""), None);
    assert_eq!(gather_input(&words(&[]), " \n\t "), None);
    assert_eq!(gather_input(&words(&[""]), "piped"), None);
}

#[test]
fn plan_keeps_a_word_as_it_is() {
    assert_eq!(plan(word("hello"), false), vec![word("hello")]);
    assert_eq!(plan(word("hello"), true), vec![word("hello")]);
}

#[test]
fn plan_translates_a_line_as_one_trimmed_request() {
    assert_eq!(plan(line("open source"), false), vec![line("open source")]);
    assert_eq!(plan(line("  bonjour  "), false), vec![line("bonjour")]);
    assert_eq!(plan(line("a\nb\n"), false), vec![line("a\nb")]);
}

#[test]
fn plan_streams_line_by_line() {
    assert_eq!(
        plan(line("line1\nline2\n\nline3"), true),
        vec![line("line1"), line("line2"), line(""), line("line3")]
    );
    assert_eq!(plan(line(" a b "), true), vec![line("a b")]);
}

#[test]
fn interactive_unit_skips_empty_lines() {
    assert_eq!(interactive_unit(""), None);
    assert_eq!(interactive_unit("   "), None);
    assert_eq!(interactive_unit("\t\r\n"), None);
}

#[test]
fn interactive_unit_trims_then_classifies() {
    assert_eq!(interactive_unit("hello\n"), Some(word("hello")));
    assert_eq!(interactive_unit("  hello  "), Some(word("hello")));
    assert_eq!(interactive_unit(" open source \n"), Some(line("open source")));
}

#[test]
fn begin_translates_a_word_in_word_mode() {
    let translator = Translator::new(&Config::default());
    let step = begin(&translator, &word("hello"), "zh", None);
    assert_eq!(step, translator.translate_word("hello", "zh", None));
    assert_eq!(user_content(&step), "Translate this word to Chinese: hello");
}

#[test]
fn begin_translates_a_line_in_line_mode() {
    let translator = Translator::new(&Config::default());
    let step = begin(&translator, &line("open source"), "ja", Some("en"));
    assert_eq!(step, translator.translate_line("open source", "ja", Some("en")));
    assert_eq!(
        user_content(&step),
        "Translate the following text from English to Japanese:\n\nopen source"
    );
}

#[test]
fn begin_short_circuits_an_empty_line_only() {
    let translator = Translator::new(&Config::default());
    assert_eq!(
        begin(&translator, &line(""), "zh", None),
        Step::Deliver { original: String::new(), translation: String::new() }
    );
    assert!(matches!(begin(&translator, &word(""), "zh", None), Step::Post { .. }));
}

#[test]
fn render_plain_shows_the_translation_alone() {
    assert_eq!(
        render_result("hello", "\u{4f60}\u{597d}", "zh", true),
        vec![OutputLine::new(Style::Plain, "\u{4f60}\u{597d}")]
    );
}

#[test]
fn render_formatted_shows_original_and_translation() {
    assert_eq!(
        render_result("open source", "\u{30aa}\u{30fc}\u{30d7}\u{30f3}", "ja", false),
        vec![
            OutputLine::new(Style::Plain, ""),
            OutputLine::new(Style::Label, "Original:"),
            OutputLine::new(Style::Plain, "open source"),
            OutputLine::new(Style::Label, "Translation (ja):"),
            OutputLine::new(Style::Bright, "\u{30aa}\u{30fc}\u{30d7}\u{30f3}"),
        ]
    );
}

#[test]
fn render_of_an_empty_translation_is_an_empty_line() {
    assert_eq!(render_result("x", "", "zh", true), vec![OutputLine::new(Style::Plain, "")]);
    assert_eq!(render_result("x", "", "zh", false), vec![OutputLine::new(Style::Plain, "")]);
}

#[test]
fn render_interactive_shows_the_translation() {
    assert_eq!(render_interactive("hi"), vec![OutputLine::new(Style::Bright, "hi")]);
    assert_eq!(render_interactive(""), Vec::<OutputLine>::new());
}

#[test]
fn has_blank_agrees_with_a_scan_of_the_bytes() {
    let samples = ["", "a", " ", "a b", "\u{4f60}\u{597d}", "\u{4f60} \u{597d}", "a\u{b}", "\u{2003}", "x\u{a0}y"];
    for text in samples {
        let expected = text.bytes().any(|b| matches!(b, 0x20 | 0x09..=0x0d));
        assert_eq!(has_blank(text), expected, "{:?}", text);
    }
}

#[test]
fn split_lines_agrees_with_lines_then_trim() {
    let samples = [
        "",
        "\n",
        "\r",
        "\r\n",
        "a",
        "a\n",
        "a\nb",
        "a\r\nb\r\n",
        "a\rb\n",
        "\n\n",
        " a \n\n b \n",
        "\u{4f60}\u{597d}\n\u{4e16}\u{754c}",
        "tab\there\nand there\n",
    ];
    for text in samples {
        let expected: Vec<String> = text
            .lines()
            .map(|l| l.trim_matches(|c| matches!(c, ' ' | '\t' | '\n' | '\u{b}' | '\u{c}' | '\r')))
            .map(|l| l.to_string())
            .collect();
        assert_eq!(split_lines(text), expected, "{:?}", text);
    }
}
