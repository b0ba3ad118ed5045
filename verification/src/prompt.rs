//! The prompts that a translation request carries: one system prompt for each
//! mode, and the user prompt that names the languages and holds the text.

use crate::language::{lang_code_to_name, language_name};
use crate::text::opt_str;
use vstd::prelude::*;

verus! {

/// The system prompt of line mode, for free-form text.
pub const LINE_SYSTEM_PROMPT: &'static str =
    "You are a professional translator. Translate the given text accurately while preserving the original meaning and tone. Only return the translated text without any explanations or additional content. If the input contains no valid characters or is empty, return an empty line.";

/// The system prompt of word mode, for a single lexical item.
pub const WORD_SYSTEM_PROMPT: &'static str =
    "You are a professional translator and dictionary. When given a single word or phrase, provide the most common translation with brief context if needed. Only return the translation without explanations. If the input contains no valid characters or is empty, return an empty line.";

/// The user prompt of line mode. With a source language it names both
/// languages; without one it leaves the source to be detected.
pub open spec fn line_prompt(text: Seq<char>, target: Seq<char>, source: Option<Seq<char>>) -> Seq<
    char,
> {
    match source {
        Some(src) => "Translate the following text from "@ + language_name(src) + " to "@
            + language_name(target) + ":\n\n"@ + text,
        None => "Translate the following text to "@ + language_name(target) + ":\n\n"@ + text,
    }
}

/// The user prompt of word mode.
pub open spec fn word_prompt(word: Seq<char>, target: Seq<char>, source: Option<Seq<char>>) -> Seq<
    char,
> {
    match source {
        Some(src) => "Translate this "@ + language_name(src) + " word to "@ + language_name(target)
            + ": "@ + word,
        None => "Translate this word to "@ + language_name(target) + ": "@ + word,
    }
}

/// Builds the user prompt that asks for the translation of a line of text.
pub fn build_line_translation_prompt(
    text: &str,
    target_lang: &str,
    source_lang: Option<&str>,
) -> (prompt: String)
    ensures
        prompt@ == line_prompt(text@, target_lang@, opt_str(source_lang)),
{
    let target_name = lang_code_to_name(target_lang);
    let mut prompt = match source_lang {
        Some(source) => {
            let source_name = lang_code_to_name(source);
            let mut head = String::from_str("Translate the following text from ");
            head.append(source_name.as_str());
            head.append(" to ");
            head
        },
        None => String::from_str("Translate the following text to "),
    };
    prompt.append(target_name.as_str());
    prompt.append(":\n\n");
    prompt.append(text);
    prompt
}

/// Builds the user prompt that asks for the translation of a single word.
pub fn build_word_translation_prompt(
    word: &str,
    target_lang: &str,
    source_lang: Option<&str>,
) -> (prompt: String)
    ensures
        prompt@ == word_prompt(word@, target_lang@, opt_str(source_lang)),
{
    let target_name = lang_code_to_name(target_lang);
    let mut prompt = match source_lang {
        Some(source) => {
            let source_name = lang_code_to_name(source);
            let mut head = String::from_str("Translate this ");
            head.append(source_name.as_str());
            head.append(" word to ");
            head
        },
        None => String::from_str("Translate this word to "),
    };
    prompt.append(target_name.as_str());
    prompt.append(": ");
    prompt.append(word);
    prompt
}

/// Both prompts end with the text to translate, and name the target language
/// right after the word "to".
pub proof fn law_prompt_names_target(text: Seq<char>, target: Seq<char>, source: Option<Seq<char>>)
    ensures
        exists|head: Seq<char>|
            line_prompt(text, target, source) == head + "to "@ + language_name(target) + ":\n\n"@
                + text,
        exists|head: Seq<char>|
            word_prompt(text, target, source) == head + "to "@ + language_name(target) + ": "@
                + text,
{
    reveal_strlit("to ");
    reveal_strlit(" to ");
    reveal_strlit("Translate the following text to ");
    reveal_strlit("Translate this word to ");
    reveal_strlit(" word to ");
    let name = language_name(target);
    match source {
        Some(src) => {
            let head = "Translate the following text from "@ + language_name(src) + seq![' '];
            assert(" to "@ =~= seq![' '] + "to "@);
            assert(line_prompt(text, target, source) =~= head + "to "@ + name + ":\n\n"@ + text);
            let whead = "Translate this "@ + language_name(src) + " word "@;
            reveal_strlit(" word ");
            assert(" word to "@ =~= " word "@ + "to "@);
            assert(word_prompt(text, target, source) =~= whead + "to "@ + name + ": "@ + text);
        },
        None => {
            let head = "Translate the following text "@;
            reveal_strlit("Translate the following text ");
            assert("Translate the following text to "@ =~= head + "to "@);
            assert(line_prompt(text, target, source) =~= head + "to "@ + name + ":\n\n"@ + text);
            let whead = "Translate this word "@;
            reveal_strlit("Translate this word ");
            assert("Translate this word to "@ =~= whead + "to "@);
            assert(word_prompt(text, target, source) =~= whead + "to "@ + name + ": "@ + text);
        },
    }
}

} // verus!
