//! The input dispatcher: where the text to translate comes from, whether it
//! is a word or a line, and into which units it is cut.

use crate::config::ConfigView;
use crate::text::{chars_of, is_blank, lemma_trimmed_at, opt_str, trim, trimmed};
use crate::translator::{first_step, line_start, JobView, Mode, Step, StepView, Translator};
use vstd::prelude::*;
use vstd::string::StringSliceAdditionalSpecFns;
use vstd::utf8::{char_is_scalar, encode_scalar, encode_utf8};

verus! {

/// The six ASCII whitespace bytes: those of space, tab, line feed, vertical
/// tab, form feed and carriage return.
pub open spec fn is_blank_byte(b: u8) -> bool {
    b == 0x20 || b == 0x09 || b == 0x0a || b == 0x0b || b == 0x0c || b == 0x0d
}

/// Whether some character of `text` is ASCII whitespace.
pub open spec fn holds_blank(text: Seq<char>) -> bool {
    exists|i: int| 0 <= i < text.len() && is_blank(#[trigger] text[i])
}

/// Whether some byte of `bytes` is ASCII whitespace.
pub open spec fn holds_blank_byte(bytes: Seq<u8>) -> bool {
    exists|i: int| 0 <= i < bytes.len() && is_blank_byte(#[trigger] bytes[i])
}

/// The bytes that encode one character: a blank is encoded by the one blank
/// byte of its number, and no byte of another character's encoding is blank.
proof fn lemma_scalar_bytes(c: char)
    ensures
        encode_scalar(c as u32).len() >= 1,
        is_blank(c) ==> encode_scalar(c as u32).len() == 1 && is_blank_byte(
            encode_scalar(c as u32)[0],
        ),
        !is_blank(c) ==> forall|i: int|
            0 <= i < encode_scalar(c as u32).len() ==> !is_blank_byte(
                #[trigger] encode_scalar(c as u32)[i],
            ),
{
    char_is_scalar(c);
    let v = c as u32;
    assert(v <= 0x7F ==> (v & 0x7F) as u8 == v) by (bit_vector);
    assert(0xC0u8 | ((v >> 6) & 0x1F) as u8 >= 0x80) by (bit_vector);
    assert(0xE0u8 | ((v >> 12) & 0x0F) as u8 >= 0x80) by (bit_vector);
    assert(0xF0u8 | ((v >> 18) & 0x7) as u8 >= 0x80) by (bit_vector);
    assert(0x80u8 | (v & 0x3F) as u8 >= 0x80) by (bit_vector);
    assert(0x80u8 | ((v >> 6) & 0x3F) as u8 >= 0x80) by (bit_vector);
    assert(0x80u8 | ((v >> 12) & 0x3F) as u8 >= 0x80) by (bit_vector);
}

/// A text holds a blank character exactly when its UTF-8 encoding holds a
/// blank byte.
pub proof fn lemma_blank_bytes(text: Seq<char>)
    ensures
        holds_blank_byte(encode_utf8(text)) == holds_blank(text),
    decreases text.len(),
{
    if text.len() > 0 {
        let head = encode_scalar(text[0] as u32);
        let rest = text.drop_first();
        let tail = encode_utf8(rest);
        let bytes = encode_utf8(text);
        assert(bytes == head + tail);
        lemma_scalar_bytes(text[0]);
        lemma_blank_bytes(rest);
        if holds_blank(text) {
            let i = choose|i: int| 0 <= i < text.len() && is_blank(#[trigger] text[i]);
            if i == 0 {
                assert(is_blank_byte(bytes[0]));
            } else {
                assert(is_blank(rest[i - 1]));
                let j = choose|j: int| 0 <= j < tail.len() && is_blank_byte(#[trigger] tail[j]);
                assert(is_blank_byte(bytes[head.len() + j]));
            }
        }
        if holds_blank_byte(bytes) {
            let j = choose|j: int| 0 <= j < bytes.len() && is_blank_byte(#[trigger] bytes[j]);
            if j < head.len() {
                assert(bytes[j] == head[j]);
                assert(is_blank(text[0]));
            } else {
                assert(bytes[j] == tail[j - head.len()]);
                assert(is_blank_byte(tail[j - head.len()]));
                let i = choose|i: int| 0 <= i < rest.len() && is_blank(#[trigger] rest[i]);
                assert(is_blank(text[i + 1]));
            }
        }
    }
}

/// Tells whether the text holds ASCII whitespace: whether any of its bytes is
/// a space, a tab, a line feed, a vertical tab, a form feed or a carriage
/// return. Such a text is a line; a text without is a single word.
pub fn has_blank(text: &str) -> (found: bool)
    ensures
        found == holds_blank_byte(text.spec_bytes()),
        found == holds_blank(text@),
{
    let bytes = text.as_bytes();
    proof {
        lemma_blank_bytes(text@);
    }
    let mut i: usize = 0;
    while i < bytes.len()
        invariant
            0 <= i <= bytes.len(),
            bytes@ == text.spec_bytes(),
            holds_blank_byte(text.spec_bytes()) == holds_blank(text@),
            forall|k: int| 0 <= k < i ==> !is_blank_byte(#[trigger] bytes@[k]),
        decreases bytes.len() - i,
    {
        let b = bytes[i];
        if b == 0x20 || b == 0x09 || b == 0x0a || b == 0x0b || b == 0x0c || b == 0x0d {
            assert(is_blank_byte(bytes@[i as int]));
            return true;
        }
        i += 1;
    }
    false
}

/// The texts of a list of strings.
pub open spec fn texts_of(words: Seq<String>) -> Seq<Seq<char>> {
    Seq::new(words.len(), |i: int| words[i]@)
}

/// The words, in order, with one space between each two.
pub open spec fn joined(words: Seq<Seq<char>>) -> Seq<char>
    decreases words.len(),
{
    if words.len() == 0 {
        Seq::empty()
    } else if words.len() == 1 {
        words[0]
    } else {
        joined(words.drop_last()) + seq![' '] + words.last()
    }
}

/// The number of characters of `s` before its first line feed; the length of
/// `s` where it has none.
pub open spec fn line_len(s: Seq<char>) -> nat
    decreases s.len(),
{
    if s.len() == 0 || s.first() == '\n' {
        0
    } else {
        1 + line_len(s.drop_first())
    }
}

/// The lines of `s`, each trimmed. A line ends at a line feed or at the end
/// of the text; a line feed at the very end is not followed by one more,
/// empty, line. A carriage return before the line feed goes with the
/// trimming.
pub open spec fn stream_lines(s: Seq<char>) -> Seq<Seq<char>>
    decreases s.len(),
{
    if s.len() == 0 {
        Seq::empty()
    } else {
        let n = line_len(s) as int;
        if n >= s.len() {
            seq![trimmed(s)]
        } else {
            seq![trimmed(s.take(n))] + stream_lines(s.skip(n + 1))
        }
    }
}

/// One text to translate, with the mode that it is translated in.
#[derive(Debug, PartialEq, Eq)]
pub struct Unit {
    pub mode: Mode,
    pub text: String,
}

/// The mathematical model of a [`Unit`].
pub struct UnitView {
    pub mode: Mode,
    pub text: Seq<char>,
}

impl View for Unit {
    type V = UnitView;

    open spec fn view(&self) -> UnitView {
        UnitView { mode: self.mode, text: self.text@ }
    }
}

/// The models of a list of units.
pub open spec fn units_of(units: Seq<Unit>) -> Seq<UnitView> {
    Seq::new(units.len(), |i: int| units[i]@)
}

/// The models of an optional unit.
pub open spec fn opt_unit(unit: Option<Unit>) -> Option<UnitView> {
    match unit {
        Some(u) => Some(u@),
        None => None,
    }
}

/// The mode that a text is translated in: a text that holds whitespace is a
/// line, any other text a word.
pub open spec fn mode_of(text: Seq<char>) -> Mode {
    if holds_blank(text) {
        Mode::Line
    } else {
        Mode::Word
    }
}

/// The input of a `translate` command. With words on the command line it is
/// the words joined by spaces. Without, it is what standard input held,
/// trimmed, in the mode that the untrimmed text has: classifying comes
/// before trimming. `None` where the text is empty.
pub open spec fn gathered(words: Seq<Seq<char>>, piped: Seq<char>) -> Option<UnitView> {
    if words.len() == 0 {
        if trimmed(piped).len() == 0 {
            None
        } else {
            Some(UnitView { mode: mode_of(piped), text: trimmed(piped) })
        }
    } else {
        if joined(words).len() == 0 {
            None
        } else {
            Some(UnitView { mode: mode_of(joined(words)), text: joined(words) })
        }
    }
}

/// The units that an input is translated in. A word is translated as it
/// stands. A line is translated as one trimmed line, or, when streaming,
/// line by line.
pub open spec fn planned(input: UnitView, stream: bool) -> Seq<UnitView> {
    match input.mode {
        Mode::Word => seq![input],
        Mode::Line => {
            if stream {
                Seq::new(
                    stream_lines(input.text).len(),
                    |i: int| UnitView { mode: Mode::Line, text: stream_lines(input.text)[i] },
                )
            } else {
                seq![UnitView { mode: Mode::Line, text: trimmed(input.text) }]
            }
        },
    }
}

/// The unit that a line typed in interactive mode is translated in: none
/// where the trimmed line is empty, else the trimmed line in its mode.
pub open spec fn interactive(line: Seq<char>) -> Option<UnitView> {
    if trimmed(line).len() == 0 {
        None
    } else {
        Some(UnitView { mode: mode_of(trimmed(line)), text: trimmed(line) })
    }
}

/// The step that opens the exchange for a unit.
pub open spec fn opening(
    config: ConfigView,
    unit: UnitView,
    target: Seq<char>,
    source: Option<Seq<char>>,
) -> StepView {
    match unit.mode {
        Mode::Word => first_step(
            config,
            JobView { mode: Mode::Word, text: unit.text, target, source },
        ),
        Mode::Line => line_start(
            config,
            JobView { mode: Mode::Line, text: unit.text, target, source },
        ),
    }
}

/// `line_len` counts up to the first line feed.
proof fn lemma_line_len(s: Seq<char>, n: int)
    requires
        0 <= n <= s.len(),
        forall|k: int| 0 <= k < n ==> #[trigger] s[k] != '\n',
        n == s.len() || s[n] == '\n',
    ensures
        line_len(s) == n,
    decreases n,
{
    if n > 0 {
        let rest = s.drop_first();
        assert forall|k: int| 0 <= k < n - 1 implies #[trigger] rest[k] != '\n' by {
            assert(rest[k] == s[k + 1]);
        }
        lemma_line_len(rest, n - 1);
    }
}

/// A text without whitespace has nothing to trim.
pub proof fn law_word_needs_no_trim(s: Seq<char>)
    requires
        !holds_blank(s),
    ensures
        trimmed(s) == s,
{
    if s.len() > 0 {
        assert(!is_blank(s[0]));
        assert(!is_blank(s[s.len() - 1]));
    }
    lemma_trimmed_at(s, 0, s.len() as int);
    assert(s.subrange(0, s.len() as int) =~= s);
}

/// Joins the words with single spaces.
pub fn join_words(words: &Vec<String>) -> (text: String)
    ensures
        text@ == joined(texts_of(words@)),
{
    let mut text = String::new();
    let mut i: usize = 0;
    while i < words.len()
        invariant
            0 <= i <= words.len(),
            text@ == joined(texts_of(words@).take(i as int)),
        decreases words.len() - i,
    {
        if i > 0 {
            text.append(" ");
        }
        text.append(words[i].as_str());
        proof {
            reveal_strlit(" ");
            let all = texts_of(words@);
            let upto = all.take(i + 1);
            assert(upto.drop_last() =~= all.take(i as int));
            assert(upto.last() == words@[i as int]@);
            assert(" "@ =~= seq![' ']);
            if i == 0 {
                assert(text@ =~= words@[0]@);
            }
        }
        i += 1;
    }
    proof {
        assert(texts_of(words@).take(words.len() as int) =~= texts_of(words@));
    }
    text
}

/// Cuts a text into its lines and trims each.
pub fn split_lines(text: &str) -> (lines: Vec<String>)
    ensures
        texts_of(lines@) == stream_lines(text@),
{
    let chars = chars_of(text);
    let len = chars.len();
    let mut lines: Vec<String> = Vec::new();
    let mut from: usize = 0;
    proof {
        assert(text@.skip(0) =~= text@);
        assert(texts_of(lines@) + stream_lines(text@) =~= stream_lines(text@));
    }
    while from < len
        invariant
            len == chars.len(),
            chars@ == text@,
            0 <= from <= len,
            texts_of(lines@) + stream_lines(text@.skip(from as int)) == stream_lines(text@),
        decreases len - from,
    {
        let mut end: usize = from;
        while end < len && chars[end] != '\n'
            invariant
                len == chars.len(),
                from <= end <= len,
                forall|k: int| from <= k < end ==> #[trigger] chars@[k] != '\n',
            decreases len - end,
        {
            end += 1;
        }
        let line = String::from_str(trim(text.substring_char(from, end)));
        let ghost before = texts_of(lines@);
        let ghost rest = text@.skip(from as int);
        proof {
            assert forall|k: int| 0 <= k < end - from implies #[trigger] rest[k] != '\n' by {
                assert(rest[k] == chars@[k + from]);
            }
            lemma_line_len(rest, end - from);
            assert(rest.take(end - from) =~= text@.subrange(from as int, end as int));
            if end < len {
                assert(rest.skip(end - from + 1) =~= text@.skip(end + 1));
            } else {
                assert(rest =~= text@.subrange(from as int, end as int));
                assert(stream_lines(text@.skip(len as int)) =~= Seq::empty());
            }
        }
        lines.push(line);
        proof {
            assert(texts_of(lines@) =~= before + seq![line@]);
            let next: int = if end < len {
                end + 1
            } else {
                end as int
            };
            assert(stream_lines(rest) =~= seq![line@] + stream_lines(text@.skip(next)));
            assert(texts_of(lines@) + stream_lines(text@.skip(next)) =~= before + stream_lines(
                rest,
            ));
        }
        from = if end < len {
            end + 1
        } else {
            end
        };
    }
    proof {
        assert(stream_lines(text@.skip(len as int)) =~= Seq::empty());
        assert(texts_of(lines@) + Seq::<Seq<char>>::empty() =~= texts_of(lines@));
    }
    lines
}

/// The mode that `text` is translated in.
pub fn classify(text: &str) -> (mode: Mode)
    ensures
        mode == mode_of(text@),
{
    if has_blank(text) {
        Mode::Line
    } else {
        Mode::Word
    }
}

/// The input of a `translate` command. `piped` is what standard input held;
/// it is looked at only where the command line gave no words. `None` says
/// that there is nothing to translate.
pub fn gather_input(words: &Vec<String>, piped: &str) -> (input: Option<Unit>)
    ensures
        opt_unit(input) == gathered(texts_of(words@), piped@),
{
    if words.len() == 0 {
        let text = trim(piped);
        if text.is_empty() {
            None
        } else {
            Some(Unit { mode: classify(piped), text: String::from_str(text) })
        }
    } else {
        let text = join_words(words);
        if text.as_str().is_empty() {
            None
        } else {
            Some(Unit { mode: classify(text.as_str()), text })
        }
    }
}

/// Cuts an input into the units to translate, in the order in which they
/// are to be translated.
pub fn plan(input: Unit, stream: bool) -> (units: Vec<Unit>)
    ensures
        units_of(units@) == planned(input@, stream),
{
    let mut units: Vec<Unit> = Vec::new();
    let ghost model = input@;
    match input.mode {
        Mode::Word => {
            units.push(input);
        },
        Mode::Line => {
            if stream {
                let lines = split_lines(input.text.as_str());
                let ghost all = texts_of(lines@);
                let count = lines.len();
                let mut i: usize = 0;
                while i < count
                    invariant
                        count == lines.len(),
                        0 <= i <= count,
                        units.len() == i,
                        texts_of(lines@) == all,
                        forall|k: int|
                            0 <= k < i ==> #[trigger] units@[k]@ == (UnitView {
                                mode: Mode::Line,
                                text: all[k],
                            }),
                    decreases count - i,
                {
                    let text = lines[i].clone();
                    assert(text@ == all[i as int]);
                    units.push(Unit { mode: Mode::Line, text });
                    i += 1;
                }
            } else {
                units.push(
                    Unit { mode: Mode::Line, text: String::from_str(trim(input.text.as_str())) },
                );
            }
        },
    }
    assert(units_of(units@) =~= planned(model, stream));
    units
}

/// The unit for a line that was typed in interactive mode; `None` for a
/// line that holds nothing but whitespace, which is not translated.
pub fn interactive_unit(line: &str) -> (unit: Option<Unit>)
    ensures
        opt_unit(unit) == interactive(line@),
{
    let text = trim(line);
    if text.is_empty() {
        None
    } else {
        Some(Unit { mode: classify(text), text: String::from_str(text) })
    }
}

/// Starts the translation of a unit: a word in word mode, a line in line
/// mode.
pub fn begin(
    translator: &Translator,
    unit: &Unit,
    target_lang: &str,
    source_lang: Option<&str>,
) -> (step: Step)
    ensures
        step@ == opening(translator@, unit@, target_lang@, opt_str(source_lang)),
{
    match unit.mode {
        Mode::Word => translator.translate_word(unit.text.as_str(), target_lang, source_lang),
        Mode::Line => translator.translate_line(unit.text.as_str(), target_lang, source_lang),
    }
}

} // verus!
