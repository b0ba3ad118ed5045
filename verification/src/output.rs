//! What is shown for a result: which lines, and how each is set off. The
//! colours themselves are the caller's.

use vstd::prelude::*;

verus! {

/// How a line of output is set off.
#[derive(Clone, Copy, Debug, PartialEq, Eq, Structural)]
pub enum Style {
    /// As it is.
    Plain,
    /// A heading: bold green.
    Label,
    /// A translation: bright white.
    Bright,
}

/// One line of output, without its line ending.
#[derive(Debug, PartialEq, Eq)]
pub struct OutputLine {
    pub style: Style,
    pub text: String,
}

/// The mathematical model of an [`OutputLine`].
pub struct OutputLineView {
    pub style: Style,
    pub text: Seq<char>,
}

impl View for OutputLine {
    type V = OutputLineView;

    open spec fn view(&self) -> OutputLineView {
        OutputLineView { style: self.style, text: self.text@ }
    }
}

/// The models of a list of lines.
pub open spec fn lines_of(lines: Seq<OutputLine>) -> Seq<OutputLineView> {
    Seq::new(lines.len(), |i: int| lines[i]@)
}

/// The heading above a translation into `target`.
pub open spec fn translation_label(target: Seq<char>) -> Seq<char> {
    "Translation ("@ + target + "):"@
}

/// The lines that a `translate` command shows for one result. An empty
/// translation is one empty line, in either form. Plain output is the
/// translation alone. Formatted output is an empty line, a heading and the
/// original, then a heading that names the target language and the
/// translation.
pub open spec fn rendered(
    original: Seq<char>,
    translation: Seq<char>,
    target: Seq<char>,
    plain: bool,
) -> Seq<OutputLineView> {
    if translation.len() == 0 {
        seq![OutputLineView { style: Style::Plain, text: Seq::empty() }]
    } else if plain {
        seq![OutputLineView { style: Style::Plain, text: translation }]
    } else {
        seq![
            OutputLineView { style: Style::Plain, text: Seq::empty() },
            OutputLineView { style: Style::Label, text: "Original:"@ },
            OutputLineView { style: Style::Plain, text: original },
            OutputLineView { style: Style::Label, text: translation_label(target) },
            OutputLineView { style: Style::Bright, text: translation },
        ]
    }
}

/// The lines that interactive mode shows for one result: the translation,
/// or nothing where it is empty.
pub open spec fn rendered_interactive(translation: Seq<char>) -> Seq<OutputLineView> {
    if translation.len() == 0 {
        Seq::empty()
    } else {
        seq![OutputLineView { style: Style::Bright, text: translation }]
    }
}

impl OutputLine {
    /// A line of the given style and text.
    pub fn new(style: Style, text: &str) -> (line: OutputLine)
        ensures
            line@ == (OutputLineView { style, text: text@ }),
    {
        OutputLine { style, text: String::from_str(text) }
    }
}

/// The lines to show for one result of a `translate` command.
pub fn render_result(original: &str, translation: &str, target_lang: &str, plain: bool) -> (lines:
    Vec<OutputLine>)
    ensures
        lines_of(lines@) == rendered(original@, translation@, target_lang@, plain),
{
    let mut lines: Vec<OutputLine> = Vec::new();
    if translation.is_empty() {
        lines.push(OutputLine { style: Style::Plain, text: String::new() });
    } else if plain {
        lines.push(OutputLine::new(Style::Plain, translation));
    } else {
        let mut label = String::from_str("Translation (");
        label.append(target_lang);
        label.append("):");
        lines.push(OutputLine { style: Style::Plain, text: String::new() });
        lines.push(OutputLine::new(Style::Label, "Original:"));
        lines.push(OutputLine::new(Style::Plain, original));
        lines.push(OutputLine { style: Style::Label, text: label });
        lines.push(OutputLine::new(Style::Bright, translation));
    }
    assert(lines_of(lines@) =~= rendered(original@, translation@, target_lang@, plain));
    lines
}

/// The lines to show for one result in interactive mode.
pub fn render_interactive(translation: &str) -> (lines: Vec<OutputLine>)
    ensures
        lines_of(lines@) == rendered_interactive(translation@),
{
    let mut lines: Vec<OutputLine> = Vec::new();
    if !translation.is_empty() {
        lines.push(OutputLine::new(Style::Bright, translation));
    }
    assert(lines_of(lines@) =~= rendered_interactive(translation@));
    lines
}

} // verus!
