//! Character classes and the text clean-up that input and replies go through.
//!
//! Texts are modelled as sequences of characters (`Seq<char>`), the view of
//! `str` and `String`.

use vstd::prelude::*;

verus! {

/// The characters of an optional string.
pub open spec fn opt_string(text: Option<String>) -> Option<Seq<char>> {
    match text {
        Some(t) => Some(t@),
        None => None,
    }
}

/// The characters of an optional borrowed text.
pub open spec fn opt_str(text: Option<&str>) -> Option<Seq<char>> {
    match text {
        Some(t) => Some(t@),
        None => None,
    }
}

/// The six ASCII whitespace characters: space, tab, line feed, vertical tab,
/// form feed and carriage return.
pub open spec fn is_blank(c: char) -> bool {
    c == ' ' || c == '\t' || c == '\n' || c == '\u{b}' || c == '\u{c}' || c == '\r'
}

/// `s` without its leading ASCII whitespace.
pub open spec fn trim_start(s: Seq<char>) -> Seq<char>
    decreases s.len(),
{
    if s.len() > 0 && is_blank(s.first()) {
        trim_start(s.drop_first())
    } else {
        s
    }
}

/// `s` without its trailing ASCII whitespace.
pub open spec fn trim_end(s: Seq<char>) -> Seq<char>
    decreases s.len(),
{
    if s.len() > 0 && is_blank(s.last()) {
        trim_end(s.drop_last())
    } else {
        s
    }
}

/// `s` without leading and trailing ASCII whitespace.
pub open spec fn trimmed(s: Seq<char>) -> Seq<char> {
    trim_end(trim_start(s))
}

/// Whether `s` begins or ends with ASCII whitespace.
pub open spec fn is_padded(s: Seq<char>) -> bool {
    s.len() > 0 && (is_blank(s.first()) || is_blank(s.last()))
}

/// The two quote characters that a reply may be wrapped in.
pub open spec fn is_quote(c: char) -> bool {
    c == '"' || c == '\''
}

/// Whether `s` starts and ends with the same quote character, the two ends
/// being different positions.
pub open spec fn is_wrapped(s: Seq<char>) -> bool {
    s.len() >= 2 && is_quote(s.first()) && s.first() == s.last()
}

/// `s` without one pair of matching outer quotes, if it has one.
pub open spec fn unwrapped(s: Seq<char>) -> Seq<char> {
    if is_wrapped(s) {
        s.subrange(1, s.len() - 1)
    } else {
        s
    }
}

/// The clean-up of a reply: trim, then drop one pair of matching outer quotes.
pub open spec fn cleaned(s: Seq<char>) -> Seq<char> {
    unwrapped(trimmed(s))
}

/// A text that the clean-up leaves as it is: neither padded nor wrapped.
pub open spec fn is_settled(s: Seq<char>) -> bool {
    !is_padded(s) && !is_wrapped(s)
}

/// `trim_start` cuts at the first character that is not blank.
pub proof fn lemma_trim_start_at(s: Seq<char>, start: int)
    requires
        0 <= start <= s.len(),
        forall|k: int| 0 <= k < start ==> is_blank(#[trigger] s[k]),
        start == s.len() || !is_blank(s[start]),
    ensures
        trim_start(s) == s.subrange(start, s.len() as int),
    decreases start,
{
    if start == 0 {
        assert(s.subrange(0, s.len() as int) =~= s);
    } else {
        let rest = s.drop_first();
        assert(is_blank(s[0]));
        assert forall|k: int| 0 <= k < start - 1 implies is_blank(#[trigger] rest[k]) by {
            assert(rest[k] == s[k + 1]);
        }
        lemma_trim_start_at(rest, start - 1);
        assert(rest.subrange(start - 1, rest.len() as int) =~= s.subrange(start, s.len() as int));
    }
}

/// `trim_end` cuts behind the last character that is not blank.
pub proof fn lemma_trim_end_at(s: Seq<char>, end: int)
    requires
        0 <= end <= s.len(),
        forall|k: int| end <= k < s.len() ==> is_blank(#[trigger] s[k]),
        end == 0 || !is_blank(s[end - 1]),
    ensures
        trim_end(s) == s.subrange(0, end),
    decreases s.len() - end,
{
    if end == s.len() {
        assert(s.subrange(0, end) =~= s);
    } else {
        let rest = s.drop_last();
        assert(is_blank(s[s.len() - 1]));
        assert forall|k: int| end <= k < rest.len() implies is_blank(#[trigger] rest[k]) by {
            assert(rest[k] == s[k]);
        }
        lemma_trim_end_at(rest, end);
        assert(rest.subrange(0, end) =~= s.subrange(0, end));
    }
}

/// Where the trimmed text lies in `s`: between the first and behind the last
/// character that is not blank.
pub proof fn lemma_trimmed_at(s: Seq<char>, start: int, end: int)
    requires
        0 <= start <= end <= s.len(),
        forall|k: int| 0 <= k < start ==> is_blank(#[trigger] s[k]),
        forall|k: int| end <= k < s.len() ==> is_blank(#[trigger] s[k]),
        start == s.len() || !is_blank(s[start]),
        end == start || !is_blank(s[end - 1]),
    ensures
        trimmed(s) == s.subrange(start, end),
{
    lemma_trim_start_at(s, start);
    let tail = s.subrange(start, s.len() as int);
    assert forall|k: int| end - start <= k < tail.len() implies is_blank(#[trigger] tail[k]) by {
        assert(tail[k] == s[k + start]);
    }
    lemma_trim_end_at(tail, end - start);
    assert(tail.subrange(0, end - start) =~= s.subrange(start, end));
}

/// The characters of `text`, in order.
pub fn chars_of(text: &str) -> (chars: Vec<char>)
    ensures
        chars@ == text@,
{
    let mut chars: Vec<char> = Vec::new();
    for c in it: text.chars()
        invariant
            it.seq() == text@,
            chars@ == it.seq().take(it.index()),
    {
        chars.push(c);
    }
    chars
}

/// Tells whether `c` is ASCII whitespace.
pub fn blank(c: char) -> (b: bool)
    ensures
        b == is_blank(c),
{
    c == ' ' || c == '\t' || c == '\n' || c == '\u{b}' || c == '\u{c}' || c == '\r'
}

/// Removes leading and trailing ASCII whitespace.
pub fn trim<'a>(text: &'a str) -> (kept: &'a str)
    ensures
        kept@ == trimmed(text@),
{
    let chars = chars_of(text);
    let len = chars.len();
    let mut start: usize = 0;
    while start < len && blank(chars[start])
        invariant
            len == chars.len(),
            0 <= start <= len,
            forall|k: int| 0 <= k < start ==> is_blank(#[trigger] chars@[k]),
        decreases len - start,
    {
        start += 1;
    }
    let mut end: usize = len;
    while end > start && blank(chars[end - 1])
        invariant
            len == chars.len(),
            start <= end <= len,
            forall|k: int| end <= k < len ==> is_blank(#[trigger] chars@[k]),
        decreases end,
    {
        end -= 1;
    }
    proof {
        lemma_trimmed_at(text@, start as int, end as int);
    }
    text.substring_char(start, end)
}

/// Removes one pair of matching outer quotes (`"` or `'`), if the text is
/// wrapped in one. The quotes are compared as characters, and a text of a
/// single quote character is left alone.
pub fn strip_quotes<'a>(text: &'a str) -> (kept: &'a str)
    ensures
        kept@ == unwrapped(text@),
{
    let chars = chars_of(text);
    let len = chars.len();
    if len >= 2 {
        let first = chars[0];
        let last = chars[len - 1];
        if (first == '"' || first == '\'') && first == last {
            return text.substring_char(1, len - 1);
        }
    }
    text
}

/// Cleans a reply: trims ASCII whitespace, then removes one pair of matching
/// outer quotes. The result is not trimmed or unwrapped a second time.
pub fn clean(text: &str) -> (kept: String)
    ensures
        kept@ == cleaned(text@),
{
    String::from_str(strip_quotes(trim(text)))
}

/// What `trim_start` leaves does not begin with a blank.
pub proof fn lemma_trim_start_keeps_head(s: Seq<char>)
    ensures
        trim_start(s).len() > 0 ==> !is_blank(trim_start(s).first()),
        trim_start(trim_start(s)) == trim_start(s),
    decreases s.len(),
{
    if s.len() > 0 && is_blank(s.first()) {
        lemma_trim_start_keeps_head(s.drop_first());
    }
}

/// What `trim_end` leaves does not end with a blank.
pub proof fn lemma_trim_end_keeps_tail(s: Seq<char>)
    ensures
        trim_end(s).len() > 0 ==> !is_blank(trim_end(s).last()),
        trim_end(trim_end(s)) == trim_end(s),
    decreases s.len(),
{
    if s.len() > 0 && is_blank(s.last()) {
        lemma_trim_end_keeps_tail(s.drop_last());
    }
}

/// `trim_end` keeps a prefix of its argument.
pub proof fn lemma_trim_end_is_prefix(s: Seq<char>)
    ensures
        trim_end(s).len() <= s.len(),
        trim_end(s) == s.subrange(0, trim_end(s).len() as int),
    decreases s.len(),
{
    if s.len() > 0 && is_blank(s.last()) {
        let rest = s.drop_last();
        lemma_trim_end_is_prefix(rest);
        assert(rest.subrange(0, trim_end(rest).len() as int) =~= s.subrange(
            0,
            trim_end(rest).len() as int,
        ));
    } else {
        assert(s.subrange(0, s.len() as int) =~= s);
    }
}

/// `trim_start` keeps a suffix of its argument.
pub proof fn lemma_trim_start_is_suffix(s: Seq<char>)
    ensures
        trim_start(s).len() <= s.len(),
        trim_start(s) == s.subrange(s.len() - trim_start(s).len(), s.len() as int),
    decreases s.len(),
{
    if s.len() > 0 && is_blank(s.first()) {
        let rest = s.drop_first();
        lemma_trim_start_is_suffix(rest);
        assert(rest.subrange(rest.len() - trim_start(rest).len(), rest.len() as int) =~= s.subrange(
            s.len() - trim_start(rest).len(),
            s.len() as int,
        ));
    } else {
        assert(s.subrange(0, s.len() as int) =~= s);
    }
}

/// Trimming leaves nothing to trim.
pub proof fn law_trimmed_is_not_padded(s: Seq<char>)
    ensures
        !is_padded(trimmed(s)),
        trimmed(trimmed(s)) == trimmed(s),
{
    lemma_trim_start_keeps_head(s);
    lemma_trim_end_keeps_tail(trim_start(s));
    lemma_trim_end_is_prefix(trim_start(s));
    let t = trimmed(s);
    if t.len() > 0 {
        assert(t.first() == trim_start(s).first());
    }
}

/// Quotes are removed only as a matching pair at the two ends, and then
/// exactly one character leaves each end; a text that is not wrapped in such a
/// pair, mismatched quotes included, is returned as it is.
pub proof fn law_only_matching_quotes_are_stripped(s: Seq<char>)
    ensures
        !is_wrapped(s) ==> unwrapped(s) == s,
        is_wrapped(s) ==> unwrapped(s).len() == s.len() - 2 && s == seq![s.first()] + unwrapped(s)
            + seq![s.first()],
        s.len() >= 2 && s.first() != s.last() ==> unwrapped(s) == s,
{
    if is_wrapped(s) {
        assert(s =~= seq![s.first()] + unwrapped(s) + seq![s.first()]);
    }
}

/// The clean-up never lengthens a text: it returns a settled text as it is
/// and cuts every other one.
pub proof fn lemma_cleaned_length(s: Seq<char>)
    ensures
        is_settled(s) ==> cleaned(s) == s,
        !is_settled(s) ==> cleaned(s).len() < s.len(),
{
    lemma_trim_start_is_suffix(s);
    lemma_trim_end_is_prefix(trim_start(s));
    if is_padded(s) {
        if is_blank(s.first()) {
            lemma_trim_start_is_suffix(s.drop_first());
        } else {
            assert(trim_start(s) == s);
            lemma_trim_end_is_prefix(s.drop_last());
        }
        assert(trimmed(s).len() < s.len());
    } else {
        assert(trimmed(s) == s);
    }
}

/// The clean-up leaves a text unchanged exactly when the text is settled.
pub proof fn law_clean_fixed_points(s: Seq<char>)
    ensures
        cleaned(s) == s <==> is_settled(s),
{
    lemma_cleaned_length(s);
}

/// Cleaning twice gives what cleaning once gives, for every text whose
/// cleaned form is settled.
pub proof fn law_clean_is_idempotent(s: Seq<char>)
    requires
        is_settled(cleaned(s)),
    ensures
        cleaned(cleaned(s)) == cleaned(s),
{
    law_clean_fixed_points(cleaned(s));
}

/// Where the cleaned form is still padded or wrapped, as with a reply in two
/// pairs of quotes, a second clean-up cuts again: the clean-up is applied
/// once and does not recurse.
pub proof fn law_clean_cuts_what_is_not_settled(s: Seq<char>)
    requires
        !is_settled(cleaned(s)),
    ensures
        cleaned(cleaned(s)) != cleaned(s),
        cleaned(cleaned(s)).len() < cleaned(s).len(),
{
    lemma_cleaned_length(cleaned(s));
}

/// A text without quote characters at its ends is cleaned by trimming alone,
/// and cleaning it twice changes nothing more.
pub proof fn law_clean_of_unquoted(s: Seq<char>)
    requires
        trimmed(s).len() == 0 || !is_quote(trimmed(s).first()),
    ensures
        cleaned(s) == trimmed(s),
        cleaned(cleaned(s)) == cleaned(s),
{
    law_trimmed_is_not_padded(s);
    law_clean_fixed_points(trimmed(s));
}

} // verus!
