//! Language codes and the display names that prompts use for them.

use vstd::prelude::*;
use vstd::string::StringSliceAdditionalSpecFns;
use vstd::utf8::encode_utf8_decode_utf8;

verus! {

/// Whether `code` is one of the language codes that have a display name.
pub open spec fn is_known_code(code: Seq<char>) -> bool {
    language_name(code) != code
}

/// The display name of a language code. A code outside the recognised set is
/// its own display name.
pub open spec fn language_name(code: Seq<char>) -> Seq<char> {
    if code == "zh"@ || code == "zh-cn"@ {
        "Chinese"@
    } else if code == "zh-tw"@ {
        "Traditional Chinese"@
    } else if code == "en"@ {
        "English"@
    } else if code == "ja"@ {
        "Japanese"@
    } else if code == "ko"@ {
        "Korean"@
    } else if code == "fr"@ {
        "French"@
    } else if code == "de"@ {
        "German"@
    } else if code == "es"@ {
        "Spanish"@
    } else if code == "it"@ {
        "Italian"@
    } else if code == "pt"@ {
        "Portuguese"@
    } else if code == "ru"@ {
        "Russian"@
    } else if code == "ar"@ {
        "Arabic"@
    } else if code == "hi"@ {
        "Hindi"@
    } else if code == "th"@ {
        "Thai"@
    } else if code == "vi"@ {
        "Vietnamese"@
    } else {
        code
    }
}

/// Tells whether two texts hold the same characters.
pub fn same_text(a: &str, b: &str) -> (same: bool)
    ensures
        same == (a@ == b@),
{
    let x = a.as_bytes();
    let y = b.as_bytes();
    proof {
        encode_utf8_decode_utf8(a@);
        encode_utf8_decode_utf8(b@);
    }
    if x.len() != y.len() {
        return false;
    }
    let mut i: usize = 0;
    while i < x.len()
        invariant
            x.len() == y.len(),
            0 <= i <= x.len(),
            x@ == a.spec_bytes(),
            y@ == b.spec_bytes(),
            a@ == b@ ==> x@ == y@,
            forall|k: int| 0 <= k < i ==> x@[k] == y@[k],
        decreases x.len() - i,
    {
        if x[i] != y[i] {
            return false;
        }
        i += 1;
    }
    assert(x@ =~= y@);
    true
}

/// The display name of the language code `code`; the code itself where it is
/// not a recognised one. Codes are compared exactly, letter case included.
pub fn lang_code_to_name(code: &str) -> (name: String)
    ensures
        name@ == language_name(code@),
{
    if same_text(code, "zh") || same_text(code, "zh-cn") {
        String::from_str("Chinese")
    } else if same_text(code, "zh-tw") {
        String::from_str("Traditional Chinese")
    } else if same_text(code, "en") {
        String::from_str("English")
    } else if same_text(code, "ja") {
        String::from_str("Japanese")
    } else if same_text(code, "ko") {
        String::from_str("Korean")
    } else if same_text(code, "fr") {
        String::from_str("French")
    } else if same_text(code, "de") {
        String::from_str("German")
    } else if same_text(code, "es") {
        String::from_str("Spanish")
    } else if same_text(code, "it") {
        String::from_str("Italian")
    } else if same_text(code, "pt") {
        String::from_str("Portuguese")
    } else if same_text(code, "ru") {
        String::from_str("Russian")
    } else if same_text(code, "ar") {
        String::from_str("Arabic")
    } else if same_text(code, "hi") {
        String::from_str("Hindi")
    } else if same_text(code, "th") {
        String::from_str("Thai")
    } else if same_text(code, "vi") {
        String::from_str("Vietnamese")
    } else {
        String::from_str(code)
    }
}

/// A code that is none of the recognised ones is used as it stands.
pub proof fn law_unknown_code_passes_through(code: Seq<char>)
    requires
        code != "zh"@,
        code != "zh-cn"@,
        code != "zh-tw"@,
        code != "en"@,
        code != "ja"@,
        code != "ko"@,
        code != "fr"@,
        code != "de"@,
        code != "es"@,
        code != "it"@,
        code != "pt"@,
        code != "ru"@,
        code != "ar"@,
        code != "hi"@,
        code != "th"@,
        code != "vi"@,
    ensures
        language_name(code) == code,
        !is_known_code(code),
{
}

} // verus!
