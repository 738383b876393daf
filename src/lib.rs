//! Language detection restricted to a fixed allow-list of six languages,
//! built on the `whatlang` detector.
use vstd::prelude::*;
use whatlang::Lang;

pub mod detector;

use crate::detector::{
    detect_lang_among, detection, english_name, in_block, is_blank, is_block_text, is_stop_char,
    HAN_HI, HAN_LO, HANGUL_HI, HANGUL_LO, KANA_HI, KANA_LO, MAX_TEXT_CHARS, THAI_HI, THAI_LO,
};

verus! {

/// The languages the detector is restricted to, in the order handed to it.
pub open spec fn allowlist_spec() -> Seq<Lang> {
    seq![Lang::Eng, Lang::Cmn, Lang::Jpn, Lang::Kor, Lang::Hin, Lang::Tha]
}

/// What `detect` finds in `text`: nothing for text too long to hand over.
pub open spec fn detect_spec(text: Seq<char>) -> Option<Lang> {
    if text.len() > MAX_TEXT_CHARS {
        None
    } else {
        detection(allowlist_spec(), text)
    }
}

/// The text form of a detection: the language's English name, or `"None"`.
pub open spec fn label_spec(found: Option<Lang>) -> Seq<char> {
    match found {
        Some(lang) => english_name(lang),
        None => "None"@,
    }
}

/// What `detect_text` returns for `text`.
pub open spec fn detect_text_spec(text: Seq<char>) -> Seq<char> {
    label_spec(detect_spec(text))
}

/// English, Mandarin, Japanese, Korean, Hindi and Thai, in that order.
pub fn allowlist() -> (r: Vec<Lang>)
    ensures
        r@ == allowlist_spec(),
{
    let r = vec![Lang::Eng, Lang::Cmn, Lang::Jpn, Lang::Kor, Lang::Hin, Lang::Tha];
    assert(r@ =~= allowlist_spec());
    r
}

/// Detects the language of `text` with the detector restricted to the
/// allow-list. A script that belongs to a single language (Georgian, Greek)
/// still yields that language. Text of more than `MAX_TEXT_CHARS` characters
/// counts as undetected.
pub fn detect(text: &str) -> (r: Option<Lang>)
    ensures
        r == detect_spec(text@),
{
    if text.unicode_len() > MAX_TEXT_CHARS {
        None
    } else {
        detect_lang_among(allowlist(), text)
    }
}

/// Turns a detection into text: the English name of the language found, or
/// `"None"` when nothing was.
pub fn label(found: Option<Lang>) -> (r: String)
    ensures
        r@ == label_spec(found),
{
    match found {
        Some(lang) => lang.eng_name().to_string(),
        None => "None".to_string(),
    }
}

/// Detects the language of `text` and returns its English name, or `"None"`.
/// Never fails: no detection is an ordinary outcome.
pub fn detect_text(text: String) -> (r: String)
    ensures
        r@ == detect_text_spec(text@),
{
    label(detect(text.as_str()))
}

/// Text written in one block of code points above ASCII, save spaces, digits
/// and ASCII punctuation, is not blank.
proof fn lemma_block_text_not_blank(text: Seq<char>, lo: u32, hi: u32)
    requires
        is_block_text(text, lo, hi),
        0x7f <= lo,
    ensures
        !is_blank(text),
{
    let i = choose|i: int| 0 <= i < text.len() && in_block(#[trigger] text[i], lo, hi);
    assert(!is_stop_char(text[i]));
}

/// Two blocks above ASCII that do not overlap: text written in the first is
/// not written in the second.
proof fn lemma_block_text_excludes(text: Seq<char>, lo: u32, hi: u32, lo2: u32, hi2: u32)
    requires
        is_block_text(text, lo, hi),
        0x7f <= lo,
        hi2 < lo || hi < lo2,
    ensures
        !is_block_text(text, lo2, hi2),
{
    let i = choose|i: int| 0 <= i < text.len() && in_block(#[trigger] text[i], lo, hi);
    assert(!is_stop_char(text[i]));
}

/// Thai text, of Thai characters save spaces, digits and ASCII punctuation,
/// is reported as Thai.
pub proof fn lemma_thai_text_is_thai(text: Seq<char>)
    requires
        is_block_text(text, THAI_LO, THAI_HI),
        text.len() <= MAX_TEXT_CHARS,
    ensures
        detect_text_spec(text) == "Thai"@,
{
    lemma_block_text_not_blank(text, THAI_LO, THAI_HI);
}

/// Korean text, of Hangul syllables save spaces, digits and ASCII
/// punctuation, is reported as Korean.
pub proof fn lemma_hangul_text_is_korean(text: Seq<char>)
    requires
        is_block_text(text, HANGUL_LO, HANGUL_HI),
        text.len() <= MAX_TEXT_CHARS,
    ensures
        detect_text_spec(text) == "Korean"@,
{
    lemma_block_text_not_blank(text, HANGUL_LO, HANGUL_HI);
    lemma_block_text_excludes(text, HANGUL_LO, HANGUL_HI, THAI_LO, THAI_HI);
}

/// Japanese text, of Hiragana and Katakana save spaces, digits and ASCII
/// punctuation, is reported as Japanese.
pub proof fn lemma_kana_text_is_japanese(text: Seq<char>)
    requires
        is_block_text(text, KANA_LO, KANA_HI),
        text.len() <= MAX_TEXT_CHARS,
    ensures
        detect_text_spec(text) == "Japanese"@,
{
    lemma_block_text_not_blank(text, KANA_LO, KANA_HI);
    lemma_block_text_excludes(text, KANA_LO, KANA_HI, THAI_LO, THAI_HI);
    lemma_block_text_excludes(text, KANA_LO, KANA_HI, HANGUL_LO, HANGUL_HI);
}

/// Chinese text, of ideographs save spaces, digits and ASCII punctuation,
/// is reported as Mandarin.
pub proof fn lemma_han_text_is_mandarin(text: Seq<char>)
    requires
        is_block_text(text, HAN_LO, HAN_HI),
        text.len() <= MAX_TEXT_CHARS,
    ensures
        detect_text_spec(text) == "Mandarin"@,
{
    lemma_block_text_not_blank(text, HAN_LO, HAN_HI);
    lemma_block_text_excludes(text, HAN_LO, HAN_HI, THAI_LO, THAI_HI);
    lemma_block_text_excludes(text, HAN_LO, HAN_HI, HANGUL_LO, HANGUL_HI);
    lemma_block_text_excludes(text, HAN_LO, HAN_HI, KANA_LO, KANA_HI);
    assert(allowlist_spec()[1] == Lang::Cmn);
}

/// Text with nothing but spaces, digits and ASCII punctuation, the empty
/// text among them, is always reported as `"None"`.
pub proof fn lemma_blank_text_is_none(text: Seq<char>)
    requires
        is_blank(text),
    ensures
        detect_text_spec(text) == "None"@,
{
}

/// The same text always gets the same answer.
pub proof fn lemma_detect_text_deterministic(a: Seq<char>, b: Seq<char>)
    requires
        a == b,
    ensures
        detect_text_spec(a) == detect_text_spec(b),
{
}

/// The answer is either `"None"` or the English name of some language.
pub proof fn lemma_answer_is_name_or_none(text: Seq<char>)
    ensures
        detect_text_spec(text) == "None"@ || exists|lang: Lang|
            detect_text_spec(text) == #[trigger] english_name(lang),
{
    if let Some(lang) = detect_spec(text) {
        assert(detect_text_spec(text) == english_name(lang));
    }
}

/// The name of an allow-listed language never reads `"None"`, so the
/// sentinel cannot be mistaken for one of them.
pub proof fn lemma_allowlisted_names_differ_from_none(lang: Lang)
    requires
        allowlist_spec().contains(lang),
    ensures
        label_spec(Some(lang)) != label_spec(None),
{
    reveal_strlit("None");
    reveal_strlit("English");
    reveal_strlit("Mandarin");
    reveal_strlit("Japanese");
    reveal_strlit("Korean");
    reveal_strlit("Hindi");
    reveal_strlit("Thai");
    let i = choose|i: int| 0 <= i < allowlist_spec().len() && allowlist_spec()[i] == lang;
    // Of the six names only "Thai" is as long as "None", and it differs in
    // its second letter.
    assert(label_spec(Some(lang)).len() != 4 || label_spec(Some(lang))[1] != 'o');
}

} // verus!
