//! What this library relies on from `whatlang`, and the model of its answers.
use vstd::prelude::*;
use whatlang::{Detector, Lang};

verus! {

/// The languages `whatlang` knows; their variants are visible to proofs.
#[verifier::external_type_specification]
pub struct ExLang(whatlang::Lang);

/// The English name that `whatlang` gives a language.
pub uninterp spec fn eng_name_of(lang: Lang) -> Seq<char>;

/// The English name of a language, spelled out for the six of the allow-list.
pub open spec fn english_name(lang: Lang) -> Seq<char> {
    match lang {
        Lang::Eng => "English"@,
        Lang::Cmn => "Mandarin"@,
        Lang::Jpn => "Japanese"@,
        Lang::Kor => "Korean"@,
        Lang::Hin => "Hindi"@,
        Lang::Tha => "Thai"@,
        _ => eng_name_of(lang),
    }
}

/// Relies on `whatlang::Lang::eng_name`, a fixed table from language to its
/// English name.
pub assume_specification[ whatlang::Lang::eng_name ](lang: Lang) -> (r: &'static str)
    ensures
        r@ == eng_name_of(lang),
        r@ == english_name(lang),
;

/// The longest text, in characters, handed to the detector. Its trigram
/// counter is a `u32`, and lowercasing at most doubles the characters.
pub const MAX_TEXT_CHARS: usize = 0x7fff_ffff;

/// A character that `whatlang` skips when it counts scripts: ASCII space,
/// control, digit and punctuation characters.
pub open spec fn is_stop_char(c: char) -> bool {
    let u = c as u32;
    u <= 0x40 || (0x5b <= u && u <= 0x60) || (0x7b <= u && u <= 0x7e)
}

/// A character in the block `lo..=hi` of code points.
pub open spec fn in_block(c: char, lo: u32, hi: u32) -> bool {
    lo <= c as u32 && c as u32 <= hi
}

/// The Thai block.
pub const THAI_LO: u32 = 0x0e00;
pub const THAI_HI: u32 = 0x0e7f;
/// The precomposed Hangul syllables.
pub const HANGUL_LO: u32 = 0xac00;
pub const HANGUL_HI: u32 = 0xd7af;
/// Hiragana followed by Katakana.
pub const KANA_LO: u32 = 0x3040;
pub const KANA_HI: u32 = 0x30ff;
/// The CJK unified ideographs that `whatlang` counts as Mandarin script.
pub const HAN_LO: u32 = 0x4e00;
pub const HAN_HI: u32 = 0x9fcc;

/// Text in which every character is a stop character (the empty text too).
pub open spec fn is_blank(text: Seq<char>) -> bool {
    forall|i: int| 0 <= i < text.len() ==> is_stop_char(#[trigger] text[i])
}

/// Text of characters of the block `lo..=hi` and stop characters, with at
/// least one of the block.
pub open spec fn is_block_text(text: Seq<char>, lo: u32, hi: u32) -> bool {
    &&& forall|i: int| 0 <= i < text.len() ==> is_stop_char(#[trigger] text[i]) || in_block(text[i], lo, hi)
    &&& exists|i: int| 0 <= i < text.len() && in_block(#[trigger] text[i], lo, hi)
}

/// What `whatlang`, restricted to `allowlist`, detects in `text`.
pub uninterp spec fn whatlang_detection(allowlist: Seq<Lang>, text: Seq<char>) -> Option<Lang>;

/// What the detector reports. Blank text has no script and gives nothing.
/// Thai, Hangul and kana are each the script of one language, reported
/// whatever the allow-list holds. Ideographs without kana are Mandarin where
/// the allow-list has it, and Japanese where it does not.
pub open spec fn detection(allowlist: Seq<Lang>, text: Seq<char>) -> Option<Lang> {
    if is_blank(text) {
        None
    } else if is_block_text(text, THAI_LO, THAI_HI) {
        Some(Lang::Tha)
    } else if is_block_text(text, HANGUL_LO, HANGUL_HI) {
        Some(Lang::Kor)
    } else if is_block_text(text, KANA_LO, KANA_HI) {
        Some(Lang::Jpn)
    } else if is_block_text(text, HAN_LO, HAN_HI) {
        if allowlist.contains(Lang::Cmn) {
            Some(Lang::Cmn)
        } else {
            Some(Lang::Jpn)
        }
    } else {
        whatlang_detection(allowlist, text)
    }
}

/// Relies on `whatlang::Detector::with_allowlist`, which only stores the list,
/// and `Detector::detect_lang` on the detector it builds. The answer depends
/// on the list and the text alone: the detector's hash maps are sorted before
/// use. The cases of `detection` follow `detect_by_query`: no main script
/// when every script count is zero, `Script::to_lang_group` for Thai, Hangul
/// and kana, and `detect_lang_base_on_mandarin_script` for ideographs. Longer
/// text could overflow its `u32` trigram counter.
#[verifier::external_body]
pub(crate) fn detect_lang_among(allowlist: Vec<Lang>, text: &str) -> (r: Option<Lang>)
    requires
        text@.len() <= MAX_TEXT_CHARS,
    ensures
        r == whatlang_detection(allowlist@, text@),
        r == detection(allowlist@, text@),
{
    Detector::with_allowlist(allowlist).detect_lang(text)
}

} // verus!
