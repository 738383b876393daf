use detect_lang::{allowlist, detect, detect_text, label};
use whatlang::Lang;

#[test]
fn test_detect_text() {
    let text = "สวัสดีโลก";
    let info = detect_text(text.to_string());
    println!("{:?}", info);
}

#[test]
fn english_sentence_is_english() {
    let r = detect_text("Hello world, this is a test sentence.".to_string());
    assert_eq!(r, "English");
}

#[test]
fn chinese_greeting_is_mandarin() {
    assert_eq!(detect_text("你好，世界".to_string()), "Mandarin");
}

#[test]
fn thai_greeting_is_thai() {
    assert_eq!(detect_text("สวัสดีโลก".to_string()), "Thai");
}

#[test]
fn thai_with_digits_and_punctuation_is_thai() {
    assert_eq!(detect_text("สวัสดี 123, โลก!".to_string()), "Thai");
}

#[test]
fn korean_greeting_is_korean() {
    assert_eq!(detect_text("안녕하세요 세계".to_string()), "Korean");
}

#[test]
fn japanese_kana_is_japanese() {
    assert_eq!(detect_text("こんにちは、せかい".to_string()), "Japanese");
}

#[test]
fn katakana_is_japanese() {
    assert_eq!(detect_text("コンピューター".to_string()), "Japanese");
}

#[test]
fn ideographs_alone_are_mandarin() {
    assert_eq!(detect_text("中文测试 2024".to_string()), "Mandarin");
}

#[test]
fn hindi_greeting_is_hindi() {
    assert_eq!(detect_text("नमस्ते दुनिया".to_string()), "Hindi");
}

#[test]
fn empty_text_is_none() {
    assert_eq!(detect_text(String::new()), "None");
}

#[test]
fn whitespace_only_is_none() {
    assert_eq!(detect_text("   \t\n  ".to_string()), "None");
    assert_eq!(detect_text(" ".to_string()), "None");
}

#[test]
fn digits_and_punctuation_are_none() {
    assert_eq!(detect_text("12345 !?., ()".to_string()), "None");
}

#[test]
fn russian_text_is_none() {
    let text = "Привет, мир! Это довольно длинное предложение на русском языке.";
    assert_eq!(detect_text(text.to_string()), "None");
}

#[test]
fn french_text_falls_to_the_only_latin_language() {
    // English is the one Latin-script language of the allow-list, so the
    // detector reports it for any Latin-script text.
    assert_eq!(detect_text("Bonjour le monde".to_string()), "English");
}

#[test]
fn georgian_text_is_reported_outside_the_allowlist() {
    // Georgian script belongs to one language, which the detector reports
    // without consulting the allow-list.
    assert_eq!(detect_text("გამარჯობა".to_string()), "Georgian");
}

#[test]
fn no_break_space_counts_as_latin() {
    assert_eq!(detect_text("\u{a0}".to_string()), "English");
}

#[test]
fn same_text_same_answer() {
    for text in ["Hello world", "你好，世界", "Bonjour le monde", "", "Привет мир"] {
        let a = detect_text(text.to_string());
        let b = detect_text(text.to_string());
        assert_eq!(a, b);
    }
}

#[test]
fn allowlist_members_and_order() {
    assert_eq!(
        allowlist(),
        vec![Lang::Eng, Lang::Cmn, Lang::Jpn, Lang::Kor, Lang::Hin, Lang::Tha]
    );
}

#[test]
fn detect_reports_languages() {
    assert_eq!(detect("สวัสดีโลก"), Some(Lang::Tha));
    assert_eq!(detect("你好，世界"), Some(Lang::Cmn));
    assert_eq!(detect(""), None);
    assert_eq!(detect("Привет, мир! Это русский текст."), None);
}

#[test]
fn label_names_each_allowlisted_language() {
    assert_eq!(label(Some(Lang::Eng)), "English");
    assert_eq!(label(Some(Lang::Cmn)), "Mandarin");
    assert_eq!(label(Some(Lang::Jpn)), "Japanese");
    assert_eq!(label(Some(Lang::Kor)), "Korean");
    assert_eq!(label(Some(Lang::Hin)), "Hindi");
    assert_eq!(label(Some(Lang::Tha)), "Thai");
    assert_eq!(label(Some(Lang::Rus)), "Russian");
    assert_eq!(label(None), "None");
}
