use isolang::Language;
use langtag::{canonicalize, resolve_code};

fn all_languages() -> Vec<Language> {
    let mut all = Vec::new();
    let mut i = 0;
    while let Some(lang) = Language::from_usize(i) {
        all.push(lang);
        i += 1;
    }
    all
}

#[test]
fn table_is_not_empty() {
    let all = all_languages();
    assert!(all.len() > 7000);
    assert!(all.contains(&Language::Eng));
    assert!(all.contains(&Language::Fra));
}

#[test]
fn every_code_is_three_lower_case_letters() {
    for lang in all_languages() {
        let code = lang.to_639_3().as_bytes();
        assert_eq!(code.len(), 3);
        assert!(code.iter().all(|b| b.is_ascii_lowercase()));
    }
}

#[test]
fn every_language_is_listed_under_its_own_code() {
    for lang in all_languages() {
        let code = lang.to_639_3();
        assert_eq!(Language::from_639_3(code), Some(lang));
        assert_eq!(Language::from_639_1(code), None);
    }
}

#[test]
fn lookups_look_at_the_length_in_bytes() {
    assert_eq!(Language::from_639_1("eng"), None);
    assert_eq!(Language::from_639_1("e"), None);
    assert_eq!(Language::from_639_3("en"), None);
    assert_eq!(Language::from_639_3("engl"), None);
    // One character, two bytes; one character, three bytes.
    assert_eq!(Language::from_639_1("\u{e9}"), None);
    assert_eq!(Language::from_639_3("\u{65e5}"), None);
}

#[test]
fn every_three_letter_code_is_its_own_canonical_form() {
    for lang in all_languages() {
        let code = lang.to_639_3();
        assert_eq!(resolve_code(code), Some(code));
        assert_eq!(canonicalize(code.as_bytes()), Ok(code.as_bytes().to_vec()));
    }
}

#[test]
fn every_two_letter_code_becomes_the_three_letter_code() {
    let mut seen = 0;
    for lang in all_languages() {
        if let Some(short) = lang.to_639_1() {
            seen += 1;
            assert_eq!(resolve_code(short), Some(lang.to_639_3()));
            assert_eq!(canonicalize(short.as_bytes()), Ok(lang.to_639_3().as_bytes().to_vec()));
        }
    }
    assert!(seen > 100);
}

#[test]
fn every_canonical_form_is_stable() {
    for lang in all_languages() {
        let input = match lang.to_639_1() {
            Some(short) => short,
            None => lang.to_639_3(),
        };
        let once = canonicalize(input.as_bytes()).unwrap();
        assert_eq!(canonicalize(&once), Ok(once.clone()));
    }
}
