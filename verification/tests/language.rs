use whisper::Error;
use whisper::Language;

#[test]
fn language_to_string() {
    assert_eq!(Language::English.to_string(), "english");
    assert_eq!(Language::Japanese.to_string(), "japanese");
    assert_eq!(Language::HaitianCreole.to_string(), "haitian creole");
}

#[test]
fn language_round_trip_all() {
    let all = vec![
        Language::English,
        Language::Chinese,
        Language::German,
        Language::Spanish,
        Language::Russian,
        Language::Korean,
        Language::French,
        Language::Japanese,
        Language::Portuguese,
        Language::Turkish,
        Language::Polish,
        Language::Catalan,
        Language::Dutch,
        Language::Arabic,
        Language::Swedish,
        Language::Italian,
        Language::Indonesian,
        Language::Hindi,
        Language::Finnish,
        Language::Vietnamese,
        Language::Hebrew,
        Language::Ukrainian,
        Language::Greek,
        Language::Malay,
        Language::Czech,
        Language::Romanian,
        Language::Danish,
        Language::Hungarian,
        Language::Tamil,
        Language::Norwegian,
        Language::Thai,
        Language::Urdu,
        Language::Croatian,
        Language::Bulgarian,
        Language::Lithuanian,
        Language::Latin,
        Language::Maori,
        Language::Malayalam,
        Language::Welsh,
        Language::Slovak,
        Language::Telugu,
        Language::Persian,
        Language::Latvian,
        Language::Bengali,
        Language::Serbian,
        Language::Azerbaijani,
        Language::Slovenian,
        Language::Kannada,
        Language::Estonian,
        Language::Macedonian,
        Language::Breton,
        Language::Basque,
        Language::Icelandic,
        Language::Armenian,
        Language::Nepali,
        Language::Mongolian,
        Language::Bosnian,
        Language::Kazakh,
        Language::Albanian,
        Language::Swahili,
        Language::Galician,
        Language::Marathi,
        Language::Punjabi,
        Language::Sinhala,
        Language::Khmer,
        Language::Shona,
        Language::Yoruba,
        Language::Somali,
        Language::Afrikaans,
        Language::Occitan,
        Language::Georgian,
        Language::Belarusian,
        Language::Tajik,
        Language::Sindhi,
        Language::Gujarati,
        Language::Amharic,
        Language::Yiddish,
        Language::Lao,
        Language::Uzbek,
        Language::Faroese,
        Language::HaitianCreole,
        Language::Pashto,
        Language::Turkmen,
        Language::Nynorsk,
        Language::Maltese,
        Language::Sanskrit,
        Language::Luxembourgish,
        Language::Myanmar,
        Language::Tibetan,
        Language::Tagalog,
        Language::Malagasy,
        Language::Assamese,
        Language::Tatar,
        Language::Hawaiian,
        Language::Lingala,
        Language::Hausa,
        Language::Bashkir,
        Language::Javanese,
        Language::Sundanese,
    ];
    for lang in all {
        match Language::from_string(&lang.to_string()) {
            Ok(back) => assert_eq!(back, lang),
            Err(_) => panic!("canonical name failed to parse"),
        }
    }
}

#[test]
fn from_string_invalid() {
    match Language::from_string("not-a-real-language") {
        Err(Error::InvalidLanguageString(s)) => assert_eq!(s, "not-a-real-language"),
        _ => panic!("expected InvalidLanguageString"),
    }
}

#[test]
fn from_string_is_case_sensitive() {
    assert!(matches!(Language::from_string("English"), Err(Error::InvalidLanguageString(_))));
    assert!(matches!(Language::from_string("ENGLISH"), Err(Error::InvalidLanguageString(_))));
}

#[test]
fn from_string_known_names() {
    assert!(matches!(Language::from_string("english"), Ok(Language::English)));
    assert!(matches!(Language::from_string("haitian creole"), Ok(Language::HaitianCreole)));
    assert!(matches!(Language::from_string("sundanese"), Ok(Language::Sundanese)));
}
