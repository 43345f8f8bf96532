use vstd::prelude::*;

use crate::error::Error;

verus! {

/// The closed set of natural languages the speech model can be asked for,
/// or can report as the detected language of an input.
///
/// Each variant has one canonical lowercase name (`spec_name`); every name
/// is a single lowercase word except the space-separated "haitian creole".
#[derive(Clone, Copy, Debug, PartialEq, Eq, Structural)]
pub enum Language {
    English,
    Chinese,
    German,
    Spanish,
    Russian,
    Korean,
    French,
    Japanese,
    Portuguese,
    Turkish,
    Polish,
    Catalan,
    Dutch,
    Arabic,
    Swedish,
    Italian,
    Indonesian,
    Hindi,
    Finnish,
    Vietnamese,
    Hebrew,
    Ukrainian,
    Greek,
    Malay,
    Czech,
    Romanian,
    Danish,
    Hungarian,
    Tamil,
    Norwegian,
    Thai,
    Urdu,
    Croatian,
    Bulgarian,
    Lithuanian,
    Latin,
    Maori,
    Malayalam,
    Welsh,
    Slovak,
    Telugu,
    Persian,
    Latvian,
    Bengali,
    Serbian,
    Azerbaijani,
    Slovenian,
    Kannada,
    Estonian,
    Macedonian,
    Breton,
    Basque,
    Icelandic,
    Armenian,
    Nepali,
    Mongolian,
    Bosnian,
    Kazakh,
    Albanian,
    Swahili,
    Galician,
    Marathi,
    Punjabi,
    Sinhala,
    Khmer,
    Shona,
    Yoruba,
    Somali,
    Afrikaans,
    Occitan,
    Georgian,
    Belarusian,
    Tajik,
    Sindhi,
    Gujarati,
    Amharic,
    Yiddish,
    Lao,
    Uzbek,
    Faroese,
    HaitianCreole,
    Pashto,
    Turkmen,
    Nynorsk,
    Maltese,
    Sanskrit,
    Luxembourgish,
    Myanmar,
    Tibetan,
    Tagalog,
    Malagasy,
    Assamese,
    Tatar,
    Hawaiian,
    Lingala,
    Hausa,
    Bashkir,
    Javanese,
    Sundanese,
}

impl Language {
    /// The canonical lowercase form of this language's name, as the
    /// external model spells it.
    pub open spec fn spec_name(self) -> Seq<char> {
        match self {
            Language::English => "english"@,
            Language::Chinese => "chinese"@,
            Language::German => "german"@,
            Language::Spanish => "spanish"@,
            Language::Russian => "russian"@,
            Language::Korean => "korean"@,
            Language::French => "french"@,
            Language::Japanese => "japanese"@,
            Language::Portuguese => "portuguese"@,
            Language::Turkish => "turkish"@,
            Language::Polish => "polish"@,
            Language::Catalan => "catalan"@,
            Language::Dutch => "dutch"@,
            Language::Arabic => "arabic"@,
            Language::Swedish => "swedish"@,
            Language::Italian => "italian"@,
            Language::Indonesian => "indonesian"@,
            Language::Hindi => "hindi"@,
            Language::Finnish => "finnish"@,
            Language::Vietnamese => "vietnamese"@,
            Language::Hebrew => "hebrew"@,
            Language::Ukrainian => "ukrainian"@,
            Language::Greek => "greek"@,
            Language::Malay => "malay"@,
            Language::Czech => "czech"@,
            Language::Romanian => "romanian"@,
            Language::Danish => "danish"@,
            Language::Hungarian => "hungarian"@,
            Language::Tamil => "tamil"@,
            Language::Norwegian => "norwegian"@,
            Language::Thai => "thai"@,
            Language::Urdu => "urdu"@,
            Language::Croatian => "croatian"@,
            Language::Bulgarian => "bulgarian"@,
            Language::Lithuanian => "lithuanian"@,
            Language::Latin => "latin"@,
            Language::Maori => "maori"@,
            Language::Malayalam => "malayalam"@,
            Language::Welsh => "welsh"@,
            Language::Slovak => "slovak"@,
            Language::Telugu => "telugu"@,
            Language::Persian => "persian"@,
            Language::Latvian => "latvian"@,
            Language::Bengali => "bengali"@,
            Language::Serbian => "serbian"@,
            Language::Azerbaijani => "azerbaijani"@,
            Language::Slovenian => "slovenian"@,
            Language::Kannada => "kannada"@,
            Language::Estonian => "estonian"@,
            Language::Macedonian => "macedonian"@,
            Language::Breton => "breton"@,
            Language::Basque => "basque"@,
            Language::Icelandic => "icelandic"@,
            Language::Armenian => "armenian"@,
            Language::Nepali => "nepali"@,
            Language::Mongolian => "mongolian"@,
            Language::Bosnian => "bosnian"@,
            Language::Kazakh => "kazakh"@,
            Language::Albanian => "albanian"@,
            Language::Swahili => "swahili"@,
            Language::Galician => "galician"@,
            Language::Marathi => "marathi"@,
            Language::Punjabi => "punjabi"@,
            Language::Sinhala => "sinhala"@,
            Language::Khmer => "khmer"@,
            Language::Shona => "shona"@,
            Language::Yoruba => "yoruba"@,
            Language::Somali => "somali"@,
            Language::Afrikaans => "afrikaans"@,
            Language::Occitan => "occitan"@,
            Language::Georgian => "georgian"@,
            Language::Belarusian => "belarusian"@,
            Language::Tajik => "tajik"@,
            Language::Sindhi => "sindhi"@,
            Language::Gujarati => "gujarati"@,
            Language::Amharic => "amharic"@,
            Language::Yiddish => "yiddish"@,
            Language::Lao => "lao"@,
            Language::Uzbek => "uzbek"@,
            Language::Faroese => "faroese"@,
            Language::HaitianCreole => "haitian creole"@,
            Language::Pashto => "pashto"@,
            Language::Turkmen => "turkmen"@,
            Language::Nynorsk => "nynorsk"@,
            Language::Maltese => "maltese"@,
            Language::Sanskrit => "sanskrit"@,
            Language::Luxembourgish => "luxembourgish"@,
            Language::Myanmar => "myanmar"@,
            Language::Tibetan => "tibetan"@,
            Language::Tagalog => "tagalog"@,
            Language::Malagasy => "malagasy"@,
            Language::Assamese => "assamese"@,
            Language::Tatar => "tatar"@,
            Language::Hawaiian => "hawaiian"@,
            Language::Lingala => "lingala"@,
            Language::Hausa => "hausa"@,
            Language::Bashkir => "bashkir"@,
            Language::Javanese => "javanese"@,
            Language::Sundanese => "sundanese"@,
        }
    }

    /// The canonical lowercase name of this language.
    pub fn to_string(&self) -> (r: String)
        ensures
            r@ == self.spec_name(),
    {
        match self {
            Language::English => "english".to_owned(),
            Language::Chinese => "chinese".to_owned(),
            Language::German => "german".to_owned(),
            Language::Spanish => "spanish".to_owned(),
            Language::Russian => "russian".to_owned(),
            Language::Korean => "korean".to_owned(),
            Language::French => "french".to_owned(),
            Language::Japanese => "japanese".to_owned(),
            Language::Portuguese => "portuguese".to_owned(),
            Language::Turkish => "turkish".to_owned(),
            Language::Polish => "polish".to_owned(),
            Language::Catalan => "catalan".to_owned(),
            Language::Dutch => "dutch".to_owned(),
            Language::Arabic => "arabic".to_owned(),
            Language::Swedish => "swedish".to_owned(),
            Language::Italian => "italian".to_owned(),
            Language::Indonesian => "indonesian".to_owned(),
            Language::Hindi => "hindi".to_owned(),
            Language::Finnish => "finnish".to_owned(),
            Language::Vietnamese => "vietnamese".to_owned(),
            Language::Hebrew => "hebrew".to_owned(),
            Language::Ukrainian => "ukrainian".to_owned(),
            Language::Greek => "greek".to_owned(),
            Language::Malay => "malay".to_owned(),
            Language::Czech => "czech".to_owned(),
            Language::Romanian => "romanian".to_owned(),
            Language::Danish => "danish".to_owned(),
            Language::Hungarian => "hungarian".to_owned(),
            Language::Tamil => "tamil".to_owned(),
            Language::Norwegian => "norwegian".to_owned(),
            Language::Thai => "thai".to_owned(),
            Language::Urdu => "urdu".to_owned(),
            Language::Croatian => "croatian".to_owned(),
            Language::Bulgarian => "bulgarian".to_owned(),
            Language::Lithuanian => "lithuanian".to_owned(),
            Language::Latin => "latin".to_owned(),
            Language::Maori => "maori".to_owned(),
            Language::Malayalam => "malayalam".to_owned(),
            Language::Welsh => "welsh".to_owned(),
            Language::Slovak => "slovak".to_owned(),
            Language::Telugu => "telugu".to_owned(),
            Language::Persian => "persian".to_owned(),
            Language::Latvian => "latvian".to_owned(),
            Language::Bengali => "bengali".to_owned(),
            Language::Serbian => "serbian".to_owned(),
            Language::Azerbaijani => "azerbaijani".to_owned(),
            Language::Slovenian => "slovenian".to_owned(),
            Language::Kannada => "kannada".to_owned(),
            Language::Estonian => "estonian".to_owned(),
            Language::Macedonian => "macedonian".to_owned(),
            Language::Breton => "breton".to_owned(),
            Language::Basque => "basque".to_owned(),
            Language::Icelandic => "icelandic".to_owned(),
            Language::Armenian => "armenian".to_owned(),
            Language::Nepali => "nepali".to_owned(),
            Language::Mongolian => "mongolian".to_owned(),
            Language::Bosnian => "bosnian".to_owned(),
            Language::Kazakh => "kazakh".to_owned(),
            Language::Albanian => "albanian".to_owned(),
            Language::Swahili => "swahili".to_owned(),
            Language::Galician => "galician".to_owned(),
            Language::Marathi => "marathi".to_owned(),
            Language::Punjabi => "punjabi".to_owned(),
            Language::Sinhala => "sinhala".to_owned(),
            Language::Khmer => "khmer".to_owned(),
            Language::Shona => "shona".to_owned(),
            Language::Yoruba => "yoruba".to_owned(),
            Language::Somali => "somali".to_owned(),
            Language::Afrikaans => "afrikaans".to_owned(),
            Language::Occitan => "occitan".to_owned(),
            Language::Georgian => "georgian".to_owned(),
            Language::Belarusian => "belarusian".to_owned(),
            Language::Tajik => "tajik".to_owned(),
            Language::Sindhi => "sindhi".to_owned(),
            Language::Gujarati => "gujarati".to_owned(),
            Language::Amharic => "amharic".to_owned(),
            Language::Yiddish => "yiddish".to_owned(),
            Language::Lao => "lao".to_owned(),
            Language::Uzbek => "uzbek".to_owned(),
            Language::Faroese => "faroese".to_owned(),
            Language::HaitianCreole => "haitian creole".to_owned(),
            Language::Pashto => "pashto".to_owned(),
            Language::Turkmen => "turkmen".to_owned(),
            Language::Nynorsk => "nynorsk".to_owned(),
            Language::Maltese => "maltese".to_owned(),
            Language::Sanskrit => "sanskrit".to_owned(),
            Language::Luxembourgish => "luxembourgish".to_owned(),
            Language::Myanmar => "myanmar".to_owned(),
            Language::Tibetan => "tibetan".to_owned(),
            Language::Tagalog => "tagalog".to_owned(),
            Language::Malagasy => "malagasy".to_owned(),
            Language::Assamese => "assamese".to_owned(),
            Language::Tatar => "tatar".to_owned(),
            Language::Hawaiian => "hawaiian".to_owned(),
            Language::Lingala => "lingala".to_owned(),
            Language::Hausa => "hausa".to_owned(),
            Language::Bashkir => "bashkir".to_owned(),
            Language::Javanese => "javanese".to_owned(),
            Language::Sundanese => "sundanese".to_owned(),
        }
    }

    /// Looks a string up, case-sensitively, against the canonical names.
    /// Returns the matching language, or `InvalidLanguageString` carrying
    /// the offending input when no name matches.
    pub fn from_string(s: &str) -> (r: Result<Language, Error>)
        ensures
            match r {
                Ok(l) => parse_language(s@) == Some(l),
                Err(e) => {
                    &&& parse_language(s@) is None
                    &&& e matches Error::InvalidLanguageString(t) && t@ == s@
                },
            },
    {
        if crate::text::str_eq(s, "english") {
            Ok(Language::English)
        } else if crate::text::str_eq(s, "chinese") {
            Ok(Language::Chinese)
        } else if crate::text::str_eq(s, "german") {
            Ok(Language::German)
        } else if crate::text::str_eq(s, "spanish") {
            Ok(Language::Spanish)
        } else if crate::text::str_eq(s, "russian") {
            Ok(Language::Russian)
        } else if crate::text::str_eq(s, "korean") {
            Ok(Language::Korean)
        } else if crate::text::str_eq(s, "french") {
            Ok(Language::French)
        } else if crate::text::str_eq(s, "japanese") {
            Ok(Language::Japanese)
        } else if crate::text::str_eq(s, "portuguese") {
            Ok(Language::Portuguese)
        } else if crate::text::str_eq(s, "turkish") {
            Ok(Language::Turkish)
        } else if crate::text::str_eq(s, "polish") {
            Ok(Language::Polish)
        } else if crate::text::str_eq(s, "catalan") {
            Ok(Language::Catalan)
        } else if crate::text::str_eq(s, "dutch") {
            Ok(Language::Dutch)
        } else if crate::text::str_eq(s, "arabic") {
            Ok(Language::Arabic)
        } else if crate::text::str_eq(s, "swedish") {
            Ok(Language::Swedish)
        } else if crate::text::str_eq(s, "italian") {
            Ok(Language::Italian)
        } else if crate::text::str_eq(s, "indonesian") {
            Ok(Language::Indonesian)
        } else if crate::text::str_eq(s, "hindi") {
            Ok(Language::Hindi)
        } else if crate::text::str_eq(s, "finnish") {
            Ok(Language::Finnish)
        } else if crate::text::str_eq(s, "vietnamese") {
            Ok(Language::Vietnamese)
        } else if crate::text::str_eq(s, "hebrew") {
            Ok(Language::Hebrew)
        } else if crate::text::str_eq(s, "ukrainian") {
            Ok(Language::Ukrainian)
        } else if crate::text::str_eq(s, "greek") {
            Ok(Language::Greek)
        } else if crate::text::str_eq(s, "malay") {
            Ok(Language::Malay)
        } else if crate::text::str_eq(s, "czech") {
            Ok(Language::Czech)
        } else if crate::text::str_eq(s, "romanian") {
            Ok(Language::Romanian)
        } else if crate::text::str_eq(s, "danish") {
            Ok(Language::Danish)
        } else if crate::text::str_eq(s, "hungarian") {
            Ok(Language::Hungarian)
        } else if crate::text::str_eq(s, "tamil") {
            Ok(Language::Tamil)
        } else if crate::text::str_eq(s, "norwegian") {
            Ok(Language::Norwegian)
        } else if crate::text::str_eq(s, "thai") {
            Ok(Language::Thai)
        } else if crate::text::str_eq(s, "urdu") {
            Ok(Language::Urdu)
        } else if crate::text::str_eq(s, "croatian") {
            Ok(Language::Croatian)
        } else if crate::text::str_eq(s, "bulgarian") {
            Ok(Language::Bulgarian)
        } else if crate::text::str_eq(s, "lithuanian") {
            Ok(Language::Lithuanian)
        } else if crate::text::str_eq(s, "latin") {
            Ok(Language::Latin)
        } else if crate::text::str_eq(s, "maori") {
            Ok(Language::Maori)
        } else if crate::text::str_eq(s, "malayalam") {
            Ok(Language::Malayalam)
        } else if crate::text::str_eq(s, "welsh") {
            Ok(Language::Welsh)
        } else if crate::text::str_eq(s, "slovak") {
            Ok(Language::Slovak)
        } else if crate::text::str_eq(s, "telugu") {
            Ok(Language::Telugu)
        } else if crate::text::str_eq(s, "persian") {
            Ok(Language::Persian)
        } else if crate::text::str_eq(s, "latvian") {
            Ok(Language::Latvian)
        } else if crate::text::str_eq(s, "bengali") {
            Ok(Language::Bengali)
        } else if crate::text::str_eq(s, "serbian") {
            Ok(Language::Serbian)
        } else if crate::text::str_eq(s, "azerbaijani") {
            Ok(Language::Azerbaijani)
        } else if crate::text::str_eq(s, "slovenian") {
            Ok(Language::Slovenian)
        } else if crate::text::str_eq(s, "kannada") {
            Ok(Language::Kannada)
        } else if crate::text::str_eq(s, "estonian") {
            Ok(Language::Estonian)
        } else if crate::text::str_eq(s, "macedonian") {
            Ok(Language::Macedonian)
        } else if crate::text::str_eq(s, "breton") {
            Ok(Language::Breton)
        } else if crate::text::str_eq(s, "basque") {
            Ok(Language::Basque)
        } else if crate::text::str_eq(s, "icelandic") {
            Ok(Language::Icelandic)
        } else if crate::text::str_eq(s, "armenian") {
            Ok(Language::Armenian)
        } else if crate::text::str_eq(s, "nepali") {
            Ok(Language::Nepali)
        } else if crate::text::str_eq(s, "mongolian") {
            Ok(Language::Mongolian)
        } else if crate::text::str_eq(s, "bosnian") {
            Ok(Language::Bosnian)
        } else if crate::text::str_eq(s, "kazakh") {
            Ok(Language::Kazakh)
        } else if crate::text::str_eq(s, "albanian") {
            Ok(Language::Albanian)
        } else if crate::text::str_eq(s, "swahili") {
            Ok(Language::Swahili)
        } else if crate::text::str_eq(s, "galician") {
            Ok(Language::Galician)
        } else if crate::text::str_eq(s, "marathi") {
            Ok(Language::Marathi)
        } else if crate::text::str_eq(s, "punjabi") {
            Ok(Language::Punjabi)
        } else if crate::text::str_eq(s, "sinhala") {
            Ok(Language::Sinhala)
        } else if crate::text::str_eq(s, "khmer") {
            Ok(Language::Khmer)
        } else if crate::text::str_eq(s, "shona") {
            Ok(Language::Shona)
        } else if crate::text::str_eq(s, "yoruba") {
            Ok(Language::Yoruba)
        } else if crate::text::str_eq(s, "somali") {
            Ok(Language::Somali)
        } else if crate::text::str_eq(s, "afrikaans") {
            Ok(Language::Afrikaans)
        } else if crate::text::str_eq(s, "occitan") {
            Ok(Language::Occitan)
        } else if crate::text::str_eq(s, "georgian") {
            Ok(Language::Georgian)
        } else if crate::text::str_eq(s, "belarusian") {
            Ok(Language::Belarusian)
        } else if crate::text::str_eq(s, "tajik") {
            Ok(Language::Tajik)
        } else if crate::text::str_eq(s, "sindhi") {
            Ok(Language::Sindhi)
        } else if crate::text::str_eq(s, "gujarati") {
            Ok(Language::Gujarati)
        } else if crate::text::str_eq(s, "amharic") {
            Ok(Language::Amharic)
        } else if crate::text::str_eq(s, "yiddish") {
            Ok(Language::Yiddish)
        } else if crate::text::str_eq(s, "lao") {
            Ok(Language::Lao)
        } else if crate::text::str_eq(s, "uzbek") {
            Ok(Language::Uzbek)
        } else if crate::text::str_eq(s, "faroese") {
            Ok(Language::Faroese)
        } else if crate::text::str_eq(s, "haitian creole") {
            Ok(Language::HaitianCreole)
        } else if crate::text::str_eq(s, "pashto") {
            Ok(Language::Pashto)
        } else if crate::text::str_eq(s, "turkmen") {
            Ok(Language::Turkmen)
        } else if crate::text::str_eq(s, "nynorsk") {
            Ok(Language::Nynorsk)
        } else if crate::text::str_eq(s, "maltese") {
            Ok(Language::Maltese)
        } else if crate::text::str_eq(s, "sanskrit") {
            Ok(Language::Sanskrit)
        } else if crate::text::str_eq(s, "luxembourgish") {
            Ok(Language::Luxembourgish)
        } else if crate::text::str_eq(s, "myanmar") {
            Ok(Language::Myanmar)
        } else if crate::text::str_eq(s, "tibetan") {
            Ok(Language::Tibetan)
        } else if crate::text::str_eq(s, "tagalog") {
            Ok(Language::Tagalog)
        } else if crate::text::str_eq(s, "malagasy") {
            Ok(Language::Malagasy)
        } else if crate::text::str_eq(s, "assamese") {
            Ok(Language::Assamese)
        } else if crate::text::str_eq(s, "tatar") {
            Ok(Language::Tatar)
        } else if crate::text::str_eq(s, "hawaiian") {
            Ok(Language::Hawaiian)
        } else if crate::text::str_eq(s, "lingala") {
            Ok(Language::Lingala)
        } else if crate::text::str_eq(s, "hausa") {
            Ok(Language::Hausa)
        } else if crate::text::str_eq(s, "bashkir") {
            Ok(Language::Bashkir)
        } else if crate::text::str_eq(s, "javanese") {
            Ok(Language::Javanese)
        } else if crate::text::str_eq(s, "sundanese") {
            Ok(Language::Sundanese)
        } else {
            Err(Error::InvalidLanguageString(s.to_owned()))
        }
    }
}

/// What a string parses to: the first language, in declaration order,
/// whose canonical name equals it; `None` when no name matches.
pub open spec fn parse_language(s: Seq<char>) -> Option<Language> {
    if s == "english"@ {
        Some(Language::English)
    } else if s == "chinese"@ {
        Some(Language::Chinese)
    } else if s == "german"@ {
        Some(Language::German)
    } else if s == "spanish"@ {
        Some(Language::Spanish)
    } else if s == "russian"@ {
        Some(Language::Russian)
    } else if s == "korean"@ {
        Some(Language::Korean)
    } else if s == "french"@ {
        Some(Language::French)
    } else if s == "japanese"@ {
        Some(Language::Japanese)
    } else if s == "portuguese"@ {
        Some(Language::Portuguese)
    } else if s == "turkish"@ {
        Some(Language::Turkish)
    } else if s == "polish"@ {
        Some(Language::Polish)
    } else if s == "catalan"@ {
        Some(Language::Catalan)
    } else if s == "dutch"@ {
        Some(Language::Dutch)
    } else if s == "arabic"@ {
        Some(Language::Arabic)
    } else if s == "swedish"@ {
        Some(Language::Swedish)
    } else if s == "italian"@ {
        Some(Language::Italian)
    } else if s == "indonesian"@ {
        Some(Language::Indonesian)
    } else if s == "hindi"@ {
        Some(Language::Hindi)
    } else if s == "finnish"@ {
        Some(Language::Finnish)
    } else if s == "vietnamese"@ {
        Some(Language::Vietnamese)
    } else if s == "hebrew"@ {
        Some(Language::Hebrew)
    } else if s == "ukrainian"@ {
        Some(Language::Ukrainian)
    } else if s == "greek"@ {
        Some(Language::Greek)
    } else if s == "malay"@ {
        Some(Language::Malay)
    } else if s == "czech"@ {
        Some(Language::Czech)
    } else if s == "romanian"@ {
        Some(Language::Romanian)
    } else if s == "danish"@ {
        Some(Language::Danish)
    } else if s == "hungarian"@ {
        Some(Language::Hungarian)
    } else if s == "tamil"@ {
        Some(Language::Tamil)
    } else if s == "norwegian"@ {
        Some(Language::Norwegian)
    } else if s == "thai"@ {
        Some(Language::Thai)
    } else if s == "urdu"@ {
        Some(Language::Urdu)
    } else if s == "croatian"@ {
        Some(Language::Croatian)
    } else if s == "bulgarian"@ {
        Some(Language::Bulgarian)
    } else if s == "lithuanian"@ {
        Some(Language::Lithuanian)
    } else if s == "latin"@ {
        Some(Language::Latin)
    } else if s == "maori"@ {
        Some(Language::Maori)
    } else if s == "malayalam"@ {
        Some(Language::Malayalam)
    } else if s == "welsh"@ {
        Some(Language::Welsh)
    } else if s == "slovak"@ {
        Some(Language::Slovak)
    } else if s == "telugu"@ {
        Some(Language::Telugu)
    } else if s == "persian"@ {
        Some(Language::Persian)
    } else if s == "latvian"@ {
        Some(Language::Latvian)
    } else if s == "bengali"@ {
        Some(Language::Bengali)
    } else if s == "serbian"@ {
        Some(Language::Serbian)
    } else if s == "azerbaijani"@ {
        Some(Language::Azerbaijani)
    } else if s == "slovenian"@ {
        Some(Language::Slovenian)
    } else if s == "kannada"@ {
        Some(Language::Kannada)
    } else if s == "estonian"@ {
        Some(Language::Estonian)
    } else if s == "macedonian"@ {
        Some(Language::Macedonian)
    } else if s == "breton"@ {
        Some(Language::Breton)
    } else if s == "basque"@ {
        Some(Language::Basque)
    } else if s == "icelandic"@ {
        Some(Language::Icelandic)
    } else if s == "armenian"@ {
        Some(Language::Armenian)
    } else if s == "nepali"@ {
        Some(Language::Nepali)
    } else if s == "mongolian"@ {
        Some(Language::Mongolian)
    } else if s == "bosnian"@ {
        Some(Language::Bosnian)
    } else if s == "kazakh"@ {
        Some(Language::Kazakh)
    } else if s == "albanian"@ {
        Some(Language::Albanian)
    } else if s == "swahili"@ {
        Some(Language::Swahili)
    } else if s == "galician"@ {
        Some(Language::Galician)
    } else if s == "marathi"@ {
        Some(Language::Marathi)
    } else if s == "punjabi"@ {
        Some(Language::Punjabi)
    } else if s == "sinhala"@ {
        Some(Language::Sinhala)
    } else if s == "khmer"@ {
        Some(Language::Khmer)
    } else if s == "shona"@ {
        Some(Language::Shona)
    } else if s == "yoruba"@ {
        Some(Language::Yoruba)
    } else if s == "somali"@ {
        Some(Language::Somali)
    } else if s == "afrikaans"@ {
        Some(Language::Afrikaans)
    } else if s == "occitan"@ {
        Some(Language::Occitan)
    } else if s == "georgian"@ {
        Some(Language::Georgian)
    } else if s == "belarusian"@ {
        Some(Language::Belarusian)
    } else if s == "tajik"@ {
        Some(Language::Tajik)
    } else if s == "sindhi"@ {
        Some(Language::Sindhi)
    } else if s == "gujarati"@ {
        Some(Language::Gujarati)
    } else if s == "amharic"@ {
        Some(Language::Amharic)
    } else if s == "yiddish"@ {
        Some(Language::Yiddish)
    } else if s == "lao"@ {
        Some(Language::Lao)
    } else if s == "uzbek"@ {
        Some(Language::Uzbek)
    } else if s == "faroese"@ {
        Some(Language::Faroese)
    } else if s == "haitian creole"@ {
        Some(Language::HaitianCreole)
    } else if s == "pashto"@ {
        Some(Language::Pashto)
    } else if s == "turkmen"@ {
        Some(Language::Turkmen)
    } else if s == "nynorsk"@ {
        Some(Language::Nynorsk)
    } else if s == "maltese"@ {
        Some(Language::Maltese)
    } else if s == "sanskrit"@ {
        Some(Language::Sanskrit)
    } else if s == "luxembourgish"@ {
        Some(Language::Luxembourgish)
    } else if s == "myanmar"@ {
        Some(Language::Myanmar)
    } else if s == "tibetan"@ {
        Some(Language::Tibetan)
    } else if s == "tagalog"@ {
        Some(Language::Tagalog)
    } else if s == "malagasy"@ {
        Some(Language::Malagasy)
    } else if s == "assamese"@ {
        Some(Language::Assamese)
    } else if s == "tatar"@ {
        Some(Language::Tatar)
    } else if s == "hawaiian"@ {
        Some(Language::Hawaiian)
    } else if s == "lingala"@ {
        Some(Language::Lingala)
    } else if s == "hausa"@ {
        Some(Language::Hausa)
    } else if s == "bashkir"@ {
        Some(Language::Bashkir)
    } else if s == "javanese"@ {
        Some(Language::Javanese)
    } else if s == "sundanese"@ {
        Some(Language::Sundanese)
    } else {
        None
    }
}

/// The length of every canonical name, and enough of its leading
/// characters to tell it from every other name of the same length.
proof fn lemma_name_facts()
    ensures
        "english"@.len() == 7 && "english"@[0] == 'e',
        "chinese"@.len() == 7 && "chinese"@[0] == 'c' && "chinese"@[1] == 'h',
        "german"@.len() == 6 && "german"@[0] == 'g',
        "spanish"@.len() == 7 && "spanish"@[0] == 's' && "spanish"@[1] == 'p',
        "russian"@.len() == 7 && "russian"@[0] == 'r',
        "korean"@.len() == 6 && "korean"@[0] == 'k' && "korean"@[1] == 'o',
        "french"@.len() == 6 && "french"@[0] == 'f',
        "japanese"@.len() == 8 && "japanese"@[0] == 'j' && "japanese"@[1] == 'a' && "japanese"@[2] == 'p',
        "portuguese"@.len() == 10 && "portuguese"@[0] == 'p',
        "turkish"@.len() == 7 && "turkish"@[0] == 't' && "turkish"@[1] == 'u' && "turkish"@[2] == 'r' && "turkish"@[3] == 'k' && "turkish"@[4] == 'i',
        "polish"@.len() == 6 && "polish"@[0] == 'p' && "polish"@[1] == 'o',
        "catalan"@.len() == 7 && "catalan"@[0] == 'c' && "catalan"@[1] == 'a',
        "dutch"@.len() == 5 && "dutch"@[0] == 'd',
        "arabic"@.len() == 6 && "arabic"@[0] == 'a',
        "swedish"@.len() == 7 && "swedish"@[0] == 's' && "swedish"@[1] == 'w' && "swedish"@[2] == 'e',
        "italian"@.len() == 7 && "italian"@[0] == 'i',
        "indonesian"@.len() == 10 && "indonesian"@[0] == 'i',
        "hindi"@.len() == 5 && "hindi"@[0] == 'h' && "hindi"@[1] == 'i',
        "finnish"@.len() == 7 && "finnish"@[0] == 'f' && "finnish"@[1] == 'i',
        "vietnamese"@.len() == 10 && "vietnamese"@[0] == 'v',
        "hebrew"@.len() == 6 && "hebrew"@[0] == 'h',
        "ukrainian"@.len() == 9 && "ukrainian"@[0] == 'u',
        "greek"@.len() == 5 && "greek"@[0] == 'g',
        "malay"@.len() == 5 && "malay"@[0] == 'm' && "malay"@[1] == 'a' && "malay"@[2] == 'l',
        "czech"@.len() == 5 && "czech"@[0] == 'c',
        "romanian"@.len() == 8 && "romanian"@[0] == 'r',
        "danish"@.len() == 6 && "danish"@[0] == 'd',
        "hungarian"@.len() == 9 && "hungarian"@[0] == 'h',
        "tamil"@.len() == 5 && "tamil"@[0] == 't' && "tamil"@[1] == 'a' && "tamil"@[2] == 'm',
        "norwegian"@.len() == 9 && "norwegian"@[0] == 'n',
        "thai"@.len() == 4 && "thai"@[0] == 't',
        "urdu"@.len() == 4 && "urdu"@[0] == 'u',
        "croatian"@.len() == 8 && "croatian"@[0] == 'c',
        "bulgarian"@.len() == 9 && "bulgarian"@[0] == 'b',
        "lithuanian"@.len() == 10 && "lithuanian"@[0] == 'l',
        "latin"@.len() == 5 && "latin"@[0] == 'l',
        "maori"@.len() == 5 && "maori"@[0] == 'm' && "maori"@[1] == 'a' && "maori"@[2] == 'o',
        "malayalam"@.len() == 9 && "malayalam"@[0] == 'm' && "malayalam"@[1] == 'a',
        "welsh"@.len() == 5 && "welsh"@[0] == 'w',
        "slovak"@.len() == 6 && "slovak"@[0] == 's' && "slovak"@[1] == 'l',
        "telugu"@.len() == 6 && "telugu"@[0] == 't',
        "persian"@.len() == 7 && "persian"@[0] == 'p' && "persian"@[1] == 'e',
        "latvian"@.len() == 7 && "latvian"@[0] == 'l' && "latvian"@[1] == 'a',
        "bengali"@.len() == 7 && "bengali"@[0] == 'b' && "bengali"@[1] == 'e',
        "serbian"@.len() == 7 && "serbian"@[0] == 's' && "serbian"@[1] == 'e',
        "azerbaijani"@.len() == 11,
        "slovenian"@.len() == 9 && "slovenian"@[0] == 's' && "slovenian"@[1] == 'l',
        "kannada"@.len() == 7 && "kannada"@[0] == 'k',
        "estonian"@.len() == 8 && "estonian"@[0] == 'e',
        "macedonian"@.len() == 10 && "macedonian"@[0] == 'm',
        "breton"@.len() == 6 && "breton"@[0] == 'b' && "breton"@[1] == 'r',
        "basque"@.len() == 6 && "basque"@[0] == 'b' && "basque"@[1] == 'a',
        "icelandic"@.len() == 9 && "icelandic"@[0] == 'i',
        "armenian"@.len() == 8 && "armenian"@[0] == 'a' && "armenian"@[1] == 'r',
        "nepali"@.len() == 6 && "nepali"@[0] == 'n',
        "mongolian"@.len() == 9 && "mongolian"@[0] == 'm' && "mongolian"@[1] == 'o',
        "bosnian"@.len() == 7 && "bosnian"@[0] == 'b' && "bosnian"@[1] == 'o',
        "kazakh"@.len() == 6 && "kazakh"@[0] == 'k' && "kazakh"@[1] == 'a',
        "albanian"@.len() == 8 && "albanian"@[0] == 'a' && "albanian"@[1] == 'l',
        "swahili"@.len() == 7 && "swahili"@[0] == 's' && "swahili"@[1] == 'w' && "swahili"@[2] == 'a',
        "galician"@.len() == 8 && "galician"@[0] == 'g' && "galician"@[1] == 'a',
        "marathi"@.len() == 7 && "marathi"@[0] == 'm' && "marathi"@[1] == 'a' && "marathi"@[2] == 'r',
        "punjabi"@.len() == 7 && "punjabi"@[0] == 'p' && "punjabi"@[1] == 'u',
        "sinhala"@.len() == 7 && "sinhala"@[0] == 's' && "sinhala"@[1] == 'i',
        "khmer"@.len() == 5 && "khmer"@[0] == 'k',
        "shona"@.len() == 5 && "shona"@[0] == 's',
        "yoruba"@.len() == 6 && "yoruba"@[0] == 'y',
        "somali"@.len() == 6 && "somali"@[0] == 's' && "somali"@[1] == 'o',
        "afrikaans"@.len() == 9 && "afrikaans"@[0] == 'a',
        "occitan"@.len() == 7 && "occitan"@[0] == 'o',
        "georgian"@.len() == 8 && "georgian"@[0] == 'g' && "georgian"@[1] == 'e',
        "belarusian"@.len() == 10 && "belarusian"@[0] == 'b',
        "tajik"@.len() == 5 && "tajik"@[0] == 't' && "tajik"@[1] == 'a' && "tajik"@[2] == 'j',
        "sindhi"@.len() == 6 && "sindhi"@[0] == 's' && "sindhi"@[1] == 'i',
        "gujarati"@.len() == 8 && "gujarati"@[0] == 'g' && "gujarati"@[1] == 'u',
        "amharic"@.len() == 7 && "amharic"@[0] == 'a',
        "yiddish"@.len() == 7 && "yiddish"@[0] == 'y',
        "lao"@.len() == 3,
        "uzbek"@.len() == 5 && "uzbek"@[0] == 'u',
        "faroese"@.len() == 7 && "faroese"@[0] == 'f' && "faroese"@[1] == 'a',
        "haitian creole"@.len() == 14,
        "pashto"@.len() == 6 && "pashto"@[0] == 'p' && "pashto"@[1] == 'a',
        "turkmen"@.len() == 7 && "turkmen"@[0] == 't' && "turkmen"@[1] == 'u' && "turkmen"@[2] == 'r' && "turkmen"@[3] == 'k' && "turkmen"@[4] == 'm',
        "nynorsk"@.len() == 7 && "nynorsk"@[0] == 'n',
        "maltese"@.len() == 7 && "maltese"@[0] == 'm' && "maltese"@[1] == 'a' && "maltese"@[2] == 'l',
        "sanskrit"@.len() == 8 && "sanskrit"@[0] == 's',
        "luxembourgish"@.len() == 13,
        "myanmar"@.len() == 7 && "myanmar"@[0] == 'm' && "myanmar"@[1] == 'y',
        "tibetan"@.len() == 7 && "tibetan"@[0] == 't' && "tibetan"@[1] == 'i',
        "tagalog"@.len() == 7 && "tagalog"@[0] == 't' && "tagalog"@[1] == 'a',
        "malagasy"@.len() == 8 && "malagasy"@[0] == 'm',
        "assamese"@.len() == 8 && "assamese"@[0] == 'a' && "assamese"@[1] == 's',
        "tatar"@.len() == 5 && "tatar"@[0] == 't' && "tatar"@[1] == 'a' && "tatar"@[2] == 't',
        "hawaiian"@.len() == 8 && "hawaiian"@[0] == 'h',
        "lingala"@.len() == 7 && "lingala"@[0] == 'l' && "lingala"@[1] == 'i',
        "hausa"@.len() == 5 && "hausa"@[0] == 'h' && "hausa"@[1] == 'a',
        "bashkir"@.len() == 7 && "bashkir"@[0] == 'b' && "bashkir"@[1] == 'a',
        "javanese"@.len() == 8 && "javanese"@[0] == 'j' && "javanese"@[1] == 'a' && "javanese"@[2] == 'v',
        "sundanese"@.len() == 9 && "sundanese"@[0] == 's' && "sundanese"@[1] == 'u',
{
    reveal_strlit("english");
    reveal_strlit("chinese");
    reveal_strlit("german");
    reveal_strlit("spanish");
    reveal_strlit("russian");
    reveal_strlit("korean");
    reveal_strlit("french");
    reveal_strlit("japanese");
    reveal_strlit("portuguese");
    reveal_strlit("turkish");
    reveal_strlit("polish");
    reveal_strlit("catalan");
    reveal_strlit("dutch");
    reveal_strlit("arabic");
    reveal_strlit("swedish");
    reveal_strlit("italian");
    reveal_strlit("indonesian");
    reveal_strlit("hindi");
    reveal_strlit("finnish");
    reveal_strlit("vietnamese");
    reveal_strlit("hebrew");
    reveal_strlit("ukrainian");
    reveal_strlit("greek");
    reveal_strlit("malay");
    reveal_strlit("czech");
    reveal_strlit("romanian");
    reveal_strlit("danish");
    reveal_strlit("hungarian");
    reveal_strlit("tamil");
    reveal_strlit("norwegian");
    reveal_strlit("thai");
    reveal_strlit("urdu");
    reveal_strlit("croatian");
    reveal_strlit("bulgarian");
    reveal_strlit("lithuanian");
    reveal_strlit("latin");
    reveal_strlit("maori");
    reveal_strlit("malayalam");
    reveal_strlit("welsh");
    reveal_strlit("slovak");
    reveal_strlit("telugu");
    reveal_strlit("persian");
    reveal_strlit("latvian");
    reveal_strlit("bengali");
    reveal_strlit("serbian");
    reveal_strlit("azerbaijani");
    reveal_strlit("slovenian");
    reveal_strlit("kannada");
    reveal_strlit("estonian");
    reveal_strlit("macedonian");
    reveal_strlit("breton");
    reveal_strlit("basque");
    reveal_strlit("icelandic");
    reveal_strlit("armenian");
    reveal_strlit("nepali");
    reveal_strlit("mongolian");
    reveal_strlit("bosnian");
    reveal_strlit("kazakh");
    reveal_strlit("albanian");
    reveal_strlit("swahili");
    reveal_strlit("galician");
    reveal_strlit("marathi");
    reveal_strlit("punjabi");
    reveal_strlit("sinhala");
    reveal_strlit("khmer");
    reveal_strlit("shona");
    reveal_strlit("yoruba");
    reveal_strlit("somali");
    reveal_strlit("afrikaans");
    reveal_strlit("occitan");
    reveal_strlit("georgian");
    reveal_strlit("belarusian");
    reveal_strlit("tajik");
    reveal_strlit("sindhi");
    reveal_strlit("gujarati");
    reveal_strlit("amharic");
    reveal_strlit("yiddish");
    reveal_strlit("lao");
    reveal_strlit("uzbek");
    reveal_strlit("faroese");
    reveal_strlit("haitian creole");
    reveal_strlit("pashto");
    reveal_strlit("turkmen");
    reveal_strlit("nynorsk");
    reveal_strlit("maltese");
    reveal_strlit("sanskrit");
    reveal_strlit("luxembourgish");
    reveal_strlit("myanmar");
    reveal_strlit("tibetan");
    reveal_strlit("tagalog");
    reveal_strlit("malagasy");
    reveal_strlit("assamese");
    reveal_strlit("tatar");
    reveal_strlit("hawaiian");
    reveal_strlit("lingala");
    reveal_strlit("hausa");
    reveal_strlit("bashkir");
    reveal_strlit("javanese");
    reveal_strlit("sundanese");
}

/// Law: round trip. A language's canonical name parses back to exactly
/// that language.
pub proof fn lemma_language_round_trip(l: Language)
    ensures
        parse_language(l.spec_name()) == Some(l),
{
    lemma_name_facts();
}

/// Law: no two languages share a canonical name.
pub proof fn lemma_canonical_names_distinct(a: Language, b: Language)
    requires
        a.spec_name() == b.spec_name(),
    ensures
        a == b,
{
    lemma_language_round_trip(a);
    lemma_language_round_trip(b);
}

} // verus!
