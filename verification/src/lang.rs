use vstd::prelude::*;

use crate::text::{chars_of, lemma_split_on_nonempty, range_eq, split_on, split_ranges};
use crate::texts::{TextBundle, en_text_bundle, en_texts, ja_text_bundle, ja_texts, zh_text_bundle, zh_texts};

verus! {

/// The languages of the user interface.
#[derive(Clone, Copy, Debug, PartialEq, Eq, Structural)]
pub enum Language {
    Zh,
    En,
    Ja,
}

/// How a language names itself in the language menu.
pub open spec fn language_name(lang: Language) -> Seq<char> {
    match lang {
        Language::Zh => "中文"@,
        Language::En => "English"@,
        Language::Ja => "日本語"@,
    }
}

/// A locale character as compared: `_` reads as `-`, and ASCII capitals as small letters.
pub open spec fn normalize_locale_char(c: char) -> char {
    if c == '_' {
        '-'
    } else if 'A' <= c <= 'Z' {
        ((c as u32) + 32) as char
    } else {
        c
    }
}

/// The primary subtag of a locale tag: its first piece, compared case-insensitively,
/// where both `-` and `_` separate pieces.
pub open spec fn primary_subtag(tag: Seq<char>) -> Seq<char> {
    split_on(tag.map_values(|c: char| normalize_locale_char(c)), '-')[0]
}

/// The supported language that a locale tag names, if any.
pub open spec fn language_of_tag(tag: Seq<char>) -> Option<Language> {
    let p = primary_subtag(tag);
    if p == "zh"@ {
        Some(Language::Zh)
    } else if p == "ja"@ {
        Some(Language::Ja)
    } else if p == "en"@ {
        Some(Language::En)
    } else {
        None
    }
}

/// The language chosen for a system locale: the one its tag names, Chinese otherwise.
pub open spec fn language_for_locale_spec(locale: Option<Seq<char>>) -> Language {
    match locale {
        Some(tag) => match language_of_tag(tag) {
            Some(lang) => lang,
            None => Language::Zh,
        },
        None => Language::Zh,
    }
}

/// The texts of the user interface in a language.
pub open spec fn texts_for(lang: Language) -> TextBundle {
    match lang {
        Language::Zh => zh_texts(),
        Language::En => en_texts(),
        Language::Ja => ja_texts(),
    }
}

/// Asks the system for its preferred locale (`sys_locale::get_locale`). The answer depends
/// on the environment of the process, so nothing is promised of it.
#[verifier::external_body]
fn system_locale() -> (r: Option<String>) {
    sys_locale::get_locale()
}

impl Language {
    /// How the language names itself in the language menu.
    pub fn as_str(&self) -> (r: &'static str)
        ensures
            r@ == language_name(*self),
    {
        match self {
            Language::Zh => "中文",
            Language::En => "English",
            Language::Ja => "日本語",
        }
    }

    /// The supported language that a locale tag such as `zh-CN`, `zh_Hant_TW` or `en-US`
    /// names, judged by its primary subtag.
    pub fn from_locale_tag(locale: &str) -> (r: Option<Language>)
        ensures
            r == language_of_tag(locale@),
    {
        let cs = chars_of(locale);
        let mut normalized: Vec<char> = Vec::new();
        let mut i: usize = 0;
        while i < cs.len()
            invariant
                cs@ == locale@,
                i <= cs.len(),
                normalized@ == cs@.take(i as int).map_values(|c: char| normalize_locale_char(c)),
            decreases cs.len() - i,
        {
            let c = cs[i];
            let n = if c == '_' {
                '-'
            } else if 'A' <= c && c <= 'Z' {
                ((c as u8) + 32) as char
            } else {
                c
            };
            assert(n == normalize_locale_char(c));
            normalized.push(n);
            assert(cs@.take(i + 1).map_values(|c: char| normalize_locale_char(c)) =~= cs@.take(
                i as int,
            ).map_values(|c: char| normalize_locale_char(c)).push(n));
            i = i + 1;
        }
        assert(cs@.take(cs@.len() as int) =~= cs@);
        let ranges = split_ranges(&normalized, '-');
        proof {
            lemma_split_on_nonempty(normalized@, '-');
        }
        let (a, b) = ranges[0];
        if range_eq(&normalized, a, b, &chars_of("zh")) {
            return Some(Language::Zh);
        }
        if range_eq(&normalized, a, b, &chars_of("ja")) {
            return Some(Language::Ja);
        }
        if range_eq(&normalized, a, b, &chars_of("en")) {
            return Some(Language::En);
        }
        None
    }

    /// The language for a system locale: the one its tag names, Chinese when there is
    /// no locale or it names no supported language.
    pub fn for_locale(locale: Option<&str>) -> (r: Language)
        ensures
            r == language_for_locale_spec(
                match locale {
                    Some(s) => Some(s@),
                    None => None,
                },
            ),
    {
        match locale {
            Some(tag) => match Self::from_locale_tag(tag) {
                Some(lang) => lang,
                None => Language::Zh,
            },
            None => Language::Zh,
        }
    }

    /// The language of the system's preferred locale, Chinese when it names none.
    pub fn detect_system() -> (r: Language)
        ensures
            exists|locale: Option<Seq<char>>| r == language_for_locale_spec(locale),
    {
        let locale = system_locale();
        let r = match &locale {
            Some(s) => Self::for_locale(Some(s.as_str())),
            None => Self::for_locale(None),
        };
        proof {
            let witness = match locale {
                Some(s) => Some(s@),
                None => None,
            };
            assert(r == language_for_locale_spec(witness));
        }
        r
    }
}

impl Default for Language {
    /// The language of the system's preferred locale, Chinese when it names none.
    fn default() -> (r: Self)
        ensures
            exists|locale: Option<Seq<char>>| r == language_for_locale_spec(locale),
    {
        Self::detect_system()
    }
}

/// The texts of the user interface in `lang`.
pub fn get_text(lang: Language) -> (r: TextBundle)
    ensures
        r == texts_for(lang),
{
    match lang {
        Language::Zh => zh_text_bundle(),
        Language::En => en_text_bundle(),
        Language::Ja => ja_text_bundle(),
    }
}

/// The save and clipboard buttons of the screenshot toolbar say what they do in every
/// language: the save button saves to the desktop and the clipboard button copies to the
/// clipboard, and the cancel button cancels.
pub proof fn lemma_toolbar_tooltips(lang: Language)
    ensures
        lang == Language::En ==> {
            &&& texts_for(lang).tooltip.save@ == "Save to Desktop"@
            &&& texts_for(lang).tooltip.save_to_clipboard@ == "Copy to Clipboard"@
            &&& texts_for(lang).tooltip.cancel@ == "Cancel"@
        },
        lang == Language::Zh ==> {
            &&& texts_for(lang).tooltip.save@ == "保存到桌面"@
            &&& texts_for(lang).tooltip.save_to_clipboard@ == "复制到剪贴板"@
            &&& texts_for(lang).tooltip.cancel@ == "取消"@
        },
        lang == Language::Ja ==> {
            &&& texts_for(lang).tooltip.save@ == "デスクトップに保存"@
            &&& texts_for(lang).tooltip.save_to_clipboard@ == "クリップボードにコピー"@
            &&& texts_for(lang).tooltip.cancel@ == "キャンセル"@
        },
{
}

} // verus!
