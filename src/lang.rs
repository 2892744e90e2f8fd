use vstd::prelude::*;

verus! {

/// A language that input text is written in, or that a translation is wanted in.
/// `Auto` asks the backend to detect the source language.
#[derive(Clone, Copy, Debug, PartialEq, Eq, Structural)]
pub enum Lang {
    Zh,
    En,
    Ja,
    Ko,
    Auto,
}

/// The English display name of a language, used in prompts.
pub open spec fn full_name_of(l: Lang) -> Seq<char> {
    match l {
        Lang::Zh => "chinese"@,
        Lang::En => "english"@,
        Lang::Ja => "japanese"@,
        Lang::Ko => "korean"@,
        Lang::Auto => "auto"@,
    }
}

/// The short wire code of a language.
pub open spec fn code_of(l: Lang) -> Seq<char> {
    match l {
        Lang::Zh => "zh"@,
        Lang::En => "en"@,
        Lang::Ja => "ja"@,
        Lang::Ko => "ko"@,
        Lang::Auto => "auto"@,
    }
}

impl Lang {
    pub fn to_full_name(self) -> (r: &'static str)
        ensures
            r@ == full_name_of(self),
    {
        match self {
            Lang::Zh => "chinese",
            Lang::En => "english",
            Lang::Ja => "japanese",
            Lang::Ko => "korean",
            Lang::Auto => "auto",
        }
    }

    pub fn code(self) -> (r: &'static str)
        ensures
            r@ == code_of(self),
    {
        match self {
            Lang::Zh => "zh",
            Lang::En => "en",
            Lang::Ja => "ja",
            Lang::Ko => "ko",
            Lang::Auto => "auto",
        }
    }
}

/// The short code as an owned string. Verified callers use `Lang::code`,
/// whose contract states the code.
impl From<Lang> for String {
    fn from(val: Lang) -> (r: String) {
        String::from_str(val.code())
    }
}

impl vstd::std_specs::convert::FromSpecImpl<Lang> for String {
    open spec fn obeys_from_spec() -> bool {
        false
    }

    open spec fn from_spec(val: Lang) -> String {
        arbitrary()
    }
}

/// Every language has a non-empty code and display name, and no two
/// languages share a code or a display name. `code` and `to_full_name`
/// return exactly these, on every call.
pub proof fn lang_labels_total(a: Lang, b: Lang)
    ensures
        code_of(a).len() > 0,
        full_name_of(a).len() > 0,
        code_of(a) == code_of(b) ==> a == b,
        full_name_of(a) == full_name_of(b) ==> a == b,
{
    reveal_strlit("zh");
    reveal_strlit("en");
    reveal_strlit("ja");
    reveal_strlit("ko");
    reveal_strlit("auto");
    reveal_strlit("chinese");
    reveal_strlit("english");
    reveal_strlit("japanese");
    reveal_strlit("korean");
    if code_of(a) == code_of(b) && a != b {
        assert(code_of(a)[0] != code_of(b)[0] || code_of(a)[1] != code_of(b)[1]);
    }
    if full_name_of(a) == full_name_of(b) && a != b {
        assert(full_name_of(a)[0] != full_name_of(b)[0] || full_name_of(a)[1] != full_name_of(b)[1]);
    }
}

} // verus!
