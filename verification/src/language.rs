//! The languages that speech can be transcribed in.

use crate::text::text_eq;
use vstd::prelude::*;
use vstd::string::*;

verus! {

/// A transcription language.
#[derive(Debug, Clone, Copy, PartialEq, Eq, Structural)]
pub enum Language {
    EN,
    PL,
    DE,
    CN,
    FR,
    IT,
    ES,
    PT,
    RU,
    UA,
    JP,
    TR,
}

impl Language {
    /// Every language, in the order in which they are offered.
    pub open spec fn spec_all() -> Seq<Language> {
        seq![
            Language::EN,
            Language::PL,
            Language::DE,
            Language::CN,
            Language::FR,
            Language::IT,
            Language::ES,
            Language::PT,
            Language::RU,
            Language::UA,
            Language::JP,
            Language::TR,
        ]
    }

    /// The name of the language: two capital letters.
    pub open spec fn name(self) -> Seq<char> {
        match self {
            Language::EN => seq!['E', 'N'],
            Language::PL => seq!['P', 'L'],
            Language::DE => seq!['D', 'E'],
            Language::CN => seq!['C', 'N'],
            Language::FR => seq!['F', 'R'],
            Language::IT => seq!['I', 'T'],
            Language::ES => seq!['E', 'S'],
            Language::PT => seq!['P', 'T'],
            Language::RU => seq!['R', 'U'],
            Language::UA => seq!['U', 'A'],
            Language::JP => seq!['J', 'P'],
            Language::TR => seq!['T', 'R'],
        }
    }

    /// The code of the language as a transcription engine takes it: the name in small letters.
    pub open spec fn code(self) -> Seq<char> {
        match self {
            Language::EN => seq!['e', 'n'],
            Language::PL => seq!['p', 'l'],
            Language::DE => seq!['d', 'e'],
            Language::CN => seq!['c', 'n'],
            Language::FR => seq!['f', 'r'],
            Language::IT => seq!['i', 't'],
            Language::ES => seq!['e', 's'],
            Language::PT => seq!['p', 't'],
            Language::RU => seq!['r', 'u'],
            Language::UA => seq!['u', 'a'],
            Language::JP => seq!['j', 'p'],
            Language::TR => seq!['t', 'r'],
        }
    }

    /// The language that `name` names. A text that names none stands for the first language.
    pub open spec fn parse(name: Seq<char>) -> Language {
        if exists|l: Language| l.name() == name {
            choose|l: Language| l.name() == name
        } else {
            Language::EN
        }
    }

    /// Every language, in the order in which they are offered.
    pub fn all() -> (r: Vec<Language>)
        ensures
            r@ == Language::spec_all(),
    {
        let mut r: Vec<Language> = Vec::new();
        r.push(Language::EN);
        r.push(Language::PL);
        r.push(Language::DE);
        r.push(Language::CN);
        r.push(Language::FR);
        r.push(Language::IT);
        r.push(Language::ES);
        r.push(Language::PT);
        r.push(Language::RU);
        r.push(Language::UA);
        r.push(Language::JP);
        r.push(Language::TR);
        r
    }

    /// The name of the language.
    pub fn as_str(&self) -> (r: &'static str)
        ensures
            r@ == self.name(),
    {
        proof {
            reveal_names();
        }
        match self {
            Language::EN => "EN",
            Language::PL => "PL",
            Language::DE => "DE",
            Language::CN => "CN",
            Language::FR => "FR",
            Language::IT => "IT",
            Language::ES => "ES",
            Language::PT => "PT",
            Language::RU => "RU",
            Language::UA => "UA",
            Language::JP => "JP",
            Language::TR => "TR",
        }
    }

    /// The name of the language, as an owned string.
    pub fn to_string(&self) -> (r: String)
        ensures
            r@ == self.name(),
    {
        String::from_str(self.as_str())
    }

    /// The code of the language in small letters.
    pub fn lowercase_code(&self) -> (r: &'static str)
        ensures
            r@ == self.code(),
    {
        proof {
            reveal_codes();
        }
        match self {
            Language::EN => "en",
            Language::PL => "pl",
            Language::DE => "de",
            Language::CN => "cn",
            Language::FR => "fr",
            Language::IT => "it",
            Language::ES => "es",
            Language::PT => "pt",
            Language::RU => "ru",
            Language::UA => "ua",
            Language::JP => "jp",
            Language::TR => "tr",
        }
    }

    /// The language that `name` names; the first language where it names none.
    pub fn from_name(name: &str) -> (r: Language)
        ensures
            r == Language::parse(name@),
    {
        let all = Language::all();
        let mut i: usize = 0;
        while i < all.len()
            invariant
                all@ == Language::spec_all(),
                i <= all.len(),
                forall|k: int| 0 <= k < i ==> (#[trigger] all@[k]).name() != name@,
            decreases all.len() - i,
        {
            let candidate = all[i];
            if text_eq(candidate.as_str(), name) {
                return candidate;
            }
            i += 1;
        }
        Language::EN
    }
}

impl Default for Language {
    fn default() -> (r: Self)
        ensures
            r == Language::EN,
    {
        Language::EN
    }
}

impl From<String> for Language {
    fn from(name: String) -> (r: Language) {
        Language::from_name(name.as_str())
    }
}

impl vstd::std_specs::convert::FromSpecImpl<String> for Language {
    open spec fn obeys_from_spec() -> bool {
        true
    }

    open spec fn from_spec(name: String) -> Language {
        Language::parse(name@)
    }
}

/// What the literals of the names hold.
proof fn reveal_names()
    ensures
        "EN"@ == Language::EN.name(),
        "PL"@ == Language::PL.name(),
        "DE"@ == Language::DE.name(),
        "CN"@ == Language::CN.name(),
        "FR"@ == Language::FR.name(),
        "IT"@ == Language::IT.name(),
        "ES"@ == Language::ES.name(),
        "PT"@ == Language::PT.name(),
        "RU"@ == Language::RU.name(),
        "UA"@ == Language::UA.name(),
        "JP"@ == Language::JP.name(),
        "TR"@ == Language::TR.name(),
{
    reveal_strlit("EN");
    reveal_strlit("PL");
    reveal_strlit("DE");
    reveal_strlit("CN");
    reveal_strlit("FR");
    reveal_strlit("IT");
    reveal_strlit("ES");
    reveal_strlit("PT");
    reveal_strlit("RU");
    reveal_strlit("UA");
    reveal_strlit("JP");
    reveal_strlit("TR");
}

/// What the literals of the codes hold.
proof fn reveal_codes()
    ensures
        "en"@ == Language::EN.code(),
        "pl"@ == Language::PL.code(),
        "de"@ == Language::DE.code(),
        "cn"@ == Language::CN.code(),
        "fr"@ == Language::FR.code(),
        "it"@ == Language::IT.code(),
        "es"@ == Language::ES.code(),
        "pt"@ == Language::PT.code(),
        "ru"@ == Language::RU.code(),
        "ua"@ == Language::UA.code(),
        "jp"@ == Language::JP.code(),
        "tr"@ == Language::TR.code(),
{
    reveal_strlit("en");
    reveal_strlit("pl");
    reveal_strlit("de");
    reveal_strlit("cn");
    reveal_strlit("fr");
    reveal_strlit("it");
    reveal_strlit("es");
    reveal_strlit("pt");
    reveal_strlit("ru");
    reveal_strlit("ua");
    reveal_strlit("jp");
    reveal_strlit("tr");
}

/// No two languages share a name.
pub proof fn law_names_differ()
    ensures
        forall|a: Language, b: Language| a.name() == b.name() ==> a == b,
{
}

/// Every language is offered.
pub proof fn law_all_is_complete()
    ensures
        forall|l: Language| #[trigger] Language::spec_all().contains(l),
{
    assert forall|l: Language| #[trigger] Language::spec_all().contains(l) by {
        let k: int = match l {
            Language::EN => 0,
            Language::PL => 1,
            Language::DE => 2,
            Language::CN => 3,
            Language::FR => 4,
            Language::IT => 5,
            Language::ES => 6,
            Language::PT => 7,
            Language::RU => 8,
            Language::UA => 9,
            Language::JP => 10,
            Language::TR => 11,
        };
    }
}

/// Reading back the name of a language gives that language.
pub proof fn law_name_round_trip(l: Language)
    ensures
        Language::parse(l.name()) == l,
{
}

/// The code of a language is its name with each capital folded to its small letter.
pub proof fn law_code_is_lowercase_name(l: Language)
    ensures
        l.code().len() == l.name().len(),
        forall|i: int|
            0 <= i < l.name().len() ==> (#[trigger] l.code()[i]) as u32 == l.name()[i] as u32 + 32,
{
}

} // verus!
