//! Language codes to the country codes that pick a flag icon.
//!
//! A code such as `pt_BR` names its country after the first underscore; a bare
//! language such as `ja` falls back to the country where it is chiefly spoken.
//! Unknown codes map to `GLOBE`, the neutral icon.

use vstd::prelude::*;
use vstd::string::*;

verus! {

/// Country codes that have a flag icon.
pub open spec fn known_countries() -> Seq<Seq<char>> {
    seq![
        "AR"@, "BO"@, "BR"@, "CA"@, "CL"@, "CO"@, "CR"@, "CU"@,
        "DO"@, "EC"@, "MX"@, "PA"@, "PE"@, "PY"@, "US"@, "UY"@,
        "VE"@, "AL"@, "AT"@, "BG"@, "BY"@, "CH"@, "CZ"@, "DE"@,
        "DK"@, "EE"@, "ES"@, "FI"@, "FR"@, "GB"@, "GR"@, "HR"@,
        "HU"@, "IE"@, "IS"@, "IT"@, "LT"@, "LV"@, "MK"@, "MT"@,
        "NL"@, "NO"@, "PL"@, "PT"@, "RO"@, "RS"@, "RU"@, "SE"@,
        "SI"@, "SK"@, "TR"@, "UA"@, "AZ"@, "BD"@, "CN"@, "GE"@,
        "HK"@, "ID"@, "IL"@, "IN"@, "IQ"@, "IR"@, "JO"@, "JP"@,
        "KG"@, "KH"@, "KR"@, "KZ"@, "LA"@, "LK"@, "MM"@, "MN"@,
        "MY"@, "NP"@, "PK"@, "PH"@, "SA"@, "TH"@, "TW"@, "UZ"@,
        "VN"@, "AE"@, "EG"@, "ER"@, "ET"@, "GH"@, "KE"@, "MG"@,
        "ML"@, "MW"@, "NG"@, "RW"@, "SN"@, "SO"@, "UG"@, "ZA"@,
        "ZW"@, "AM"@,
    ]
}

/// Country codes that a `lang_COUNTRY` code may name directly.
pub open spec fn direct_countries() -> Seq<Seq<char>> {
    seq![
        "BR"@, "PT"@, "US"@, "GB"@, "AU"@, "CA"@, "ES"@, "MX"@,
        "AR"@, "CO"@, "FR"@, "DE"@, "AT"@, "CH"@, "IT"@, "NL"@,
        "PL"@, "RU"@, "TR"@, "GR"@, "CZ"@, "SK"@, "HU"@, "RO"@,
        "BG"@, "HR"@, "SI"@, "FI"@, "SE"@, "NO"@, "DK"@, "IS"@,
        "EE"@, "LV"@, "LT"@, "CN"@, "TW"@, "HK"@, "JP"@, "KR"@,
        "VN"@, "TH"@, "ID"@, "MY"@, "PH"@, "IN"@, "PK"@, "BD"@,
        "SA"@, "AE"@, "IL"@, "IR"@, "IQ"@, "JO"@, "ZA"@, "EG"@,
        "KE"@, "NG"@, "CL"@, "PE"@, "VE"@, "EC"@, "BO"@, "PY"@,
        "UY"@, "CR"@, "PA"@, "DO"@, "CU"@,
    ]
}

/// Each language's fallback country.
pub open spec fn language_countries() -> Seq<(Seq<char>, Seq<char>)> {
    seq![
        ("ar"@, "SA"@), ("he"@, "IL"@), ("fa"@, "IR"@), ("zh"@, "CN"@),
        ("ja"@, "JP"@), ("ko"@, "KR"@), ("vi"@, "VN"@), ("th"@, "TH"@),
        ("km"@, "KH"@), ("lo"@, "LA"@), ("my"@, "MM"@), ("mn"@, "MN"@),
        ("hi"@, "IN"@), ("ur"@, "PK"@), ("bn"@, "BD"@), ("ta"@, "IN"@),
        ("te"@, "IN"@), ("ml"@, "IN"@), ("kn"@, "IN"@), ("gu"@, "IN"@),
        ("pa"@, "IN"@), ("mr"@, "IN"@), ("ne"@, "NP"@), ("si"@, "LK"@),
        ("cs"@, "CZ"@), ("sk"@, "SK"@), ("hu"@, "HU"@), ("ro"@, "RO"@),
        ("bg"@, "BG"@), ("hr"@, "HR"@), ("sr"@, "RS"@), ("sl"@, "SI"@),
        ("et"@, "EE"@), ("lv"@, "LV"@), ("lt"@, "LT"@), ("fi"@, "FI"@),
        ("sv"@, "SE"@), ("no"@, "NO"@), ("da"@, "DK"@), ("is"@, "IS"@),
        ("ca"@, "ES"@), ("eu"@, "ES"@), ("gl"@, "ES"@), ("uk"@, "UA"@),
        ("be"@, "BY"@), ("mk"@, "MK"@), ("sq"@, "AL"@), ("mt"@, "MT"@),
        ("ga"@, "IE"@), ("cy"@, "GB"@), ("ka"@, "GE"@), ("hy"@, "AM"@),
        ("az"@, "AZ"@), ("kk"@, "KZ"@), ("ky"@, "KG"@), ("uz"@, "UZ"@),
        ("sw"@, "KE"@), ("af"@, "ZA"@), ("am"@, "ET"@), ("yo"@, "NG"@),
        ("ig"@, "NG"@), ("ha"@, "NG"@), ("zu"@, "ZA"@), ("xh"@, "ZA"@),
        ("st"@, "ZA"@), ("tn"@, "ZA"@), ("sn"@, "ZW"@), ("ny"@, "MW"@),
        ("so"@, "SO"@), ("om"@, "ET"@), ("ti"@, "ER"@), ("mg"@, "MG"@),
        ("rw"@, "RW"@), ("lg"@, "UG"@), ("ak"@, "GH"@), ("ff"@, "SN"@),
        ("wo"@, "SN"@), ("bm"@, "ML"@), ("ee"@, "GH"@), ("tw"@, "GH"@),
    ]
}

fn known_country_table() -> (r: Vec<&'static str>)
    ensures
        r@.map_values(|c: &str| c@) == known_countries(),
{
    let r = vec![
        "AR", "BO", "BR", "CA", "CL", "CO", "CR", "CU",
        "DO", "EC", "MX", "PA", "PE", "PY", "US", "UY",
        "VE", "AL", "AT", "BG", "BY", "CH", "CZ", "DE",
        "DK", "EE", "ES", "FI", "FR", "GB", "GR", "HR",
        "HU", "IE", "IS", "IT", "LT", "LV", "MK", "MT",
        "NL", "NO", "PL", "PT", "RO", "RS", "RU", "SE",
        "SI", "SK", "TR", "UA", "AZ", "BD", "CN", "GE",
        "HK", "ID", "IL", "IN", "IQ", "IR", "JO", "JP",
        "KG", "KH", "KR", "KZ", "LA", "LK", "MM", "MN",
        "MY", "NP", "PK", "PH", "SA", "TH", "TW", "UZ",
        "VN", "AE", "EG", "ER", "ET", "GH", "KE", "MG",
        "ML", "MW", "NG", "RW", "SN", "SO", "UG", "ZA",
        "ZW", "AM",
    ];
    assert(r@.map_values(|c: &str| c@) =~= known_countries());
    r
}

fn direct_country_table() -> (r: Vec<&'static str>)
    ensures
        r@.map_values(|c: &str| c@) == direct_countries(),
{
    let r = vec![
        "BR", "PT", "US", "GB", "AU", "CA", "ES", "MX",
        "AR", "CO", "FR", "DE", "AT", "CH", "IT", "NL",
        "PL", "RU", "TR", "GR", "CZ", "SK", "HU", "RO",
        "BG", "HR", "SI", "FI", "SE", "NO", "DK", "IS",
        "EE", "LV", "LT", "CN", "TW", "HK", "JP", "KR",
        "VN", "TH", "ID", "MY", "PH", "IN", "PK", "BD",
        "SA", "AE", "IL", "IR", "IQ", "JO", "ZA", "EG",
        "KE", "NG", "CL", "PE", "VE", "EC", "BO", "PY",
        "UY", "CR", "PA", "DO", "CU",
    ];
    assert(r@.map_values(|c: &str| c@) =~= direct_countries());
    r
}

fn language_country_table() -> (r: Vec<(&'static str, &'static str)>)
    ensures
        r@.map_values(|p: (&str, &str)| (p.0@, p.1@)) == language_countries(),
{
    let r = vec![
        ("ar", "SA"), ("he", "IL"), ("fa", "IR"), ("zh", "CN"),
        ("ja", "JP"), ("ko", "KR"), ("vi", "VN"), ("th", "TH"),
        ("km", "KH"), ("lo", "LA"), ("my", "MM"), ("mn", "MN"),
        ("hi", "IN"), ("ur", "PK"), ("bn", "BD"), ("ta", "IN"),
        ("te", "IN"), ("ml", "IN"), ("kn", "IN"), ("gu", "IN"),
        ("pa", "IN"), ("mr", "IN"), ("ne", "NP"), ("si", "LK"),
        ("cs", "CZ"), ("sk", "SK"), ("hu", "HU"), ("ro", "RO"),
        ("bg", "BG"), ("hr", "HR"), ("sr", "RS"), ("sl", "SI"),
        ("et", "EE"), ("lv", "LV"), ("lt", "LT"), ("fi", "FI"),
        ("sv", "SE"), ("no", "NO"), ("da", "DK"), ("is", "IS"),
        ("ca", "ES"), ("eu", "ES"), ("gl", "ES"), ("uk", "UA"),
        ("be", "BY"), ("mk", "MK"), ("sq", "AL"), ("mt", "MT"),
        ("ga", "IE"), ("cy", "GB"), ("ka", "GE"), ("hy", "AM"),
        ("az", "AZ"), ("kk", "KZ"), ("ky", "KG"), ("uz", "UZ"),
        ("sw", "KE"), ("af", "ZA"), ("am", "ET"), ("yo", "NG"),
        ("ig", "NG"), ("ha", "NG"), ("zu", "ZA"), ("xh", "ZA"),
        ("st", "ZA"), ("tn", "ZA"), ("sn", "ZW"), ("ny", "MW"),
        ("so", "SO"), ("om", "ET"), ("ti", "ER"), ("mg", "MG"),
        ("rw", "RW"), ("lg", "UG"), ("ak", "GH"), ("ff", "SN"),
        ("wo", "SN"), ("bm", "ML"), ("ee", "GH"), ("tw", "GH"),
    ];
    assert(r@.map_values(|p: (&str, &str)| (p.0@, p.1@)) =~= language_countries());
    r
}

/// Index of the first underscore in `s`, or its length when there is none.
pub open spec fn sep_index(s: Seq<char>) -> nat
    decreases s.len(),
{
    if s.len() == 0 || s[0] == '_' {
        0
    } else {
        1 + sep_index(s.drop_first())
    }
}

/// The language: what precedes the first underscore.
pub open spec fn language_part(s: Seq<char>) -> Seq<char> {
    s.take(sep_index(s) as int)
}

/// The country: the segment between the first underscore and the next, if
/// there is an underscore at all.
pub open spec fn country_part(s: Seq<char>) -> Option<Seq<char>> {
    let k = sep_index(s);
    if k < s.len() {
        let rest = s.skip(k + 1 as int);
        Some(rest.take(sep_index(rest) as int))
    } else {
        None
    }
}

/// The value of the first entry of `t` from index `i` on whose key is `k`.
pub open spec fn lookup_from(t: Seq<(Seq<char>, Seq<char>)>, k: Seq<char>, i: int) -> Option<
    Seq<char>,
>
    decreases t.len() - i,
{
    if i < 0 || i >= t.len() {
        None
    } else if t[i].0 == k {
        Some(t[i].1)
    } else {
        lookup_from(t, k, i + 1)
    }
}

/// The country code whose flag stands for a language code.
pub open spec fn country_for_language(s: Seq<char>) -> Seq<char> {
    let c = country_part(s);
    if c is Some && known_countries().contains(c->Some_0) {
        if direct_countries().contains(c->Some_0) {
            c->Some_0
        } else {
            "GLOBE"@
        }
    } else {
        match lookup_from(language_countries(), language_part(s), 0) {
            Some(country) => country,
            None => "GLOBE"@,
        }
    }
}

proof fn lemma_sep_index(s: Seq<char>, i: int)
    requires
        0 <= i <= s.len(),
        forall|j: int| 0 <= j < i ==> s[j] != '_',
        i == s.len() || s[i] == '_',
    ensures
        sep_index(s) == i,
    decreases i,
{
    if i > 0 {
        let t = s.drop_first();
        assert forall|j: int| 0 <= j < i - 1 implies t[j] != '_' by {
            assert(t[j] == s[j + 1]);
        }
        lemma_sep_index(t, i - 1);
    }
}

fn find_sep(s: &str) -> (r: usize)
    ensures
        r as nat == sep_index(s@),
        r as nat <= s@.len(),
{
    let n = s.unicode_len();
    let mut i: usize = 0;
    while i < n
        invariant
            n == s@.len(),
            i <= n,
            forall|j: int| 0 <= j < i ==> s@[j] != '_',
        decreases n - i,
    {
        if s.get_char(i) == '_' {
            proof {
                lemma_sep_index(s@, i as int);
            }
            return i;
        }
        i += 1;
    }
    proof {
        lemma_sep_index(s@, i as int);
    }
    i
}

fn same_text(a: &str, b: &str) -> (r: bool)
    ensures
        r == (a@ == b@),
{
    let n = a.unicode_len();
    if n != b.unicode_len() {
        return false;
    }
    let mut i: usize = 0;
    while i < n
        invariant
            n == a@.len(),
            n == b@.len(),
            i <= n,
            forall|j: int| 0 <= j < i ==> a@[j] == b@[j],
        decreases n - i,
    {
        if a.get_char(i) != b.get_char(i) {
            return false;
        }
        i += 1;
    }
    assert(a@ =~= b@);
    true
}

fn find_text(t: &Vec<&'static str>, k: &str) -> (r: Option<usize>)
    ensures
        r is None <==> !t@.map_values(|c: &str| c@).contains(k@),
        r is Some ==> r->Some_0 < t@.len() && t@[r->Some_0 as int]@ == k@,
{
    let ghost v = t@.map_values(|c: &str| c@);
    let mut i: usize = 0;
    while i < t.len()
        invariant
            i <= t@.len(),
            v == t@.map_values(|c: &str| c@),
            forall|j: int| 0 <= j < i ==> v[j] != k@,
        decreases t@.len() - i,
    {
        if same_text(t[i], k) {
            assert(v[i as int] == k@);
            return Some(i);
        }
        i += 1;
    }
    None
}

fn find_language(t: &Vec<(&'static str, &'static str)>, k: &str) -> (r: Option<&'static str>)
    ensures
        match lookup_from(t@.map_values(|p: (&str, &str)| (p.0@, p.1@)), k@, 0) {
            Some(c) => r is Some && r->Some_0@ == c,
            None => r is None,
        },
{
    let ghost v = t@.map_values(|p: (&str, &str)| (p.0@, p.1@));
    let mut i: usize = 0;
    while i < t.len()
        invariant
            i <= t@.len(),
            v == t@.map_values(|p: (&str, &str)| (p.0@, p.1@)),
            lookup_from(v, k@, 0) == lookup_from(v, k@, i as int),
        decreases t@.len() - i,
    {
        let (key, country) = t[i];
        if same_text(key, k) {
            return Some(country);
        }
        i += 1;
    }
    None
}

/// Maps a language code (`pt_BR`, `ja`) to the country code of its flag.
/// A known country after the first underscore is taken as it stands if it
/// has its own entry, else the globe; otherwise the language's own fallback
/// country, or the globe (`GLOBE`) for an unknown language.
pub fn lang_to_country(lang_code: &str) -> (r: &'static str)
    ensures
        r@ == country_for_language(lang_code@),
{
    let n = lang_code.unicode_len();
    let k = find_sep(lang_code);
    if k < n {
        let rest = lang_code.substring_char(k + 1, n);
        let m = find_sep(rest);
        let country = rest.substring_char(0, m);
        assert(country_part(lang_code@) == Some(country@));
        if find_text(&known_country_table(), country).is_some() {
            let direct = direct_country_table();
            return match find_text(&direct, country) {
                Some(i) => direct[i],
                None => "GLOBE",
            };
        }
    }
    let language = lang_code.substring_char(0, k);
    match find_language(&language_country_table(), language) {
        Some(c) => c,
        None => "GLOBE",
    }
}

} // verus!
