//! The lexicon of the Irish locale: the words that terminal rules recognise,
//! looked up by their accent-folded form.
use vstd::prelude::*;
use crate::dimension::MoneyUnit;
use crate::text::chars_eq_str;

verus! {

/// The value of a cardinal word from zero to ten ("dhá", "beirt", "déag").
pub open spec fn cardinal_of(w: Seq<char>) -> Option<int> {
    if w == "naid"@ {
        Some(0)
    } else if w == "aon"@ || w == "haon"@ || w == "t-aon"@ || w == "taon"@ || w == "amhain"@ {
        Some(1)
    } else if w == "dha"@ || w == "beirt"@ || w == "bheirt"@ || w == "mbeirt"@ || w == "mbheirt"@ || w == "cupla"@ {
        Some(2)
    } else if w == "tri"@ {
        Some(3)
    } else if w == "ceithre"@ {
        Some(4)
    } else if w == "cuig"@ {
        Some(5)
    } else if w == "se"@ {
        Some(6)
    } else if w == "seacht"@ {
        Some(7)
    } else if w == "ocht"@ || w == "hocht"@ || w == "tocht"@ || w == "t-ocht"@ {
        Some(8)
    } else if w == "naoi"@ {
        Some(9)
    } else if w == "deich"@ || w == "deag"@ || w == "dheag"@ || w == "ndeag"@ || w == "ndheag"@ {
        Some(10)
    } else {
        None
    }
}

pub fn cardinal_lookup(w: &Vec<char>) -> (r: Option<i64>)
    ensures
        r matches Some(v) ==> cardinal_of(w@) == Some(v as int),
        r is None ==> cardinal_of(w@) is None,
{
    if chars_eq_str(w, "naid") {
        Some(0)
    } else if chars_eq_str(w, "aon") || chars_eq_str(w, "haon") || chars_eq_str(w, "t-aon") || chars_eq_str(w, "taon") || chars_eq_str(w, "amhain") {
        Some(1)
    } else if chars_eq_str(w, "dha") || chars_eq_str(w, "beirt") || chars_eq_str(w, "bheirt") || chars_eq_str(w, "mbeirt") || chars_eq_str(w, "mbheirt") || chars_eq_str(w, "cupla") {
        Some(2)
    } else if chars_eq_str(w, "tri") {
        Some(3)
    } else if chars_eq_str(w, "ceithre") {
        Some(4)
    } else if chars_eq_str(w, "cuig") {
        Some(5)
    } else if chars_eq_str(w, "se") {
        Some(6)
    } else if chars_eq_str(w, "seacht") {
        Some(7)
    } else if chars_eq_str(w, "ocht") || chars_eq_str(w, "hocht") || chars_eq_str(w, "tocht") || chars_eq_str(w, "t-ocht") {
        Some(8)
    } else if chars_eq_str(w, "naoi") {
        Some(9)
    } else if chars_eq_str(w, "deich") || chars_eq_str(w, "deag") || chars_eq_str(w, "dheag") || chars_eq_str(w, "ndeag") || chars_eq_str(w, "ndheag") {
        Some(10)
    } else {
        None
    }
}

/// The value of a word for a multiple of ten from twenty to ninety.
pub open spec fn tens_of(w: Seq<char>) -> Option<int> {
    if w == "fiche"@ {
        Some(20)
    } else if w == "triocha"@ {
        Some(30)
    } else if w == "daichead"@ {
        Some(40)
    } else if w == "caoga"@ {
        Some(50)
    } else if w == "seasca"@ {
        Some(60)
    } else if w == "seachto"@ {
        Some(70)
    } else if w == "ochto"@ {
        Some(80)
    } else if w == "nocha"@ {
        Some(90)
    } else {
        None
    }
}

pub fn tens_lookup(w: &Vec<char>) -> (r: Option<i64>)
    ensures
        r matches Some(v) ==> tens_of(w@) == Some(v as int),
        r is None ==> tens_of(w@) is None,
{
    if chars_eq_str(w, "fiche") {
        Some(20)
    } else if chars_eq_str(w, "triocha") {
        Some(30)
    } else if chars_eq_str(w, "daichead") {
        Some(40)
    } else if chars_eq_str(w, "caoga") {
        Some(50)
    } else if chars_eq_str(w, "seasca") {
        Some(60)
    } else if chars_eq_str(w, "seachto") {
        Some(70)
    } else if chars_eq_str(w, "ochto") {
        Some(80)
    } else if chars_eq_str(w, "nocha") {
        Some(90)
    } else {
        None
    }
}

/// The value and grain of a scale word: hundred, thousand, million, billion.
pub open spec fn scale_of(w: Seq<char>) -> Option<(int, int)> {
    if w == "cead"@ || w == "gcead"@ || w == "chead"@ || w == "gchead"@ {
        Some((100, 2))
    } else if w == "mile"@ || w == "mhile"@ || w == "milte"@ || w == "mhilte"@ {
        Some((1000, 3))
    } else if w == "milliun"@ || w == "miliun"@ || w == "milliuin"@ || w == "miliuin"@ || w == "mhilliun"@ || w == "mhiliun"@ || w == "mhilliuin"@ || w == "mhiliuin"@ {
        Some((1_000_000, 6))
    } else if w == "billiun"@ || w == "biliun"@ || w == "billiuin"@ || w == "biliuin"@ || w == "bhilliun"@ || w == "bhiliun"@ || w == "bhilliuin"@ || w == "bhiliuin"@ || w == "mbilliun"@ || w == "mbiliun"@ || w == "mbilliuin"@ || w == "mbiliuin"@ || w == "mbhilliun"@ || w == "mbhiliun"@ || w == "mbhilliuin"@ || w == "mbhiliuin"@ {
        Some((1_000_000_000, 9))
    } else {
        None
    }
}

pub fn scale_lookup(w: &Vec<char>) -> (r: Option<(i64, u8)>)
    ensures
        r matches Some(v) ==> scale_of(w@) == Some((v.0 as int, v.1 as int)),
        r is None ==> scale_of(w@) is None,
{
    if chars_eq_str(w, "cead") || chars_eq_str(w, "gcead") || chars_eq_str(w, "chead") || chars_eq_str(w, "gchead") {
        Some((100, 2))
    } else if chars_eq_str(w, "mile") || chars_eq_str(w, "mhile") || chars_eq_str(w, "milte") || chars_eq_str(w, "mhilte") {
        Some((1000, 3))
    } else if chars_eq_str(w, "milliun") || chars_eq_str(w, "miliun") || chars_eq_str(w, "milliuin") || chars_eq_str(w, "miliuin") || chars_eq_str(w, "mhilliun") || chars_eq_str(w, "mhiliun") || chars_eq_str(w, "mhilliuin") || chars_eq_str(w, "mhiliuin") {
        Some((1_000_000, 6))
    } else if chars_eq_str(w, "billiun") || chars_eq_str(w, "biliun") || chars_eq_str(w, "billiuin") || chars_eq_str(w, "biliuin") || chars_eq_str(w, "bhilliun") || chars_eq_str(w, "bhiliun") || chars_eq_str(w, "bhilliuin") || chars_eq_str(w, "bhiliuin") || chars_eq_str(w, "mbilliun") || chars_eq_str(w, "mbiliun") || chars_eq_str(w, "mbilliuin") || chars_eq_str(w, "mbiliuin") || chars_eq_str(w, "mbhilliun") || chars_eq_str(w, "mbhiliun") || chars_eq_str(w, "mbhilliuin") || chars_eq_str(w, "mbhiliuin") {
        Some((1_000_000_000, 9))
    } else {
        None
    }
}

/// The value of an ordinal word ("tríú", "fichiú").
pub open spec fn ordinal_of(w: Seq<char>) -> Option<int> {
    if w == "aonu"@ || w == "haonu"@ || w == "t-aonu"@ || w == "taonu"@ || w == "chead"@ {
        Some(1)
    } else if w == "dara"@ {
        Some(2)
    } else if w == "triu"@ {
        Some(3)
    } else if w == "ceathru"@ {
        Some(4)
    } else if w == "cuigiu"@ {
        Some(5)
    } else if w == "seu"@ {
        Some(6)
    } else if w == "seachtu"@ {
        Some(7)
    } else if w == "ochtu"@ || w == "hochtu"@ || w == "t-ochtu"@ || w == "tochtu"@ {
        Some(8)
    } else if w == "naou"@ {
        Some(9)
    } else if w == "deichiu"@ {
        Some(10)
    } else if w == "fichiu"@ {
        Some(20)
    } else if w == "triochadu"@ {
        Some(30)
    } else if w == "daicheadu"@ {
        Some(40)
    } else if w == "caogadu"@ {
        Some(50)
    } else if w == "seascadu"@ {
        Some(60)
    } else if w == "seachtodu"@ {
        Some(70)
    } else if w == "ochtodu"@ || w == "hochtodu"@ || w == "t-ochtodu"@ || w == "tochtodu"@ {
        Some(80)
    } else if w == "nochadu"@ {
        Some(90)
    } else {
        None
    }
}

pub fn ordinal_lookup(w: &Vec<char>) -> (r: Option<i64>)
    ensures
        r matches Some(v) ==> ordinal_of(w@) == Some(v as int),
        r is None ==> ordinal_of(w@) is None,
{
    if chars_eq_str(w, "aonu") || chars_eq_str(w, "haonu") || chars_eq_str(w, "t-aonu") || chars_eq_str(w, "taonu") || chars_eq_str(w, "chead") {
        Some(1)
    } else if chars_eq_str(w, "dara") {
        Some(2)
    } else if chars_eq_str(w, "triu") {
        Some(3)
    } else if chars_eq_str(w, "ceathru") {
        Some(4)
    } else if chars_eq_str(w, "cuigiu") {
        Some(5)
    } else if chars_eq_str(w, "seu") {
        Some(6)
    } else if chars_eq_str(w, "seachtu") {
        Some(7)
    } else if chars_eq_str(w, "ochtu") || chars_eq_str(w, "hochtu") || chars_eq_str(w, "t-ochtu") || chars_eq_str(w, "tochtu") {
        Some(8)
    } else if chars_eq_str(w, "naou") {
        Some(9)
    } else if chars_eq_str(w, "deichiu") {
        Some(10)
    } else if chars_eq_str(w, "fichiu") {
        Some(20)
    } else if chars_eq_str(w, "triochadu") {
        Some(30)
    } else if chars_eq_str(w, "daicheadu") {
        Some(40)
    } else if chars_eq_str(w, "caogadu") {
        Some(50)
    } else if chars_eq_str(w, "seascadu") {
        Some(60)
    } else if chars_eq_str(w, "seachtodu") {
        Some(70)
    } else if chars_eq_str(w, "ochtodu") || chars_eq_str(w, "hochtodu") || chars_eq_str(w, "t-ochtodu") || chars_eq_str(w, "tochtodu") {
        Some(80)
    } else if chars_eq_str(w, "nochadu") {
        Some(90)
    } else {
        None
    }
}

/// The value and grain of an ordinal scale word standing alone ("céadú", "míliú").
pub open spec fn ordinal_scale_of(w: Seq<char>) -> Option<(int, int)> {
    if w == "ceadu"@ || w == "cheadu"@ || w == "gceadu"@ || w == "gcheadu"@ {
        Some((100, 2))
    } else if w == "miliu"@ || w == "mhiliu"@ {
        Some((1000, 3))
    } else if w == "milliunu"@ || w == "miliunu"@ || w == "mhilliunu"@ || w == "mhiliunu"@ {
        Some((1_000_000, 6))
    } else if w == "billiunu"@ || w == "biliunu"@ || w == "bhilliunu"@ || w == "bhiliunu"@ || w == "mbilliunu"@ || w == "mbiliunu"@ || w == "mbhilliunu"@ || w == "mbhiliunu"@ {
        Some((1_000_000_000, 9))
    } else {
        None
    }
}

pub fn ordinal_scale_lookup(w: &Vec<char>) -> (r: Option<(i64, u8)>)
    ensures
        r matches Some(v) ==> ordinal_scale_of(w@) == Some((v.0 as int, v.1 as int)),
        r is None ==> ordinal_scale_of(w@) is None,
{
    if chars_eq_str(w, "ceadu") || chars_eq_str(w, "cheadu") || chars_eq_str(w, "gceadu") || chars_eq_str(w, "gcheadu") {
        Some((100, 2))
    } else if chars_eq_str(w, "miliu") || chars_eq_str(w, "mhiliu") {
        Some((1000, 3))
    } else if chars_eq_str(w, "milliunu") || chars_eq_str(w, "miliunu") || chars_eq_str(w, "mhilliunu") || chars_eq_str(w, "mhiliunu") {
        Some((1_000_000, 6))
    } else if chars_eq_str(w, "billiunu") || chars_eq_str(w, "biliunu") || chars_eq_str(w, "bhilliunu") || chars_eq_str(w, "bhiliunu") || chars_eq_str(w, "mbilliunu") || chars_eq_str(w, "mbiliunu") || chars_eq_str(w, "mbhilliunu") || chars_eq_str(w, "mbhiliunu") {
        Some((1_000_000_000, 9))
    } else {
        None
    }
}

/// The value and grain of an ordinal scale word after a multiplier ("trí chéadú").
pub open spec fn multiplied_ordinal_scale_of(w: Seq<char>) -> Option<(int, int)> {
    if w == "ceadu"@ || w == "cheadu"@ {
        Some((100, 2))
    } else if w == "miliu"@ || w == "mhiliu"@ {
        Some((1000, 3))
    } else if w == "milliunu"@ || w == "miliunu"@ || w == "mhilliunu"@ || w == "mhiliunu"@ {
        Some((1_000_000, 6))
    } else if w == "billiunu"@ || w == "biliunu"@ || w == "bhilliunu"@ || w == "bhiliunu"@ || w == "mbilliunu"@ || w == "mbiliunu"@ || w == "mbhilliunu"@ || w == "mbhiliunu"@ {
        Some((1_000_000_000, 9))
    } else {
        None
    }
}

pub fn multiplied_ordinal_scale_lookup(w: &Vec<char>) -> (r: Option<(i64, u8)>)
    ensures
        r matches Some(v) ==> multiplied_ordinal_scale_of(w@) == Some((v.0 as int, v.1 as int)),
        r is None ==> multiplied_ordinal_scale_of(w@) is None,
{
    if chars_eq_str(w, "ceadu") || chars_eq_str(w, "cheadu") {
        Some((100, 2))
    } else if chars_eq_str(w, "miliu") || chars_eq_str(w, "mhiliu") {
        Some((1000, 3))
    } else if chars_eq_str(w, "milliunu") || chars_eq_str(w, "miliunu") || chars_eq_str(w, "mhilliunu") || chars_eq_str(w, "mhiliunu") {
        Some((1_000_000, 6))
    } else if chars_eq_str(w, "billiunu") || chars_eq_str(w, "biliunu") || chars_eq_str(w, "bhilliunu") || chars_eq_str(w, "bhiliunu") || chars_eq_str(w, "mbilliunu") || chars_eq_str(w, "mbiliunu") || chars_eq_str(w, "mbhilliunu") || chars_eq_str(w, "mbhiliunu") {
        Some((1_000_000_000, 9))
    } else {
        None
    }
}

/// The multiplier of a magnitude suffix: k, m or g.
pub open spec fn suffix_of(w: Seq<char>) -> Option<int> {
    if w == "k"@ {
        Some(1000)
    } else if w == "m"@ {
        Some(1_000_000)
    } else if w == "g"@ {
        Some(1_000_000_000)
    } else {
        None
    }
}

pub fn suffix_lookup(w: &Vec<char>) -> (r: Option<i64>)
    ensures
        r matches Some(v) ==> suffix_of(w@) == Some(v as int),
        r is None ==> suffix_of(w@) is None,
{
    if chars_eq_str(w, "k") {
        Some(1000)
    } else if chars_eq_str(w, "m") {
        Some(1_000_000)
    } else if chars_eq_str(w, "g") {
        Some(1_000_000_000)
    } else {
        None
    }
}

/// The value of a word for a few, an approximate three.
pub open spec fn few_of(w: Seq<char>) -> Option<int> {
    if w == "roinnt"@ || w == "airithe"@ {
        Some(3)
    } else {
        None
    }
}

pub fn few_lookup(w: &Vec<char>) -> (r: Option<i64>)
    ensures
        r matches Some(v) ==> few_of(w@) == Some(v as int),
        r is None ==> few_of(w@) is None,
{
    if chars_eq_str(w, "roinnt") || chars_eq_str(w, "airithe") {
        Some(3)
    } else {
        None
    }
}

/// The value of a word for a group: a dozen.
pub open spec fn dozen_of(w: Seq<char>) -> Option<int> {
    if w == "dosaen"@ {
        Some(12)
    } else {
        None
    }
}

pub fn dozen_lookup(w: &Vec<char>) -> (r: Option<i64>)
    ensures
        r matches Some(v) ==> dozen_of(w@) == Some(v as int),
        r is None ==> dozen_of(w@) is None,
{
    if chars_eq_str(w, "dosaen") {
        Some(12)
    } else {
        None
    }
}

/// The currency a unit word or symbol names.
pub open spec fn money_unit_of(w: Seq<char>) -> Option<MoneyUnit> {
    if w == "$"@ || w == "dollar"@ || w == "dollair"@ || w == "dollars"@ || w == "dollairs"@ || w == "dhollar"@ || w == "dhollair"@ || w == "dhollars"@ || w == "dhollairs"@ || w == "ndollar"@ || w == "ndollair"@ || w == "ndollars"@ || w == "ndollairs"@ || w == "ndhollar"@ || w == "ndhollair"@ || w == "ndhollars"@ || w == "ndhollairs"@ {
        Some(MoneyUnit::Dollar)
    } else if w == "usd"@ || w == "us$"@ {
        Some(MoneyUnit::Usd)
    } else if w == "aud"@ || w == "au$"@ {
        Some(MoneyUnit::Aud)
    } else if w == "cad"@ {
        Some(MoneyUnit::Cad)
    } else if w == "hkd"@ {
        Some(MoneyUnit::Hkd)
    } else if w == "€"@ || w == "eur"@ || w == "euro"@ || w == "euros"@ || w == "eurs"@ {
        Some(MoneyUnit::Eur)
    } else if w == "£"@ || w == "pound"@ || w == "pounds"@ || w == "punt"@ || w == "puint"@ || w == "phunt"@ || w == "phuint"@ || w == "bpunt"@ || w == "bpuint"@ || w == "bphunt"@ || w == "bphuint"@ {
        Some(MoneyUnit::Pound)
    } else if w == "gbp"@ {
        Some(MoneyUnit::Gbp)
    } else if w == "chf"@ {
        Some(MoneyUnit::Chf)
    } else if w == "kr"@ || w == "krone"@ || w == "kroner"@ || w == "coroin"@ || w == "coron"@ || w == "coroinacha"@ || w == "choroin"@ || w == "choron"@ || w == "choroinacha"@ || w == "gcoroin"@ || w == "gcoron"@ || w == "gcoroinacha"@ || w == "gchoroin"@ || w == "gchoron"@ || w == "gchoroinacha"@ {
        Some(MoneyUnit::Kr)
    } else if w == "dkk"@ {
        Some(MoneyUnit::Dkk)
    } else if w == "nok"@ {
        Some(MoneyUnit::Nok)
    } else if w == "sek"@ {
        Some(MoneyUnit::Sek)
    } else if w == "rub"@ || w == "ruble"@ || w == "rubles"@ || w == "rouble"@ || w == "roubles"@ || w == "rubal"@ {
        Some(MoneyUnit::Rub)
    } else if w == "inr"@ || w == "rs"@ || w == "rs."@ || w == "rupee"@ || w == "rupees"@ {
        Some(MoneyUnit::Inr)
    } else if w == "jpy"@ || w == "yen"@ || w == "yens"@ {
        Some(MoneyUnit::Jpy)
    } else if w == "cny"@ || w == "cnh"@ || w == "rmb"@ || w == "yuan"@ || w == "yuans"@ || w == "renminbi"@ || w == "renminbis"@ {
        Some(MoneyUnit::Cny)
    } else if w == "¥"@ {
        Some(MoneyUnit::Yen)
    } else if w == "₩"@ || w == "krw"@ {
        Some(MoneyUnit::Krw)
    } else if w == "฿"@ || w == "bitcoin"@ || w == "bitcoins"@ {
        Some(MoneyUnit::Bitcoin)
    } else if w == "c"@ || w == "¢"@ || w == "centime"@ || w == "centimes"@ || w == "cent"@ || w == "ceint"@ || w == "cents"@ || w == "ceints"@ || w == "centanna"@ || w == "ceintanna"@ || w == "centeanna"@ || w == "ceinteanna"@ || w == "chentime"@ || w == "chentimes"@ || w == "chent"@ || w == "cheint"@ || w == "chents"@ || w == "cheints"@ || w == "chentanna"@ || w == "cheintanna"@ || w == "chenteanna"@ || w == "cheinteanna"@ || w == "gcentime"@ || w == "gcentimes"@ || w == "gcent"@ || w == "gceint"@ || w == "gcents"@ || w == "gceints"@ || w == "gcentanna"@ || w == "gceintanna"@ || w == "gcenteanna"@ || w == "gceinteanna"@ || w == "gchentime"@ || w == "gchentimes"@ || w == "gchent"@ || w == "gcheint"@ || w == "gchents"@ || w == "gcheints"@ || w == "gchentanna"@ || w == "gcheintanna"@ || w == "gchenteanna"@ || w == "gcheinteanna"@ || w == "penny"@ || w == "pennies"@ || w == "pingini"@ || w == "pingine"@ || w == "phenny"@ || w == "phennies"@ || w == "phingini"@ || w == "phingine"@ || w == "bpenny"@ || w == "bpennies"@ || w == "bpingini"@ || w == "bpingine"@ || w == "bphenny"@ || w == "bphennies"@ || w == "bphingini"@ || w == "bphingine"@ {
        Some(MoneyUnit::Cent)
    } else {
        None
    }
}

pub fn money_unit_lookup(w: &Vec<char>) -> (r: Option<MoneyUnit>)
    ensures
        r == money_unit_of(w@),
{
    if chars_eq_str(w, "$") || chars_eq_str(w, "dollar") || chars_eq_str(w, "dollair") || chars_eq_str(w, "dollars") || chars_eq_str(w, "dollairs") || chars_eq_str(w, "dhollar") || chars_eq_str(w, "dhollair") || chars_eq_str(w, "dhollars") || chars_eq_str(w, "dhollairs") || chars_eq_str(w, "ndollar") || chars_eq_str(w, "ndollair") || chars_eq_str(w, "ndollars") || chars_eq_str(w, "ndollairs") || chars_eq_str(w, "ndhollar") || chars_eq_str(w, "ndhollair") || chars_eq_str(w, "ndhollars") || chars_eq_str(w, "ndhollairs") {
        Some(MoneyUnit::Dollar)
    } else if chars_eq_str(w, "usd") || chars_eq_str(w, "us$") {
        Some(MoneyUnit::Usd)
    } else if chars_eq_str(w, "aud") || chars_eq_str(w, "au$") {
        Some(MoneyUnit::Aud)
    } else if chars_eq_str(w, "cad") {
        Some(MoneyUnit::Cad)
    } else if chars_eq_str(w, "hkd") {
        Some(MoneyUnit::Hkd)
    } else if chars_eq_str(w, "€") || chars_eq_str(w, "eur") || chars_eq_str(w, "euro") || chars_eq_str(w, "euros") || chars_eq_str(w, "eurs") {
        Some(MoneyUnit::Eur)
    } else if chars_eq_str(w, "£") || chars_eq_str(w, "pound") || chars_eq_str(w, "pounds") || chars_eq_str(w, "punt") || chars_eq_str(w, "puint") || chars_eq_str(w, "phunt") || chars_eq_str(w, "phuint") || chars_eq_str(w, "bpunt") || chars_eq_str(w, "bpuint") || chars_eq_str(w, "bphunt") || chars_eq_str(w, "bphuint") {
        Some(MoneyUnit::Pound)
    } else if chars_eq_str(w, "gbp") {
        Some(MoneyUnit::Gbp)
    } else if chars_eq_str(w, "chf") {
        Some(MoneyUnit::Chf)
    } else if chars_eq_str(w, "kr") || chars_eq_str(w, "krone") || chars_eq_str(w, "kroner") || chars_eq_str(w, "coroin") || chars_eq_str(w, "coron") || chars_eq_str(w, "coroinacha") || chars_eq_str(w, "choroin") || chars_eq_str(w, "choron") || chars_eq_str(w, "choroinacha") || chars_eq_str(w, "gcoroin") || chars_eq_str(w, "gcoron") || chars_eq_str(w, "gcoroinacha") || chars_eq_str(w, "gchoroin") || chars_eq_str(w, "gchoron") || chars_eq_str(w, "gchoroinacha") {
        Some(MoneyUnit::Kr)
    } else if chars_eq_str(w, "dkk") {
        Some(MoneyUnit::Dkk)
    } else if chars_eq_str(w, "nok") {
        Some(MoneyUnit::Nok)
    } else if chars_eq_str(w, "sek") {
        Some(MoneyUnit::Sek)
    } else if chars_eq_str(w, "rub") || chars_eq_str(w, "ruble") || chars_eq_str(w, "rubles") || chars_eq_str(w, "rouble") || chars_eq_str(w, "roubles") || chars_eq_str(w, "rubal") {
        Some(MoneyUnit::Rub)
    } else if chars_eq_str(w, "inr") || chars_eq_str(w, "rs") || chars_eq_str(w, "rs.") || chars_eq_str(w, "rupee") || chars_eq_str(w, "rupees") {
        Some(MoneyUnit::Inr)
    } else if chars_eq_str(w, "jpy") || chars_eq_str(w, "yen") || chars_eq_str(w, "yens") {
        Some(MoneyUnit::Jpy)
    } else if chars_eq_str(w, "cny") || chars_eq_str(w, "cnh") || chars_eq_str(w, "rmb") || chars_eq_str(w, "yuan") || chars_eq_str(w, "yuans") || chars_eq_str(w, "renminbi") || chars_eq_str(w, "renminbis") {
        Some(MoneyUnit::Cny)
    } else if chars_eq_str(w, "¥") {
        Some(MoneyUnit::Yen)
    } else if chars_eq_str(w, "₩") || chars_eq_str(w, "krw") {
        Some(MoneyUnit::Krw)
    } else if chars_eq_str(w, "฿") || chars_eq_str(w, "bitcoin") || chars_eq_str(w, "bitcoins") {
        Some(MoneyUnit::Bitcoin)
    } else if chars_eq_str(w, "c") || chars_eq_str(w, "¢") || chars_eq_str(w, "centime") || chars_eq_str(w, "centimes") || chars_eq_str(w, "cent") || chars_eq_str(w, "ceint") || chars_eq_str(w, "cents") || chars_eq_str(w, "ceints") || chars_eq_str(w, "centanna") || chars_eq_str(w, "ceintanna") || chars_eq_str(w, "centeanna") || chars_eq_str(w, "ceinteanna") || chars_eq_str(w, "chentime") || chars_eq_str(w, "chentimes") || chars_eq_str(w, "chent") || chars_eq_str(w, "cheint") || chars_eq_str(w, "chents") || chars_eq_str(w, "cheints") || chars_eq_str(w, "chentanna") || chars_eq_str(w, "cheintanna") || chars_eq_str(w, "chenteanna") || chars_eq_str(w, "cheinteanna") || chars_eq_str(w, "gcentime") || chars_eq_str(w, "gcentimes") || chars_eq_str(w, "gcent") || chars_eq_str(w, "gceint") || chars_eq_str(w, "gcents") || chars_eq_str(w, "gceints") || chars_eq_str(w, "gcentanna") || chars_eq_str(w, "gceintanna") || chars_eq_str(w, "gcenteanna") || chars_eq_str(w, "gceinteanna") || chars_eq_str(w, "gchentime") || chars_eq_str(w, "gchentimes") || chars_eq_str(w, "gchent") || chars_eq_str(w, "gcheint") || chars_eq_str(w, "gchents") || chars_eq_str(w, "gcheints") || chars_eq_str(w, "gchentanna") || chars_eq_str(w, "gcheintanna") || chars_eq_str(w, "gchenteanna") || chars_eq_str(w, "gcheinteanna") || chars_eq_str(w, "penny") || chars_eq_str(w, "pennies") || chars_eq_str(w, "pingini") || chars_eq_str(w, "pingine") || chars_eq_str(w, "phenny") || chars_eq_str(w, "phennies") || chars_eq_str(w, "phingini") || chars_eq_str(w, "phingine") || chars_eq_str(w, "bpenny") || chars_eq_str(w, "bpennies") || chars_eq_str(w, "bpingini") || chars_eq_str(w, "bpingine") || chars_eq_str(w, "bphenny") || chars_eq_str(w, "bphennies") || chars_eq_str(w, "bphingini") || chars_eq_str(w, "bphingine") {
        Some(MoneyUnit::Cent)
    } else {
        None
    }
}

} // verus!
