use vstd::prelude::*;
use crate::text::{chars_of, chars_eq_str, without_trailing_digit};

verus! {

/// The regional routes of the Riot API.
#[derive(Debug, Clone, Copy, PartialEq, Eq, Structural)]
pub enum RegionType {
    AMERICAS,
    ASIA,
    EUROPE,
    SEA,
}

/// The platforms (game servers).
#[derive(Debug, Clone, Copy, PartialEq, Eq, Structural)]
pub enum PlatformType {
    BR1,
    EUN1,
    EUW1,
    JP1,
    KR,
    LA1,
    LA2,
    NA1,
    OC1,
    TR1,
    RU,
    PH2,
    SG2,
    TH2,
    TW2,
    VN2,
    ME1,
    PBE1,
}

/// The region that serves platform `p`.
pub open spec fn platform_region(p: PlatformType) -> RegionType {
    match p {
        PlatformType::BR1 => RegionType::AMERICAS,
        PlatformType::EUN1 => RegionType::EUROPE,
        PlatformType::EUW1 => RegionType::EUROPE,
        PlatformType::JP1 => RegionType::ASIA,
        PlatformType::KR => RegionType::ASIA,
        PlatformType::LA1 => RegionType::AMERICAS,
        PlatformType::LA2 => RegionType::AMERICAS,
        PlatformType::NA1 => RegionType::AMERICAS,
        PlatformType::OC1 => RegionType::SEA,
        PlatformType::TR1 => RegionType::EUROPE,
        PlatformType::RU => RegionType::EUROPE,
        PlatformType::PH2 => RegionType::SEA,
        PlatformType::SG2 => RegionType::SEA,
        PlatformType::TH2 => RegionType::SEA,
        PlatformType::TW2 => RegionType::SEA,
        PlatformType::VN2 => RegionType::SEA,
        PlatformType::ME1 => RegionType::EUROPE,
        PlatformType::PBE1 => RegionType::AMERICAS,
    }
}

/// The code of platform `p` as used in URLs ("EUW", "EUN", ...).
pub open spec fn platform_code(p: PlatformType) -> Seq<char> {
    match p {
        PlatformType::BR1 => "BR"@,
        PlatformType::EUN1 => "EUN"@,
        PlatformType::EUW1 => "EUW"@,
        PlatformType::JP1 => "JP"@,
        PlatformType::KR => "KR"@,
        PlatformType::LA1 => "LA1"@,
        PlatformType::LA2 => "LA2"@,
        PlatformType::NA1 => "NA"@,
        PlatformType::OC1 => "OC"@,
        PlatformType::TR1 => "TR"@,
        PlatformType::RU => "RU"@,
        PlatformType::PH2 => "PH"@,
        PlatformType::SG2 => "SG"@,
        PlatformType::TH2 => "TH"@,
        PlatformType::TW2 => "TW"@,
        PlatformType::VN2 => "VN"@,
        PlatformType::ME1 => "ME"@,
        PlatformType::PBE1 => "PBE"@,
    }
}

/// The name of platform `p` ("EUW1", "EUN1", ...).
pub open spec fn platform_name(p: PlatformType) -> Seq<char> {
    match p {
        PlatformType::BR1 => "BR1"@,
        PlatformType::EUN1 => "EUN1"@,
        PlatformType::EUW1 => "EUW1"@,
        PlatformType::JP1 => "JP1"@,
        PlatformType::KR => "KR"@,
        PlatformType::LA1 => "LA1"@,
        PlatformType::LA2 => "LA2"@,
        PlatformType::NA1 => "NA1"@,
        PlatformType::OC1 => "OC1"@,
        PlatformType::TR1 => "TR1"@,
        PlatformType::RU => "RU"@,
        PlatformType::PH2 => "PH2"@,
        PlatformType::SG2 => "SG2"@,
        PlatformType::TH2 => "TH2"@,
        PlatformType::TW2 => "TW2"@,
        PlatformType::VN2 => "VN2"@,
        PlatformType::ME1 => "ME1"@,
        PlatformType::PBE1 => "PBE1"@,
    }
}

/// The platform named `s`, if any.
pub open spec fn platform_from_name(s: Seq<char>) -> Option<PlatformType> {
    if s == "BR1"@ {
        Some(PlatformType::BR1)
    } else if s == "EUN1"@ {
        Some(PlatformType::EUN1)
    } else if s == "EUW1"@ {
        Some(PlatformType::EUW1)
    } else if s == "JP1"@ {
        Some(PlatformType::JP1)
    } else if s == "KR"@ {
        Some(PlatformType::KR)
    } else if s == "LA1"@ {
        Some(PlatformType::LA1)
    } else if s == "LA2"@ {
        Some(PlatformType::LA2)
    } else if s == "NA1"@ {
        Some(PlatformType::NA1)
    } else if s == "OC1"@ {
        Some(PlatformType::OC1)
    } else if s == "TR1"@ {
        Some(PlatformType::TR1)
    } else if s == "RU"@ {
        Some(PlatformType::RU)
    } else if s == "PH2"@ {
        Some(PlatformType::PH2)
    } else if s == "SG2"@ {
        Some(PlatformType::SG2)
    } else if s == "TH2"@ {
        Some(PlatformType::TH2)
    } else if s == "TW2"@ {
        Some(PlatformType::TW2)
    } else if s == "VN2"@ {
        Some(PlatformType::VN2)
    } else if s == "ME1"@ {
        Some(PlatformType::ME1)
    } else if s == "PBE1"@ {
        Some(PlatformType::PBE1)
    } else {
        None
    }
}

/// The platform whose code is `s`, if any.
pub open spec fn platform_from_code(s: Seq<char>) -> Option<PlatformType> {
    if s == "BR"@ {
        Some(PlatformType::BR1)
    } else if s == "EUN"@ {
        Some(PlatformType::EUN1)
    } else if s == "EUW"@ {
        Some(PlatformType::EUW1)
    } else if s == "JP"@ {
        Some(PlatformType::JP1)
    } else if s == "KR"@ {
        Some(PlatformType::KR)
    } else if s == "LA1"@ {
        Some(PlatformType::LA1)
    } else if s == "LA2"@ {
        Some(PlatformType::LA2)
    } else if s == "NA"@ {
        Some(PlatformType::NA1)
    } else if s == "OC"@ {
        Some(PlatformType::OC1)
    } else if s == "TR"@ {
        Some(PlatformType::TR1)
    } else if s == "RU"@ {
        Some(PlatformType::RU)
    } else if s == "PH"@ {
        Some(PlatformType::PH2)
    } else if s == "SG"@ {
        Some(PlatformType::SG2)
    } else if s == "TH"@ {
        Some(PlatformType::TH2)
    } else if s == "TW"@ {
        Some(PlatformType::TW2)
    } else if s == "VN"@ {
        Some(PlatformType::VN2)
    } else if s == "ME"@ {
        Some(PlatformType::ME1)
    } else if s == "PBE"@ {
        Some(PlatformType::PBE1)
    } else {
        None
    }
}

/// Whether every character of `s` is ASCII.
pub open spec fn is_ascii_text(s: Seq<char>) -> bool {
    forall|i: int| 0 <= i < s.len() ==> (#[trigger] s[i] as u32) < 128
}

/// `s` with the ASCII letters `a`-`z` turned into `A`-`Z`.
pub open spec fn ascii_uppercase(s: Seq<char>) -> Seq<char> {
    Seq::new(s.len(), |i: int| if 'a' <= s[i] <= 'z' { ((s[i] as u32) - 32) as char } else { s[i] })
}

/// What `str::to_uppercase` gives for `s`: its characters mapped to upper case by the Unicode rules.
pub uninterp spec fn uppercased(s: Seq<char>) -> Seq<char>;

/// Calls `str::to_uppercase`. Its contract names the result `uppercased(s@)`; for ASCII text
/// it states the result (ASCII letters `a`-`z` become `A`-`Z`, every other character is kept).
/// The Unicode case mapping of other text is not written out here.
#[verifier::external_body]
fn to_uppercase(s: &str) -> (res: String)
    ensures
        res@ == uppercased(s@),
        is_ascii_text(s@) ==> res@ == ascii_uppercase(s@),
{
    s.to_uppercase()
}

impl PlatformType {
    /// Every platform, in a fixed order.
    pub fn cases() -> (res: &'static [PlatformType])
        ensures
            res@ == seq![PlatformType::BR1, PlatformType::EUN1, PlatformType::EUW1, PlatformType::JP1, PlatformType::KR, PlatformType::LA1, PlatformType::LA2, PlatformType::NA1, PlatformType::OC1, PlatformType::TR1, PlatformType::RU, PlatformType::PH2, PlatformType::SG2, PlatformType::TH2, PlatformType::TW2, PlatformType::VN2, PlatformType::ME1, PlatformType::PBE1],
    {
        &[PlatformType::BR1, PlatformType::EUN1, PlatformType::EUW1, PlatformType::JP1, PlatformType::KR, PlatformType::LA1, PlatformType::LA2, PlatformType::NA1, PlatformType::OC1, PlatformType::TR1, PlatformType::RU, PlatformType::PH2, PlatformType::SG2, PlatformType::TH2, PlatformType::TW2, PlatformType::VN2, PlatformType::ME1, PlatformType::PBE1]
    }

    /// The region that serves the platform.
    pub fn region(self) -> (res: RegionType)
        ensures
            res == platform_region(self),
    {
        match self {
            PlatformType::BR1 | PlatformType::LA1 | PlatformType::LA2 | PlatformType::NA1 | PlatformType::PBE1 => {
                RegionType::AMERICAS
            },
            PlatformType::JP1 | PlatformType::KR => RegionType::ASIA,
            PlatformType::EUN1 | PlatformType::EUW1 | PlatformType::TR1 | PlatformType::RU | PlatformType::ME1 => {
                RegionType::EUROPE
            },
            _ => RegionType::SEA,
        }
    }

    /// The platform named `s` ("EUW1", "EUN1", ...), if any.
    pub fn from_str(s: &str) -> (res: Option<PlatformType>)
        ensures
            res == platform_from_name(s@),
    {
        let cs = chars_of(s);
        if chars_eq_str(&cs, "BR1") {
            Some(PlatformType::BR1)
        } else if chars_eq_str(&cs, "EUN1") {
            Some(PlatformType::EUN1)
        } else if chars_eq_str(&cs, "EUW1") {
            Some(PlatformType::EUW1)
        } else if chars_eq_str(&cs, "JP1") {
            Some(PlatformType::JP1)
        } else if chars_eq_str(&cs, "KR") {
            Some(PlatformType::KR)
        } else if chars_eq_str(&cs, "LA1") {
            Some(PlatformType::LA1)
        } else if chars_eq_str(&cs, "LA2") {
            Some(PlatformType::LA2)
        } else if chars_eq_str(&cs, "NA1") {
            Some(PlatformType::NA1)
        } else if chars_eq_str(&cs, "OC1") {
            Some(PlatformType::OC1)
        } else if chars_eq_str(&cs, "TR1") {
            Some(PlatformType::TR1)
        } else if chars_eq_str(&cs, "RU") {
            Some(PlatformType::RU)
        } else if chars_eq_str(&cs, "PH2") {
            Some(PlatformType::PH2)
        } else if chars_eq_str(&cs, "SG2") {
            Some(PlatformType::SG2)
        } else if chars_eq_str(&cs, "TH2") {
            Some(PlatformType::TH2)
        } else if chars_eq_str(&cs, "TW2") {
            Some(PlatformType::TW2)
        } else if chars_eq_str(&cs, "VN2") {
            Some(PlatformType::VN2)
        } else if chars_eq_str(&cs, "ME1") {
            Some(PlatformType::ME1)
        } else if chars_eq_str(&cs, "PBE1") {
            Some(PlatformType::PBE1)
        } else {
            None
        }
    }

    /// The platform whose code is `upper` exactly ("EUW", "EUN", ...), if any.
    pub fn from_upper_code(upper: &str) -> (res: Option<PlatformType>)
        ensures
            res == platform_from_code(upper@),
    {
        let cs = chars_of(upper);
        if chars_eq_str(&cs, "BR") {
            Some(PlatformType::BR1)
        } else if chars_eq_str(&cs, "EUN") {
            Some(PlatformType::EUN1)
        } else if chars_eq_str(&cs, "EUW") {
            Some(PlatformType::EUW1)
        } else if chars_eq_str(&cs, "JP") {
            Some(PlatformType::JP1)
        } else if chars_eq_str(&cs, "KR") {
            Some(PlatformType::KR)
        } else if chars_eq_str(&cs, "LA1") {
            Some(PlatformType::LA1)
        } else if chars_eq_str(&cs, "LA2") {
            Some(PlatformType::LA2)
        } else if chars_eq_str(&cs, "NA") {
            Some(PlatformType::NA1)
        } else if chars_eq_str(&cs, "OC") {
            Some(PlatformType::OC1)
        } else if chars_eq_str(&cs, "TR") {
            Some(PlatformType::TR1)
        } else if chars_eq_str(&cs, "RU") {
            Some(PlatformType::RU)
        } else if chars_eq_str(&cs, "PH") {
            Some(PlatformType::PH2)
        } else if chars_eq_str(&cs, "SG") {
            Some(PlatformType::SG2)
        } else if chars_eq_str(&cs, "TH") {
            Some(PlatformType::TH2)
        } else if chars_eq_str(&cs, "TW") {
            Some(PlatformType::TW2)
        } else if chars_eq_str(&cs, "VN") {
            Some(PlatformType::VN2)
        } else if chars_eq_str(&cs, "ME") {
            Some(PlatformType::ME1)
        } else if chars_eq_str(&cs, "PBE") {
            Some(PlatformType::PBE1)
        } else {
            None
        }
    }

    /// The platform whose code is `code` in upper case, if any ("euw" gives `EUW1`).
    pub fn from_code(code: &str) -> (res: Option<PlatformType>)
        ensures
            res == platform_from_code(uppercased(code@)),
            is_ascii_text(code@) ==> res == platform_from_code(ascii_uppercase(code@)),
    {
        let upper = to_uppercase(code);
        PlatformType::from_upper_code(upper.as_str())
    }

    /// The code of the platform as used in URLs ("EUW", "EUN", ...).
    pub fn code(self) -> (res: &'static str)
        ensures
            res@ == platform_code(self),
    {
        match self {
            PlatformType::BR1 => "BR",
            PlatformType::EUN1 => "EUN",
            PlatformType::EUW1 => "EUW",
            PlatformType::JP1 => "JP",
            PlatformType::KR => "KR",
            PlatformType::LA1 => "LA1",
            PlatformType::LA2 => "LA2",
            PlatformType::NA1 => "NA",
            PlatformType::OC1 => "OC",
            PlatformType::TR1 => "TR",
            PlatformType::RU => "RU",
            PlatformType::PH2 => "PH",
            PlatformType::SG2 => "SG",
            PlatformType::TH2 => "TH",
            PlatformType::TW2 => "TW",
            PlatformType::VN2 => "VN",
            PlatformType::ME1 => "ME",
            PlatformType::PBE1 => "PBE",
        }
    }

    /// The platform displayed as text: its code.
    pub fn to_string(&self) -> (res: String)
        ensures
            res@ == platform_code(*self),
    {
        self.code().to_owned()
    }
}

/// The URL code of a platform is its name without the trailing digit ("EUW1" gives "EUW", "KR"
/// stays "KR"), except for the two Latin American platforms, whose code is their whole name.
pub proof fn law_platform_code_from_name(p: PlatformType)
    ensures
        p != PlatformType::LA1 && p != PlatformType::LA2 ==> platform_code(p) == without_trailing_digit(platform_name(p)),
        p == PlatformType::LA1 || p == PlatformType::LA2 ==> platform_code(p) == platform_name(p),
{
    reveal_strlit("BR1");
    reveal_strlit("EUN1");
    reveal_strlit("EUW1");
    reveal_strlit("JP1");
    reveal_strlit("KR");
    reveal_strlit("LA1");
    reveal_strlit("LA2");
    reveal_strlit("NA1");
    reveal_strlit("OC1");
    reveal_strlit("TR1");
    reveal_strlit("RU");
    reveal_strlit("PH2");
    reveal_strlit("SG2");
    reveal_strlit("TH2");
    reveal_strlit("TW2");
    reveal_strlit("VN2");
    reveal_strlit("ME1");
    reveal_strlit("PBE1");
    reveal_strlit("BR");
    reveal_strlit("EUN");
    reveal_strlit("EUW");
    reveal_strlit("JP");
    reveal_strlit("ME");
    reveal_strlit("NA");
    reveal_strlit("OC");
    reveal_strlit("PBE");
    reveal_strlit("PH");
    reveal_strlit("SG");
    reveal_strlit("TH");
    reveal_strlit("TR");
    reveal_strlit("TW");
    reveal_strlit("VN");
    match p {
        PlatformType::BR1 => {
            assert(without_trailing_digit("BR1"@) =~= "BR1"@.drop_last());
            assert(without_trailing_digit("BR1"@) =~= "BR"@);
        },
        PlatformType::EUN1 => {
            assert(without_trailing_digit("EUN1"@) =~= "EUN1"@.drop_last());
            assert(without_trailing_digit("EUN1"@) =~= "EUN"@);
        },
        PlatformType::EUW1 => {
            assert(without_trailing_digit("EUW1"@) =~= "EUW1"@.drop_last());
            assert(without_trailing_digit("EUW1"@) =~= "EUW"@);
        },
        PlatformType::JP1 => {
            assert(without_trailing_digit("JP1"@) =~= "JP1"@.drop_last());
            assert(without_trailing_digit("JP1"@) =~= "JP"@);
        },
        PlatformType::KR => {
            assert(without_trailing_digit("KR"@) == "KR"@);
            assert(without_trailing_digit("KR"@) =~= "KR"@);
        },
        PlatformType::LA1 => {
            assert(without_trailing_digit("LA1"@) =~= "LA1"@.drop_last());
        },
        PlatformType::LA2 => {
            assert(without_trailing_digit("LA2"@) =~= "LA2"@.drop_last());
        },
        PlatformType::NA1 => {
            assert(without_trailing_digit("NA1"@) =~= "NA1"@.drop_last());
            assert(without_trailing_digit("NA1"@) =~= "NA"@);
        },
        PlatformType::OC1 => {
            assert(without_trailing_digit("OC1"@) =~= "OC1"@.drop_last());
            assert(without_trailing_digit("OC1"@) =~= "OC"@);
        },
        PlatformType::TR1 => {
            assert(without_trailing_digit("TR1"@) =~= "TR1"@.drop_last());
            assert(without_trailing_digit("TR1"@) =~= "TR"@);
        },
        PlatformType::RU => {
            assert(without_trailing_digit("RU"@) == "RU"@);
            assert(without_trailing_digit("RU"@) =~= "RU"@);
        },
        PlatformType::PH2 => {
            assert(without_trailing_digit("PH2"@) =~= "PH2"@.drop_last());
            assert(without_trailing_digit("PH2"@) =~= "PH"@);
        },
        PlatformType::SG2 => {
            assert(without_trailing_digit("SG2"@) =~= "SG2"@.drop_last());
            assert(without_trailing_digit("SG2"@) =~= "SG"@);
        },
        PlatformType::TH2 => {
            assert(without_trailing_digit("TH2"@) =~= "TH2"@.drop_last());
            assert(without_trailing_digit("TH2"@) =~= "TH"@);
        },
        PlatformType::TW2 => {
            assert(without_trailing_digit("TW2"@) =~= "TW2"@.drop_last());
            assert(without_trailing_digit("TW2"@) =~= "TW"@);
        },
        PlatformType::VN2 => {
            assert(without_trailing_digit("VN2"@) =~= "VN2"@.drop_last());
            assert(without_trailing_digit("VN2"@) =~= "VN"@);
        },
        PlatformType::ME1 => {
            assert(without_trailing_digit("ME1"@) =~= "ME1"@.drop_last());
            assert(without_trailing_digit("ME1"@) =~= "ME"@);
        },
        PlatformType::PBE1 => {
            assert(without_trailing_digit("PBE1"@) =~= "PBE1"@.drop_last());
            assert(without_trailing_digit("PBE1"@) =~= "PBE"@);
        },
    }
}

/// The platforms by continent: the European ones (EUN1, EUW1, TR1, RU, ME1) are served by
/// EUROPE, the American ones (BR1, LA1, LA2, NA1, PBE1) by AMERICAS, JP1 and KR by ASIA, and
/// the others (OC1, PH2, SG2, TH2, TW2, VN2) by SEA.
pub proof fn law_platform_regions_by_continent(p: PlatformType)
    ensures
        (platform_region(p) == RegionType::EUROPE) <==> (p == PlatformType::EUN1 || p == PlatformType::EUW1
            || p == PlatformType::TR1 || p == PlatformType::RU || p == PlatformType::ME1),
        (platform_region(p) == RegionType::AMERICAS) <==> (p == PlatformType::BR1 || p == PlatformType::LA1
            || p == PlatformType::LA2 || p == PlatformType::NA1 || p == PlatformType::PBE1),
        (platform_region(p) == RegionType::ASIA) <==> (p == PlatformType::JP1 || p == PlatformType::KR),
        (platform_region(p) == RegionType::SEA) <==> (p == PlatformType::OC1 || p == PlatformType::PH2
            || p == PlatformType::SG2 || p == PlatformType::TH2 || p == PlatformType::TW2 || p == PlatformType::VN2),
{
}

/// Reading the name of a platform gives the platform back.
pub proof fn law_platform_name_roundtrip(p: PlatformType)
    ensures
        platform_from_name(platform_name(p)) == Some(p),
{
    reveal_strlit("BR1");
    reveal_strlit("EUN1");
    reveal_strlit("EUW1");
    reveal_strlit("JP1");
    reveal_strlit("KR");
    reveal_strlit("LA1");
    reveal_strlit("LA2");
    reveal_strlit("NA1");
    reveal_strlit("OC1");
    reveal_strlit("TR1");
    reveal_strlit("RU");
    reveal_strlit("PH2");
    reveal_strlit("SG2");
    reveal_strlit("TH2");
    reveal_strlit("TW2");
    reveal_strlit("VN2");
    reveal_strlit("ME1");
    reveal_strlit("PBE1");
    match p {
        PlatformType::BR1 => {

            assert(platform_from_name(platform_name(p)) == Some(PlatformType::BR1));
        },
        PlatformType::EUN1 => {
            assert("EUN1"@.len() != "BR1"@.len());
            assert(platform_from_name(platform_name(p)) == Some(PlatformType::EUN1));
        },
        PlatformType::EUW1 => {
            assert("EUW1"@.len() != "BR1"@.len());
            assert("EUW1"@[2] != "EUN1"@[2]);
            assert(platform_from_name(platform_name(p)) == Some(PlatformType::EUW1));
        },
        PlatformType::JP1 => {
            assert("JP1"@[0] != "BR1"@[0]);
            assert("JP1"@.len() != "EUN1"@.len());
            assert("JP1"@.len() != "EUW1"@.len());
            assert(platform_from_name(platform_name(p)) == Some(PlatformType::JP1));
        },
        PlatformType::KR => {
            assert("KR"@.len() != "BR1"@.len());
            assert("KR"@.len() != "EUN1"@.len());
            assert("KR"@.len() != "EUW1"@.len());
            assert("KR"@.len() != "JP1"@.len());
            assert(platform_from_name(platform_name(p)) == Some(PlatformType::KR));
        },
        PlatformType::LA1 => {
            assert("LA1"@[0] != "BR1"@[0]);
            assert("LA1"@.len() != "EUN1"@.len());
            assert("LA1"@.len() != "EUW1"@.len());
            assert("LA1"@[0] != "JP1"@[0]);
            assert("LA1"@.len() != "KR"@.len());
            assert(platform_from_name(platform_name(p)) == Some(PlatformType::LA1));
        },
        PlatformType::LA2 => {
            assert("LA2"@[0] != "BR1"@[0]);
            assert("LA2"@.len() != "EUN1"@.len());
            assert("LA2"@.len() != "EUW1"@.len());
            assert("LA2"@[0] != "JP1"@[0]);
            assert("LA2"@.len() != "KR"@.len());
            assert("LA2"@[2] != "LA1"@[2]);
            assert(platform_from_name(platform_name(p)) == Some(PlatformType::LA2));
        },
        PlatformType::NA1 => {
            assert("NA1"@[0] != "BR1"@[0]);
            assert("NA1"@.len() != "EUN1"@.len());
            assert("NA1"@.len() != "EUW1"@.len());
            assert("NA1"@[0] != "JP1"@[0]);
            assert("NA1"@.len() != "KR"@.len());
            assert("NA1"@[0] != "LA1"@[0]);
            assert("NA1"@[0] != "LA2"@[0]);
            assert(platform_from_name(platform_name(p)) == Some(PlatformType::NA1));
        },
        PlatformType::OC1 => {
            assert("OC1"@[0] != "BR1"@[0]);
            assert("OC1"@.len() != "EUN1"@.len());
            assert("OC1"@.len() != "EUW1"@.len());
            assert("OC1"@[0] != "JP1"@[0]);
            assert("OC1"@.len() != "KR"@.len());
            assert("OC1"@[0] != "LA1"@[0]);
            assert("OC1"@[0] != "LA2"@[0]);
            assert("OC1"@[0] != "NA1"@[0]);
            assert(platform_from_name(platform_name(p)) == Some(PlatformType::OC1));
        },
        PlatformType::TR1 => {
            assert("TR1"@[0] != "BR1"@[0]);
            assert("TR1"@.len() != "EUN1"@.len());
            assert("TR1"@.len() != "EUW1"@.len());
            assert("TR1"@[0] != "JP1"@[0]);
            assert("TR1"@.len() != "KR"@.len());
            assert("TR1"@[0] != "LA1"@[0]);
            assert("TR1"@[0] != "LA2"@[0]);
            assert("TR1"@[0] != "NA1"@[0]);
            assert("TR1"@[0] != "OC1"@[0]);
            assert(platform_from_name(platform_name(p)) == Some(PlatformType::TR1));
        },
        PlatformType::RU => {
            assert("RU"@.len() != "BR1"@.len());
            assert("RU"@.len() != "EUN1"@.len());
            assert("RU"@.len() != "EUW1"@.len());
            assert("RU"@.len() != "JP1"@.len());
            assert("RU"@[0] != "KR"@[0]);
            assert("RU"@.len() != "LA1"@.len());
            assert("RU"@.len() != "LA2"@.len());
            assert("RU"@.len() != "NA1"@.len());
            assert("RU"@.len() != "OC1"@.len());
            assert("RU"@.len() != "TR1"@.len());
            assert(platform_from_name(platform_name(p)) == Some(PlatformType::RU));
        },
        PlatformType::PH2 => {
            assert("PH2"@[0] != "BR1"@[0]);
            assert("PH2"@.len() != "EUN1"@.len());
            assert("PH2"@.len() != "EUW1"@.len());
            assert("PH2"@[0] != "JP1"@[0]);
            assert("PH2"@.len() != "KR"@.len());
            assert("PH2"@[0] != "LA1"@[0]);
            assert("PH2"@[0] != "LA2"@[0]);
            assert("PH2"@[0] != "NA1"@[0]);
            assert("PH2"@[0] != "OC1"@[0]);
            assert("PH2"@[0] != "TR1"@[0]);
            assert("PH2"@.len() != "RU"@.len());
            assert(platform_from_name(platform_name(p)) == Some(PlatformType::PH2));
        },
        PlatformType::SG2 => {
            assert("SG2"@[0] != "BR1"@[0]);
            assert("SG2"@.len() != "EUN1"@.len());
            assert("SG2"@.len() != "EUW1"@.len());
            assert("SG2"@[0] != "JP1"@[0]);
            assert("SG2"@.len() != "KR"@.len());
            assert("SG2"@[0] != "LA1"@[0]);
            assert("SG2"@[0] != "LA2"@[0]);
            assert("SG2"@[0] != "NA1"@[0]);
            assert("SG2"@[0] != "OC1"@[0]);
            assert("SG2"@[0] != "TR1"@[0]);
            assert("SG2"@.len() != "RU"@.len());
            assert("SG2"@[0] != "PH2"@[0]);
            assert(platform_from_name(platform_name(p)) == Some(PlatformType::SG2));
        },
        PlatformType::TH2 => {
            assert("TH2"@[0] != "BR1"@[0]);
            assert("TH2"@.len() != "EUN1"@.len());
            assert("TH2"@.len() != "EUW1"@.len());
            assert("TH2"@[0] != "JP1"@[0]);
            assert("TH2"@.len() != "KR"@.len());
            assert("TH2"@[0] != "LA1"@[0]);
            assert("TH2"@[0] != "LA2"@[0]);
            assert("TH2"@[0] != "NA1"@[0]);
            assert("TH2"@[0] != "OC1"@[0]);
            assert("TH2"@[1] != "TR1"@[1]);
            assert("TH2"@.len() != "RU"@.len());
            assert("TH2"@[0] != "PH2"@[0]);
            assert("TH2"@[0] != "SG2"@[0]);
            assert(platform_from_name(platform_name(p)) == Some(PlatformType::TH2));
        },
        PlatformType::TW2 => {
            assert("TW2"@[0] != "BR1"@[0]);
            assert("TW2"@.len() != "EUN1"@.len());
            assert("TW2"@.len() != "EUW1"@.len());
            assert("TW2"@[0] != "JP1"@[0]);
            assert("TW2"@.len() != "KR"@.len());
            assert("TW2"@[0] != "LA1"@[0]);
            assert("TW2"@[0] != "LA2"@[0]);
            assert("TW2"@[0] != "NA1"@[0]);
            assert("TW2"@[0] != "OC1"@[0]);
            assert("TW2"@[1] != "TR1"@[1]);
            assert("TW2"@.len() != "RU"@.len());
            assert("TW2"@[0] != "PH2"@[0]);
            assert("TW2"@[0] != "SG2"@[0]);
            assert("TW2"@[1] != "TH2"@[1]);
            assert(platform_from_name(platform_name(p)) == Some(PlatformType::TW2));
        },
        PlatformType::VN2 => {
            assert("VN2"@[0] != "BR1"@[0]);
            assert("VN2"@.len() != "EUN1"@.len());
            assert("VN2"@.len() != "EUW1"@.len());
            assert("VN2"@[0] != "JP1"@[0]);
            assert("VN2"@.len() != "KR"@.len());
            assert("VN2"@[0] != "LA1"@[0]);
            assert("VN2"@[0] != "LA2"@[0]);
            assert("VN2"@[0] != "NA1"@[0]);
            assert("VN2"@[0] != "OC1"@[0]);
            assert("VN2"@[0] != "TR1"@[0]);
            assert("VN2"@.len() != "RU"@.len());
            assert("VN2"@[0] != "PH2"@[0]);
            assert("VN2"@[0] != "SG2"@[0]);
            assert("VN2"@[0] != "TH2"@[0]);
            assert("VN2"@[0] != "TW2"@[0]);
            assert(platform_from_name(platform_name(p)) == Some(PlatformType::VN2));
        },
        PlatformType::ME1 => {
            assert("ME1"@[0] != "BR1"@[0]);
            assert("ME1"@.len() != "EUN1"@.len());
            assert("ME1"@.len() != "EUW1"@.len());
            assert("ME1"@[0] != "JP1"@[0]);
            assert("ME1"@.len() != "KR"@.len());
            assert("ME1"@[0] != "LA1"@[0]);
            assert("ME1"@[0] != "LA2"@[0]);
            assert("ME1"@[0] != "NA1"@[0]);
            assert("ME1"@[0] != "OC1"@[0]);
            assert("ME1"@[0] != "TR1"@[0]);
            assert("ME1"@.len() != "RU"@.len());
            assert("ME1"@[0] != "PH2"@[0]);
            assert("ME1"@[0] != "SG2"@[0]);
            assert("ME1"@[0] != "TH2"@[0]);
            assert("ME1"@[0] != "TW2"@[0]);
            assert("ME1"@[0] != "VN2"@[0]);
            assert(platform_from_name(platform_name(p)) == Some(PlatformType::ME1));
        },
        PlatformType::PBE1 => {
            assert("PBE1"@.len() != "BR1"@.len());
            assert("PBE1"@[0] != "EUN1"@[0]);
            assert("PBE1"@[0] != "EUW1"@[0]);
            assert("PBE1"@.len() != "JP1"@.len());
            assert("PBE1"@.len() != "KR"@.len());
            assert("PBE1"@.len() != "LA1"@.len());
            assert("PBE1"@.len() != "LA2"@.len());
            assert("PBE1"@.len() != "NA1"@.len());
            assert("PBE1"@.len() != "OC1"@.len());
            assert("PBE1"@.len() != "TR1"@.len());
            assert("PBE1"@.len() != "RU"@.len());
            assert("PBE1"@.len() != "PH2"@.len());
            assert("PBE1"@.len() != "SG2"@.len());
            assert("PBE1"@.len() != "TH2"@.len());
            assert("PBE1"@.len() != "TW2"@.len());
            assert("PBE1"@.len() != "VN2"@.len());
            assert("PBE1"@.len() != "ME1"@.len());
            assert(platform_from_name(platform_name(p)) == Some(PlatformType::PBE1));
        },
    }
}

/// Reading the code of a platform gives the platform back.
pub proof fn law_platform_code_roundtrip(p: PlatformType)
    ensures
        platform_from_code(platform_code(p)) == Some(p),
{
    reveal_strlit("BR");
    reveal_strlit("EUN");
    reveal_strlit("EUW");
    reveal_strlit("JP");
    reveal_strlit("KR");
    reveal_strlit("LA1");
    reveal_strlit("LA2");
    reveal_strlit("NA");
    reveal_strlit("OC");
    reveal_strlit("TR");
    reveal_strlit("RU");
    reveal_strlit("PH");
    reveal_strlit("SG");
    reveal_strlit("TH");
    reveal_strlit("TW");
    reveal_strlit("VN");
    reveal_strlit("ME");
    reveal_strlit("PBE");
    match p {
        PlatformType::BR1 => {

            assert(platform_from_code(platform_code(p)) == Some(PlatformType::BR1));
        },
        PlatformType::EUN1 => {
            assert("EUN"@.len() != "BR"@.len());
            assert(platform_from_code(platform_code(p)) == Some(PlatformType::EUN1));
        },
        PlatformType::EUW1 => {
            assert("EUW"@.len() != "BR"@.len());
            assert("EUW"@[2] != "EUN"@[2]);
            assert(platform_from_code(platform_code(p)) == Some(PlatformType::EUW1));
        },
        PlatformType::JP1 => {
            assert("JP"@[0] != "BR"@[0]);
            assert("JP"@.len() != "EUN"@.len());
            assert("JP"@.len() != "EUW"@.len());
            assert(platform_from_code(platform_code(p)) == Some(PlatformType::JP1));
        },
        PlatformType::KR => {
            assert("KR"@[0] != "BR"@[0]);
            assert("KR"@.len() != "EUN"@.len());
            assert("KR"@.len() != "EUW"@.len());
            assert("KR"@[0] != "JP"@[0]);
            assert(platform_from_code(platform_code(p)) == Some(PlatformType::KR));
        },
        PlatformType::LA1 => {
            assert("LA1"@.len() != "BR"@.len());
            assert("LA1"@[0] != "EUN"@[0]);
            assert("LA1"@[0] != "EUW"@[0]);
            assert("LA1"@.len() != "JP"@.len());
            assert("LA1"@.len() != "KR"@.len());
            assert(platform_from_code(platform_code(p)) == Some(PlatformType::LA1));
        },
        PlatformType::LA2 => {
            assert("LA2"@.len() != "BR"@.len());
            assert("LA2"@[0] != "EUN"@[0]);
            assert("LA2"@[0] != "EUW"@[0]);
            assert("LA2"@.len() != "JP"@.len());
            assert("LA2"@.len() != "KR"@.len());
            assert("LA2"@[2] != "LA1"@[2]);
            assert(platform_from_code(platform_code(p)) == Some(PlatformType::LA2));
        },
        PlatformType::NA1 => {
            assert("NA"@[0] != "BR"@[0]);
            assert("NA"@.len() != "EUN"@.len());
            assert("NA"@.len() != "EUW"@.len());
            assert("NA"@[0] != "JP"@[0]);
            assert("NA"@[0] != "KR"@[0]);
            assert("NA"@.len() != "LA1"@.len());
            assert("NA"@.len() != "LA2"@.len());
            assert(platform_from_code(platform_code(p)) == Some(PlatformType::NA1));
        },
        PlatformType::OC1 => {
            assert("OC"@[0] != "BR"@[0]);
            assert("OC"@.len() != "EUN"@.len());
            assert("OC"@.len() != "EUW"@.len());
            assert("OC"@[0] != "JP"@[0]);
            assert("OC"@[0] != "KR"@[0]);
            assert("OC"@.len() != "LA1"@.len());
            assert("OC"@.len() != "LA2"@.len());
            assert("OC"@[0] != "NA"@[0]);
            assert(platform_from_code(platform_code(p)) == Some(PlatformType::OC1));
        },
        PlatformType::TR1 => {
            assert("TR"@[0] != "BR"@[0]);
            assert("TR"@.len() != "EUN"@.len());
            assert("TR"@.len() != "EUW"@.len());
            assert("TR"@[0] != "JP"@[0]);
            assert("TR"@[0] != "KR"@[0]);
            assert("TR"@.len() != "LA1"@.len());
            assert("TR"@.len() != "LA2"@.len());
            assert("TR"@[0] != "NA"@[0]);
            assert("TR"@[0] != "OC"@[0]);
            assert(platform_from_code(platform_code(p)) == Some(PlatformType::TR1));
        },
        PlatformType::RU => {
            assert("RU"@[0] != "BR"@[0]);
            assert("RU"@.len() != "EUN"@.len());
            assert("RU"@.len() != "EUW"@.len());
            assert("RU"@[0] != "JP"@[0]);
            assert("RU"@[0] != "KR"@[0]);
            assert("RU"@.len() != "LA1"@.len());
            assert("RU"@.len() != "LA2"@.len());
            assert("RU"@[0] != "NA"@[0]);
            assert("RU"@[0] != "OC"@[0]);
            assert("RU"@[0] != "TR"@[0]);
            assert(platform_from_code(platform_code(p)) == Some(PlatformType::RU));
        },
        PlatformType::PH2 => {
            assert("PH"@[0] != "BR"@[0]);
            assert("PH"@.len() != "EUN"@.len());
            assert("PH"@.len() != "EUW"@.len());
            assert("PH"@[0] != "JP"@[0]);
            assert("PH"@[0] != "KR"@[0]);
            assert("PH"@.len() != "LA1"@.len());
            assert("PH"@.len() != "LA2"@.len());
            assert("PH"@[0] != "NA"@[0]);
            assert("PH"@[0] != "OC"@[0]);
            assert("PH"@[0] != "TR"@[0]);
            assert("PH"@[0] != "RU"@[0]);
            assert(platform_from_code(platform_code(p)) == Some(PlatformType::PH2));
        },
        PlatformType::SG2 => {
            assert("SG"@[0] != "BR"@[0]);
            assert("SG"@.len() != "EUN"@.len());
            assert("SG"@.len() != "EUW"@.len());
            assert("SG"@[0] != "JP"@[0]);
            assert("SG"@[0] != "KR"@[0]);
            assert("SG"@.len() != "LA1"@.len());
            assert("SG"@.len() != "LA2"@.len());
            assert("SG"@[0] != "NA"@[0]);
            assert("SG"@[0] != "OC"@[0]);
            assert("SG"@[0] != "TR"@[0]);
            assert("SG"@[0] != "RU"@[0]);
            assert("SG"@[0] != "PH"@[0]);
            assert(platform_from_code(platform_code(p)) == Some(PlatformType::SG2));
        },
        PlatformType::TH2 => {
            assert("TH"@[0] != "BR"@[0]);
            assert("TH"@.len() != "EUN"@.len());
            assert("TH"@.len() != "EUW"@.len());
            assert("TH"@[0] != "JP"@[0]);
            assert("TH"@[0] != "KR"@[0]);
            assert("TH"@.len() != "LA1"@.len());
            assert("TH"@.len() != "LA2"@.len());
            assert("TH"@[0] != "NA"@[0]);
            assert("TH"@[0] != "OC"@[0]);
            assert("TH"@[1] != "TR"@[1]);
            assert("TH"@[0] != "RU"@[0]);
            assert("TH"@[0] != "PH"@[0]);
            assert("TH"@[0] != "SG"@[0]);
            assert(platform_from_code(platform_code(p)) == Some(PlatformType::TH2));
        },
        PlatformType::TW2 => {
            assert("TW"@[0] != "BR"@[0]);
            assert("TW"@.len() != "EUN"@.len());
            assert("TW"@.len() != "EUW"@.len());
            assert("TW"@[0] != "JP"@[0]);
            assert("TW"@[0] != "KR"@[0]);
            assert("TW"@.len() != "LA1"@.len());
            assert("TW"@.len() != "LA2"@.len());
            assert("TW"@[0] != "NA"@[0]);
            assert("TW"@[0] != "OC"@[0]);
            assert("TW"@[1] != "TR"@[1]);
            assert("TW"@[0] != "RU"@[0]);
            assert("TW"@[0] != "PH"@[0]);
            assert("TW"@[0] != "SG"@[0]);
            assert("TW"@[1] != "TH"@[1]);
            assert(platform_from_code(platform_code(p)) == Some(PlatformType::TW2));
        },
        PlatformType::VN2 => {
            assert("VN"@[0] != "BR"@[0]);
            assert("VN"@.len() != "EUN"@.len());
            assert("VN"@.len() != "EUW"@.len());
            assert("VN"@[0] != "JP"@[0]);
            assert("VN"@[0] != "KR"@[0]);
            assert("VN"@.len() != "LA1"@.len());
            assert("VN"@.len() != "LA2"@.len());
            assert("VN"@[0] != "NA"@[0]);
            assert("VN"@[0] != "OC"@[0]);
            assert("VN"@[0] != "TR"@[0]);
            assert("VN"@[0] != "RU"@[0]);
            assert("VN"@[0] != "PH"@[0]);
            assert("VN"@[0] != "SG"@[0]);
            assert("VN"@[0] != "TH"@[0]);
            assert("VN"@[0] != "TW"@[0]);
            assert(platform_from_code(platform_code(p)) == Some(PlatformType::VN2));
        },
        PlatformType::ME1 => {
            assert("ME"@[0] != "BR"@[0]);
            assert("ME"@.len() != "EUN"@.len());
            assert("ME"@.len() != "EUW"@.len());
            assert("ME"@[0] != "JP"@[0]);
            assert("ME"@[0] != "KR"@[0]);
            assert("ME"@.len() != "LA1"@.len());
            assert("ME"@.len() != "LA2"@.len());
            assert("ME"@[0] != "NA"@[0]);
            assert("ME"@[0] != "OC"@[0]);
            assert("ME"@[0] != "TR"@[0]);
            assert("ME"@[0] != "RU"@[0]);
            assert("ME"@[0] != "PH"@[0]);
            assert("ME"@[0] != "SG"@[0]);
            assert("ME"@[0] != "TH"@[0]);
            assert("ME"@[0] != "TW"@[0]);
            assert("ME"@[0] != "VN"@[0]);
            assert(platform_from_code(platform_code(p)) == Some(PlatformType::ME1));
        },
        PlatformType::PBE1 => {
            assert("PBE"@.len() != "BR"@.len());
            assert("PBE"@[0] != "EUN"@[0]);
            assert("PBE"@[0] != "EUW"@[0]);
            assert("PBE"@.len() != "JP"@.len());
            assert("PBE"@.len() != "KR"@.len());
            assert("PBE"@[0] != "LA1"@[0]);
            assert("PBE"@[0] != "LA2"@[0]);
            assert("PBE"@.len() != "NA"@.len());
            assert("PBE"@.len() != "OC"@.len());
            assert("PBE"@.len() != "TR"@.len());
            assert("PBE"@.len() != "RU"@.len());
            assert("PBE"@.len() != "PH"@.len());
            assert("PBE"@.len() != "SG"@.len());
            assert("PBE"@.len() != "TH"@.len());
            assert("PBE"@.len() != "TW"@.len());
            assert("PBE"@.len() != "VN"@.len());
            assert("PBE"@.len() != "ME"@.len());
            assert(platform_from_code(platform_code(p)) == Some(PlatformType::PBE1));
        },
    }
}

} // verus!
