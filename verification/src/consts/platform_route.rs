use vstd::prelude::*;
use crate::text::{chars_of, chars_eq_str, without_trailing_digit};

verus! {

/// Platform routes for League of Legends.
#[derive(Debug, PartialEq, Eq, Hash, PartialOrd, Ord, Clone, Copy, Structural)]
pub enum PlatformRoute {
    /// Brazil.
    BR1,
    /// Europe, Northeast.
    EUN1,
    /// Europe, West.
    EUW1,
    /// Japan.
    JP1,
    /// Korea.
    KR,
    /// Latin America, North.
    LA1,
    /// Latin America, South.
    LA2,
    /// Middle East and North Africa.
    ME1,
    /// North America.
    NA1,
    /// Oceania.
    OC1,
    /// Philippines.
    PH2,
    /// Russia.
    RU,
    /// Singapore.
    SG2,
    /// Thailand.
    TH2,
    /// Turkey.
    TR1,
    /// Taiwan.
    TW2,
    /// Vietnam.
    VN2,
    /// Public Beta Environment, special beta testing platform, located in North America.
    PBE1,
}

/// The short region code that names `p` in URLs and on pages ("EUW", "EUNE", ...).
pub open spec fn route_code(p: PlatformRoute) -> Seq<char> {
    match p {
        PlatformRoute::BR1 => "BR"@,
        PlatformRoute::EUN1 => "EUNE"@,
        PlatformRoute::EUW1 => "EUW"@,
        PlatformRoute::JP1 => "JP"@,
        PlatformRoute::KR => "KR"@,
        PlatformRoute::LA1 => "LAN"@,
        PlatformRoute::LA2 => "LAS"@,
        PlatformRoute::ME1 => "MENA"@,
        PlatformRoute::NA1 => "NA"@,
        PlatformRoute::OC1 => "OCE"@,
        PlatformRoute::PH2 => "PH"@,
        PlatformRoute::RU => "RU"@,
        PlatformRoute::SG2 => "SG"@,
        PlatformRoute::TH2 => "TH"@,
        PlatformRoute::TR1 => "TR"@,
        PlatformRoute::TW2 => "TW"@,
        PlatformRoute::VN2 => "VN"@,
        PlatformRoute::PBE1 => "PBE"@,
    }
}

/// The platform name of `p` ("EUW1", "EUN1", ...).
pub open spec fn route_raw_name(p: PlatformRoute) -> Seq<char> {
    match p {
        PlatformRoute::BR1 => "BR1"@,
        PlatformRoute::EUN1 => "EUN1"@,
        PlatformRoute::EUW1 => "EUW1"@,
        PlatformRoute::JP1 => "JP1"@,
        PlatformRoute::KR => "KR"@,
        PlatformRoute::LA1 => "LA1"@,
        PlatformRoute::LA2 => "LA2"@,
        PlatformRoute::ME1 => "ME1"@,
        PlatformRoute::NA1 => "NA1"@,
        PlatformRoute::OC1 => "OC1"@,
        PlatformRoute::PH2 => "PH2"@,
        PlatformRoute::RU => "RU"@,
        PlatformRoute::SG2 => "SG2"@,
        PlatformRoute::TH2 => "TH2"@,
        PlatformRoute::TR1 => "TR1"@,
        PlatformRoute::TW2 => "TW2"@,
        PlatformRoute::VN2 => "VN2"@,
        PlatformRoute::PBE1 => "PBE1"@,
    }
}

/// The route whose region code is `s`; `EUW1` for any other text.
pub open spec fn route_from_code(s: Seq<char>) -> PlatformRoute {
    if s == "BR"@ {
        PlatformRoute::BR1
    } else if s == "EUNE"@ {
        PlatformRoute::EUN1
    } else if s == "EUW"@ {
        PlatformRoute::EUW1
    } else if s == "JP"@ {
        PlatformRoute::JP1
    } else if s == "KR"@ {
        PlatformRoute::KR
    } else if s == "LAN"@ {
        PlatformRoute::LA1
    } else if s == "LAS"@ {
        PlatformRoute::LA2
    } else if s == "MENA"@ {
        PlatformRoute::ME1
    } else if s == "NA"@ {
        PlatformRoute::NA1
    } else if s == "OCE"@ {
        PlatformRoute::OC1
    } else if s == "PH"@ {
        PlatformRoute::PH2
    } else if s == "RU"@ {
        PlatformRoute::RU
    } else if s == "SG"@ {
        PlatformRoute::SG2
    } else if s == "TH"@ {
        PlatformRoute::TH2
    } else if s == "TR"@ {
        PlatformRoute::TR1
    } else if s == "TW"@ {
        PlatformRoute::TW2
    } else if s == "VN"@ {
        PlatformRoute::VN2
    } else if s == "PBE"@ {
        PlatformRoute::PBE1
    } else {
        PlatformRoute::EUW1
    }
}

/// The route whose platform name is `s`; `EUW1` for any other text.
pub open spec fn route_from_raw_name(s: Seq<char>) -> PlatformRoute {
    if s == "BR1"@ {
        PlatformRoute::BR1
    } else if s == "EUN1"@ {
        PlatformRoute::EUN1
    } else if s == "EUW1"@ {
        PlatformRoute::EUW1
    } else if s == "JP1"@ {
        PlatformRoute::JP1
    } else if s == "KR"@ {
        PlatformRoute::KR
    } else if s == "LA1"@ {
        PlatformRoute::LA1
    } else if s == "LA2"@ {
        PlatformRoute::LA2
    } else if s == "ME1"@ {
        PlatformRoute::ME1
    } else if s == "NA1"@ {
        PlatformRoute::NA1
    } else if s == "OC1"@ {
        PlatformRoute::OC1
    } else if s == "PH2"@ {
        PlatformRoute::PH2
    } else if s == "RU"@ {
        PlatformRoute::RU
    } else if s == "SG2"@ {
        PlatformRoute::SG2
    } else if s == "TH2"@ {
        PlatformRoute::TH2
    } else if s == "TR1"@ {
        PlatformRoute::TR1
    } else if s == "TW2"@ {
        PlatformRoute::TW2
    } else if s == "VN2"@ {
        PlatformRoute::VN2
    } else if s == "PBE1"@ {
        PlatformRoute::PBE1
    } else {
        PlatformRoute::EUW1
    }
}

impl PlatformRoute {
    /// The route whose platform name is `value` ("EUW1", "EUN1", ...); `EUW1` for any other text.
    pub fn from_raw_str(value: &str) -> (res: PlatformRoute)
        ensures
            res == route_from_raw_name(value@),
    {
        let cs = chars_of(value);
        if chars_eq_str(&cs, "BR1") {
            PlatformRoute::BR1
        } else if chars_eq_str(&cs, "EUN1") {
            PlatformRoute::EUN1
        } else if chars_eq_str(&cs, "EUW1") {
            PlatformRoute::EUW1
        } else if chars_eq_str(&cs, "JP1") {
            PlatformRoute::JP1
        } else if chars_eq_str(&cs, "KR") {
            PlatformRoute::KR
        } else if chars_eq_str(&cs, "LA1") {
            PlatformRoute::LA1
        } else if chars_eq_str(&cs, "LA2") {
            PlatformRoute::LA2
        } else if chars_eq_str(&cs, "ME1") {
            PlatformRoute::ME1
        } else if chars_eq_str(&cs, "NA1") {
            PlatformRoute::NA1
        } else if chars_eq_str(&cs, "OC1") {
            PlatformRoute::OC1
        } else if chars_eq_str(&cs, "PH2") {
            PlatformRoute::PH2
        } else if chars_eq_str(&cs, "RU") {
            PlatformRoute::RU
        } else if chars_eq_str(&cs, "SG2") {
            PlatformRoute::SG2
        } else if chars_eq_str(&cs, "TH2") {
            PlatformRoute::TH2
        } else if chars_eq_str(&cs, "TR1") {
            PlatformRoute::TR1
        } else if chars_eq_str(&cs, "TW2") {
            PlatformRoute::TW2
        } else if chars_eq_str(&cs, "VN2") {
            PlatformRoute::VN2
        } else if chars_eq_str(&cs, "PBE1") {
            PlatformRoute::PBE1
        } else {
            PlatformRoute::EUW1
        }
    }

    /// The route whose region code is `value` ("EUW", "EUNE", ...); `EUW1` for any other text.
    pub fn from_code(value: &str) -> (res: PlatformRoute)
        ensures
            res == route_from_code(value@),
    {
        let cs = chars_of(value);
        if chars_eq_str(&cs, "BR") {
            PlatformRoute::BR1
        } else if chars_eq_str(&cs, "EUNE") {
            PlatformRoute::EUN1
        } else if chars_eq_str(&cs, "EUW") {
            PlatformRoute::EUW1
        } else if chars_eq_str(&cs, "JP") {
            PlatformRoute::JP1
        } else if chars_eq_str(&cs, "KR") {
            PlatformRoute::KR
        } else if chars_eq_str(&cs, "LAN") {
            PlatformRoute::LA1
        } else if chars_eq_str(&cs, "LAS") {
            PlatformRoute::LA2
        } else if chars_eq_str(&cs, "MENA") {
            PlatformRoute::ME1
        } else if chars_eq_str(&cs, "NA") {
            PlatformRoute::NA1
        } else if chars_eq_str(&cs, "OCE") {
            PlatformRoute::OC1
        } else if chars_eq_str(&cs, "PH") {
            PlatformRoute::PH2
        } else if chars_eq_str(&cs, "RU") {
            PlatformRoute::RU
        } else if chars_eq_str(&cs, "SG") {
            PlatformRoute::SG2
        } else if chars_eq_str(&cs, "TH") {
            PlatformRoute::TH2
        } else if chars_eq_str(&cs, "TR") {
            PlatformRoute::TR1
        } else if chars_eq_str(&cs, "TW") {
            PlatformRoute::TW2
        } else if chars_eq_str(&cs, "VN") {
            PlatformRoute::VN2
        } else if chars_eq_str(&cs, "PBE") {
            PlatformRoute::PBE1
        } else {
            PlatformRoute::EUW1
        }
    }

    /// The region code of the route ("EUW", "EUNE", ...), as the route is displayed.
    pub fn to_str(&self) -> (res: &'static str)
        ensures
            res@ == route_code(*self),
    {
        match self {
            PlatformRoute::BR1 => "BR",
            PlatformRoute::EUN1 => "EUNE",
            PlatformRoute::EUW1 => "EUW",
            PlatformRoute::JP1 => "JP",
            PlatformRoute::KR => "KR",
            PlatformRoute::LA1 => "LAN",
            PlatformRoute::LA2 => "LAS",
            PlatformRoute::ME1 => "MENA",
            PlatformRoute::NA1 => "NA",
            PlatformRoute::OC1 => "OCE",
            PlatformRoute::PH2 => "PH",
            PlatformRoute::RU => "RU",
            PlatformRoute::SG2 => "SG",
            PlatformRoute::TH2 => "TH",
            PlatformRoute::TR1 => "TR",
            PlatformRoute::TW2 => "TW",
            PlatformRoute::VN2 => "VN",
            PlatformRoute::PBE1 => "PBE",
        }
    }

    /// The region code of the route as a `String`, as the route is displayed.
    pub fn to_string(&self) -> (res: String)
        ensures
            res@ == route_code(*self),
    {
        self.to_str().to_owned()
    }

    /// The platform name of the route ("EUW1", "EUN1", ...).
    pub fn raw_name(&self) -> (res: &'static str)
        ensures
            res@ == route_raw_name(*self),
    {
        match self {
            PlatformRoute::BR1 => "BR1",
            PlatformRoute::EUN1 => "EUN1",
            PlatformRoute::EUW1 => "EUW1",
            PlatformRoute::JP1 => "JP1",
            PlatformRoute::KR => "KR",
            PlatformRoute::LA1 => "LA1",
            PlatformRoute::LA2 => "LA2",
            PlatformRoute::ME1 => "ME1",
            PlatformRoute::NA1 => "NA1",
            PlatformRoute::OC1 => "OC1",
            PlatformRoute::PH2 => "PH2",
            PlatformRoute::RU => "RU",
            PlatformRoute::SG2 => "SG2",
            PlatformRoute::TH2 => "TH2",
            PlatformRoute::TR1 => "TR1",
            PlatformRoute::TW2 => "TW2",
            PlatformRoute::VN2 => "VN2",
            PlatformRoute::PBE1 => "PBE1",
        }
    }
}

impl<'a> From<&'a str> for PlatformRoute {
    fn from(value: &'a str) -> (res: PlatformRoute) {
        PlatformRoute::from_code(value)
    }
}

impl<'a> vstd::std_specs::convert::FromSpecImpl<&'a str> for PlatformRoute {
    open spec fn obeys_from_spec() -> bool {
        true
    }

    open spec fn from_spec(v: &'a str) -> PlatformRoute {
        route_from_code(v@)
    }
}

/// The region code of a route is its platform name without the trailing digit ("TH2" gives
/// "TH", "KR" stays "KR"); five codes go on past it: "EUNE", "LAN", "LAS", "MENA" and "OCE".
pub proof fn law_route_code_from_platform_name(p: PlatformRoute)
    ensures
        without_trailing_digit(route_raw_name(p)).is_prefix_of(route_code(p)),
        p != PlatformRoute::EUN1 && p != PlatformRoute::LA1 && p != PlatformRoute::LA2 && p != PlatformRoute::ME1
            && p != PlatformRoute::OC1 ==> route_code(p) == without_trailing_digit(route_raw_name(p)),
        p == PlatformRoute::EUN1 ==> route_code(p) == "EUNE"@,
        p == PlatformRoute::LA1 ==> route_code(p) == "LAN"@,
        p == PlatformRoute::LA2 ==> route_code(p) == "LAS"@,
        p == PlatformRoute::ME1 ==> route_code(p) == "MENA"@,
        p == PlatformRoute::OC1 ==> route_code(p) == "OCE"@,
{
    reveal_strlit("BR1");
    reveal_strlit("EUN1");
    reveal_strlit("EUW1");
    reveal_strlit("JP1");
    reveal_strlit("LA1");
    reveal_strlit("LA2");
    reveal_strlit("ME1");
    reveal_strlit("NA1");
    reveal_strlit("OC1");
    reveal_strlit("PH2");
    reveal_strlit("SG2");
    reveal_strlit("TH2");
    reveal_strlit("TR1");
    reveal_strlit("TW2");
    reveal_strlit("VN2");
    reveal_strlit("PBE1");
    reveal_strlit("BR");
    reveal_strlit("EUNE");
    reveal_strlit("EUW");
    reveal_strlit("JP");
    reveal_strlit("KR");
    reveal_strlit("LAN");
    reveal_strlit("LAS");
    reveal_strlit("MENA");
    reveal_strlit("NA");
    reveal_strlit("OCE");
    reveal_strlit("PH");
    reveal_strlit("RU");
    reveal_strlit("SG");
    reveal_strlit("TH");
    reveal_strlit("TR");
    reveal_strlit("TW");
    reveal_strlit("VN");
    reveal_strlit("PBE");
    match p {
        PlatformRoute::BR1 => {
            assert(without_trailing_digit("BR1"@) =~= "BR1"@.drop_last());
            assert("BR1"@.drop_last() =~= "BR"@.subrange(0, 2));
            assert(without_trailing_digit("BR1"@) =~= "BR"@);
        },
        PlatformRoute::EUN1 => {
            assert(without_trailing_digit("EUN1"@) =~= "EUN1"@.drop_last());
            assert("EUN1"@.drop_last() =~= "EUNE"@.subrange(0, 3));
        },
        PlatformRoute::EUW1 => {
            assert(without_trailing_digit("EUW1"@) =~= "EUW1"@.drop_last());
            assert("EUW1"@.drop_last() =~= "EUW"@.subrange(0, 3));
            assert(without_trailing_digit("EUW1"@) =~= "EUW"@);
        },
        PlatformRoute::JP1 => {
            assert(without_trailing_digit("JP1"@) =~= "JP1"@.drop_last());
            assert("JP1"@.drop_last() =~= "JP"@.subrange(0, 2));
            assert(without_trailing_digit("JP1"@) =~= "JP"@);
        },
        PlatformRoute::KR => {
            assert(without_trailing_digit("KR"@) == "KR"@);
            assert("KR"@ =~= "KR"@.subrange(0, 2));
            assert(without_trailing_digit("KR"@) =~= "KR"@);
        },
        PlatformRoute::LA1 => {
            assert(without_trailing_digit("LA1"@) =~= "LA1"@.drop_last());
            assert("LA1"@.drop_last() =~= "LAN"@.subrange(0, 2));
        },
        PlatformRoute::LA2 => {
            assert(without_trailing_digit("LA2"@) =~= "LA2"@.drop_last());
            assert("LA2"@.drop_last() =~= "LAS"@.subrange(0, 2));
        },
        PlatformRoute::ME1 => {
            assert(without_trailing_digit("ME1"@) =~= "ME1"@.drop_last());
            assert("ME1"@.drop_last() =~= "MENA"@.subrange(0, 2));
        },
        PlatformRoute::NA1 => {
            assert(without_trailing_digit("NA1"@) =~= "NA1"@.drop_last());
            assert("NA1"@.drop_last() =~= "NA"@.subrange(0, 2));
            assert(without_trailing_digit("NA1"@) =~= "NA"@);
        },
        PlatformRoute::OC1 => {
            assert(without_trailing_digit("OC1"@) =~= "OC1"@.drop_last());
            assert("OC1"@.drop_last() =~= "OCE"@.subrange(0, 2));
        },
        PlatformRoute::PH2 => {
            assert(without_trailing_digit("PH2"@) =~= "PH2"@.drop_last());
            assert("PH2"@.drop_last() =~= "PH"@.subrange(0, 2));
            assert(without_trailing_digit("PH2"@) =~= "PH"@);
        },
        PlatformRoute::RU => {
            assert(without_trailing_digit("RU"@) == "RU"@);
            assert("RU"@ =~= "RU"@.subrange(0, 2));
            assert(without_trailing_digit("RU"@) =~= "RU"@);
        },
        PlatformRoute::SG2 => {
            assert(without_trailing_digit("SG2"@) =~= "SG2"@.drop_last());
            assert("SG2"@.drop_last() =~= "SG"@.subrange(0, 2));
            assert(without_trailing_digit("SG2"@) =~= "SG"@);
        },
        PlatformRoute::TH2 => {
            assert(without_trailing_digit("TH2"@) =~= "TH2"@.drop_last());
            assert("TH2"@.drop_last() =~= "TH"@.subrange(0, 2));
            assert(without_trailing_digit("TH2"@) =~= "TH"@);
        },
        PlatformRoute::TR1 => {
            assert(without_trailing_digit("TR1"@) =~= "TR1"@.drop_last());
            assert("TR1"@.drop_last() =~= "TR"@.subrange(0, 2));
            assert(without_trailing_digit("TR1"@) =~= "TR"@);
        },
        PlatformRoute::TW2 => {
            assert(without_trailing_digit("TW2"@) =~= "TW2"@.drop_last());
            assert("TW2"@.drop_last() =~= "TW"@.subrange(0, 2));
            assert(without_trailing_digit("TW2"@) =~= "TW"@);
        },
        PlatformRoute::VN2 => {
            assert(without_trailing_digit("VN2"@) =~= "VN2"@.drop_last());
            assert("VN2"@.drop_last() =~= "VN"@.subrange(0, 2));
            assert(without_trailing_digit("VN2"@) =~= "VN"@);
        },
        PlatformRoute::PBE1 => {
            assert(without_trailing_digit("PBE1"@) =~= "PBE1"@.drop_last());
            assert("PBE1"@.drop_last() =~= "PBE"@.subrange(0, 3));
            assert(without_trailing_digit("PBE1"@) =~= "PBE"@);
        },
    }
}

/// Reading the region code of a route gives the route back.
pub proof fn law_route_code_roundtrip(p: PlatformRoute)
    ensures
        route_from_code(route_code(p)) == p,
{
    reveal_strlit("BR");
    reveal_strlit("EUNE");
    reveal_strlit("EUW");
    reveal_strlit("JP");
    reveal_strlit("KR");
    reveal_strlit("LAN");
    reveal_strlit("LAS");
    reveal_strlit("MENA");
    reveal_strlit("NA");
    reveal_strlit("OCE");
    reveal_strlit("PH");
    reveal_strlit("RU");
    reveal_strlit("SG");
    reveal_strlit("TH");
    reveal_strlit("TR");
    reveal_strlit("TW");
    reveal_strlit("VN");
    reveal_strlit("PBE");
    match p {
        PlatformRoute::BR1 => {
            assert(route_from_code(route_code(p)) == PlatformRoute::BR1);
        },
        PlatformRoute::EUN1 => {
            assert("EUNE"@.len() != "BR"@.len());
            assert(route_from_code(route_code(p)) == PlatformRoute::EUN1);
        },
        PlatformRoute::EUW1 => {
            assert("EUW"@.len() != "BR"@.len());
            assert("EUW"@.len() != "EUNE"@.len());
            assert(route_from_code(route_code(p)) == PlatformRoute::EUW1);
        },
        PlatformRoute::JP1 => {
            assert("JP"@[0] != "BR"@[0]);
            assert("JP"@.len() != "EUNE"@.len());
            assert("JP"@.len() != "EUW"@.len());
            assert(route_from_code(route_code(p)) == PlatformRoute::JP1);
        },
        PlatformRoute::KR => {
            assert("KR"@[0] != "BR"@[0]);
            assert("KR"@.len() != "EUNE"@.len());
            assert("KR"@.len() != "EUW"@.len());
            assert("KR"@[0] != "JP"@[0]);
            assert(route_from_code(route_code(p)) == PlatformRoute::KR);
        },
        PlatformRoute::LA1 => {
            assert("LAN"@.len() != "BR"@.len());
            assert("LAN"@.len() != "EUNE"@.len());
            assert("LAN"@[0] != "EUW"@[0]);
            assert("LAN"@.len() != "JP"@.len());
            assert("LAN"@.len() != "KR"@.len());
            assert(route_from_code(route_code(p)) == PlatformRoute::LA1);
        },
        PlatformRoute::LA2 => {
            assert("LAS"@.len() != "BR"@.len());
            assert("LAS"@.len() != "EUNE"@.len());
            assert("LAS"@[0] != "EUW"@[0]);
            assert("LAS"@.len() != "JP"@.len());
            assert("LAS"@.len() != "KR"@.len());
            assert("LAS"@[2] != "LAN"@[2]);
            assert(route_from_code(route_code(p)) == PlatformRoute::LA2);
        },
        PlatformRoute::ME1 => {
            assert("MENA"@.len() != "BR"@.len());
            assert("MENA"@[0] != "EUNE"@[0]);
            assert("MENA"@.len() != "EUW"@.len());
            assert("MENA"@.len() != "JP"@.len());
            assert("MENA"@.len() != "KR"@.len());
            assert("MENA"@.len() != "LAN"@.len());
            assert("MENA"@.len() != "LAS"@.len());
            assert(route_from_code(route_code(p)) == PlatformRoute::ME1);
        },
        PlatformRoute::NA1 => {
            assert("NA"@[0] != "BR"@[0]);
            assert("NA"@.len() != "EUNE"@.len());
            assert("NA"@.len() != "EUW"@.len());
            assert("NA"@[0] != "JP"@[0]);
            assert("NA"@[0] != "KR"@[0]);
            assert("NA"@.len() != "LAN"@.len());
            assert("NA"@.len() != "LAS"@.len());
            assert("NA"@.len() != "MENA"@.len());
            assert(route_from_code(route_code(p)) == PlatformRoute::NA1);
        },
        PlatformRoute::OC1 => {
            assert("OCE"@.len() != "BR"@.len());
            assert("OCE"@.len() != "EUNE"@.len());
            assert("OCE"@[0] != "EUW"@[0]);
            assert("OCE"@.len() != "JP"@.len());
            assert("OCE"@.len() != "KR"@.len());
            assert("OCE"@[0] != "LAN"@[0]);
            assert("OCE"@[0] != "LAS"@[0]);
            assert("OCE"@.len() != "MENA"@.len());
            assert("OCE"@.len() != "NA"@.len());
            assert(route_from_code(route_code(p)) == PlatformRoute::OC1);
        },
        PlatformRoute::PH2 => {
            assert("PH"@[0] != "BR"@[0]);
            assert("PH"@.len() != "EUNE"@.len());
            assert("PH"@.len() != "EUW"@.len());
            assert("PH"@[0] != "JP"@[0]);
            assert("PH"@[0] != "KR"@[0]);
            assert("PH"@.len() != "LAN"@.len());
            assert("PH"@.len() != "LAS"@.len());
            assert("PH"@.len() != "MENA"@.len());
            assert("PH"@[0] != "NA"@[0]);
            assert("PH"@.len() != "OCE"@.len());
            assert(route_from_code(route_code(p)) == PlatformRoute::PH2);
        },
        PlatformRoute::RU => {
            assert("RU"@[0] != "BR"@[0]);
            assert("RU"@.len() != "EUNE"@.len());
            assert("RU"@.len() != "EUW"@.len());
            assert("RU"@[0] != "JP"@[0]);
            assert("RU"@[0] != "KR"@[0]);
            assert("RU"@.len() != "LAN"@.len());
            assert("RU"@.len() != "LAS"@.len());
            assert("RU"@.len() != "MENA"@.len());
            assert("RU"@[0] != "NA"@[0]);
            assert("RU"@.len() != "OCE"@.len());
            assert("RU"@[0] != "PH"@[0]);
            assert(route_from_code(route_code(p)) == PlatformRoute::RU);
        },
        PlatformRoute::SG2 => {
            assert("SG"@[0] != "BR"@[0]);
            assert("SG"@.len() != "EUNE"@.len());
            assert("SG"@.len() != "EUW"@.len());
            assert("SG"@[0] != "JP"@[0]);
            assert("SG"@[0] != "KR"@[0]);
            assert("SG"@.len() != "LAN"@.len());
            assert("SG"@.len() != "LAS"@.len());
            assert("SG"@.len() != "MENA"@.len());
            assert("SG"@[0] != "NA"@[0]);
            assert("SG"@.len() != "OCE"@.len());
            assert("SG"@[0] != "PH"@[0]);
            assert("SG"@[0] != "RU"@[0]);
            assert(route_from_code(route_code(p)) == PlatformRoute::SG2);
        },
        PlatformRoute::TH2 => {
            assert("TH"@[0] != "BR"@[0]);
            assert("TH"@.len() != "EUNE"@.len());
            assert("TH"@.len() != "EUW"@.len());
            assert("TH"@[0] != "JP"@[0]);
            assert("TH"@[0] != "KR"@[0]);
            assert("TH"@.len() != "LAN"@.len());
            assert("TH"@.len() != "LAS"@.len());
            assert("TH"@.len() != "MENA"@.len());
            assert("TH"@[0] != "NA"@[0]);
            assert("TH"@.len() != "OCE"@.len());
            assert("TH"@[0] != "PH"@[0]);
            assert("TH"@[0] != "RU"@[0]);
            assert("TH"@[0] != "SG"@[0]);
            assert(route_from_code(route_code(p)) == PlatformRoute::TH2);
        },
        PlatformRoute::TR1 => {
            assert("TR"@[0] != "BR"@[0]);
            assert("TR"@.len() != "EUNE"@.len());
            assert("TR"@.len() != "EUW"@.len());
            assert("TR"@[0] != "JP"@[0]);
            assert("TR"@[0] != "KR"@[0]);
            assert("TR"@.len() != "LAN"@.len());
            assert("TR"@.len() != "LAS"@.len());
            assert("TR"@.len() != "MENA"@.len());
            assert("TR"@[0] != "NA"@[0]);
            assert("TR"@.len() != "OCE"@.len());
            assert("TR"@[0] != "PH"@[0]);
            assert("TR"@[0] != "RU"@[0]);
            assert("TR"@[0] != "SG"@[0]);
            assert("TR"@[1] != "TH"@[1]);
            assert(route_from_code(route_code(p)) == PlatformRoute::TR1);
        },
        PlatformRoute::TW2 => {
            assert("TW"@[0] != "BR"@[0]);
            assert("TW"@.len() != "EUNE"@.len());
            assert("TW"@.len() != "EUW"@.len());
            assert("TW"@[0] != "JP"@[0]);
            assert("TW"@[0] != "KR"@[0]);
            assert("TW"@.len() != "LAN"@.len());
            assert("TW"@.len() != "LAS"@.len());
            assert("TW"@.len() != "MENA"@.len());
            assert("TW"@[0] != "NA"@[0]);
            assert("TW"@.len() != "OCE"@.len());
            assert("TW"@[0] != "PH"@[0]);
            assert("TW"@[0] != "RU"@[0]);
            assert("TW"@[0] != "SG"@[0]);
            assert("TW"@[1] != "TH"@[1]);
            assert("TW"@[1] != "TR"@[1]);
            assert(route_from_code(route_code(p)) == PlatformRoute::TW2);
        },
        PlatformRoute::VN2 => {
            assert("VN"@[0] != "BR"@[0]);
            assert("VN"@.len() != "EUNE"@.len());
            assert("VN"@.len() != "EUW"@.len());
            assert("VN"@[0] != "JP"@[0]);
            assert("VN"@[0] != "KR"@[0]);
            assert("VN"@.len() != "LAN"@.len());
            assert("VN"@.len() != "LAS"@.len());
            assert("VN"@.len() != "MENA"@.len());
            assert("VN"@[0] != "NA"@[0]);
            assert("VN"@.len() != "OCE"@.len());
            assert("VN"@[0] != "PH"@[0]);
            assert("VN"@[0] != "RU"@[0]);
            assert("VN"@[0] != "SG"@[0]);
            assert("VN"@[0] != "TH"@[0]);
            assert("VN"@[0] != "TR"@[0]);
            assert("VN"@[0] != "TW"@[0]);
            assert(route_from_code(route_code(p)) == PlatformRoute::VN2);
        },
        PlatformRoute::PBE1 => {
            assert("PBE"@.len() != "BR"@.len());
            assert("PBE"@.len() != "EUNE"@.len());
            assert("PBE"@[0] != "EUW"@[0]);
            assert("PBE"@.len() != "JP"@.len());
            assert("PBE"@.len() != "KR"@.len());
            assert("PBE"@[0] != "LAN"@[0]);
            assert("PBE"@[0] != "LAS"@[0]);
            assert("PBE"@.len() != "MENA"@.len());
            assert("PBE"@.len() != "NA"@.len());
            assert("PBE"@[0] != "OCE"@[0]);
            assert("PBE"@.len() != "PH"@.len());
            assert("PBE"@.len() != "RU"@.len());
            assert("PBE"@.len() != "SG"@.len());
            assert("PBE"@.len() != "TH"@.len());
            assert("PBE"@.len() != "TR"@.len());
            assert("PBE"@.len() != "TW"@.len());
            assert("PBE"@.len() != "VN"@.len());
            assert(route_from_code(route_code(p)) == PlatformRoute::PBE1);
        },
    }
}

/// A text that is the region code of no route reads as `EUW1`.
pub proof fn law_unknown_code_reads_as_euw(s: Seq<char>)
    requires
        forall|p: PlatformRoute| #[trigger] route_code(p) != s,
    ensures
        route_from_code(s) == PlatformRoute::EUW1,
{
    assert(route_code(PlatformRoute::BR1) != s);
    assert(route_code(PlatformRoute::EUN1) != s);
    assert(route_code(PlatformRoute::EUW1) != s);
    assert(route_code(PlatformRoute::JP1) != s);
    assert(route_code(PlatformRoute::KR) != s);
    assert(route_code(PlatformRoute::LA1) != s);
    assert(route_code(PlatformRoute::LA2) != s);
    assert(route_code(PlatformRoute::ME1) != s);
    assert(route_code(PlatformRoute::NA1) != s);
    assert(route_code(PlatformRoute::OC1) != s);
    assert(route_code(PlatformRoute::PH2) != s);
    assert(route_code(PlatformRoute::RU) != s);
    assert(route_code(PlatformRoute::SG2) != s);
    assert(route_code(PlatformRoute::TH2) != s);
    assert(route_code(PlatformRoute::TR1) != s);
    assert(route_code(PlatformRoute::TW2) != s);
    assert(route_code(PlatformRoute::VN2) != s);
    assert(route_code(PlatformRoute::PBE1) != s);
}

/// A text that is the platform name of no route reads as `EUW1`.
pub proof fn law_unknown_raw_name_reads_as_euw(s: Seq<char>)
    requires
        forall|p: PlatformRoute| #[trigger] route_raw_name(p) != s,
    ensures
        route_from_raw_name(s) == PlatformRoute::EUW1,
{
    assert(route_raw_name(PlatformRoute::BR1) != s);
    assert(route_raw_name(PlatformRoute::EUN1) != s);
    assert(route_raw_name(PlatformRoute::EUW1) != s);
    assert(route_raw_name(PlatformRoute::JP1) != s);
    assert(route_raw_name(PlatformRoute::KR) != s);
    assert(route_raw_name(PlatformRoute::LA1) != s);
    assert(route_raw_name(PlatformRoute::LA2) != s);
    assert(route_raw_name(PlatformRoute::ME1) != s);
    assert(route_raw_name(PlatformRoute::NA1) != s);
    assert(route_raw_name(PlatformRoute::OC1) != s);
    assert(route_raw_name(PlatformRoute::PH2) != s);
    assert(route_raw_name(PlatformRoute::RU) != s);
    assert(route_raw_name(PlatformRoute::SG2) != s);
    assert(route_raw_name(PlatformRoute::TH2) != s);
    assert(route_raw_name(PlatformRoute::TR1) != s);
    assert(route_raw_name(PlatformRoute::TW2) != s);
    assert(route_raw_name(PlatformRoute::VN2) != s);
    assert(route_raw_name(PlatformRoute::PBE1) != s);
}

/// Reading the platform name of a route gives the route back.
pub proof fn law_route_raw_name_roundtrip(p: PlatformRoute)
    ensures
        route_from_raw_name(route_raw_name(p)) == p,
{
    reveal_strlit("BR1");
    reveal_strlit("EUN1");
    reveal_strlit("EUW1");
    reveal_strlit("JP1");
    reveal_strlit("KR");
    reveal_strlit("LA1");
    reveal_strlit("LA2");
    reveal_strlit("ME1");
    reveal_strlit("NA1");
    reveal_strlit("OC1");
    reveal_strlit("PH2");
    reveal_strlit("RU");
    reveal_strlit("SG2");
    reveal_strlit("TH2");
    reveal_strlit("TR1");
    reveal_strlit("TW2");
    reveal_strlit("VN2");
    reveal_strlit("PBE1");
    match p {
        PlatformRoute::BR1 => {
            assert(route_from_raw_name(route_raw_name(p)) == PlatformRoute::BR1);
        },
        PlatformRoute::EUN1 => {
            assert("EUN1"@.len() != "BR1"@.len());
            assert(route_from_raw_name(route_raw_name(p)) == PlatformRoute::EUN1);
        },
        PlatformRoute::EUW1 => {
            assert("EUW1"@.len() != "BR1"@.len());
            assert("EUW1"@[2] != "EUN1"@[2]);
            assert(route_from_raw_name(route_raw_name(p)) == PlatformRoute::EUW1);
        },
        PlatformRoute::JP1 => {
            assert("JP1"@[0] != "BR1"@[0]);
            assert("JP1"@.len() != "EUN1"@.len());
            assert("JP1"@.len() != "EUW1"@.len());
            assert(route_from_raw_name(route_raw_name(p)) == PlatformRoute::JP1);
        },
        PlatformRoute::KR => {
            assert("KR"@.len() != "BR1"@.len());
            assert("KR"@.len() != "EUN1"@.len());
            assert("KR"@.len() != "EUW1"@.len());
            assert("KR"@.len() != "JP1"@.len());
            assert(route_from_raw_name(route_raw_name(p)) == PlatformRoute::KR);
        },
        PlatformRoute::LA1 => {
            assert("LA1"@[0] != "BR1"@[0]);
            assert("LA1"@.len() != "EUN1"@.len());
            assert("LA1"@.len() != "EUW1"@.len());
            assert("LA1"@[0] != "JP1"@[0]);
            assert("LA1"@.len() != "KR"@.len());
            assert(route_from_raw_name(route_raw_name(p)) == PlatformRoute::LA1);
        },
        PlatformRoute::LA2 => {
            assert("LA2"@[0] != "BR1"@[0]);
            assert("LA2"@.len() != "EUN1"@.len());
            assert("LA2"@.len() != "EUW1"@.len());
            assert("LA2"@[0] != "JP1"@[0]);
            assert("LA2"@.len() != "KR"@.len());
            assert("LA2"@[2] != "LA1"@[2]);
            assert(route_from_raw_name(route_raw_name(p)) == PlatformRoute::LA2);
        },
        PlatformRoute::ME1 => {
            assert("ME1"@[0] != "BR1"@[0]);
            assert("ME1"@.len() != "EUN1"@.len());
            assert("ME1"@.len() != "EUW1"@.len());
            assert("ME1"@[0] != "JP1"@[0]);
            assert("ME1"@.len() != "KR"@.len());
            assert("ME1"@[0] != "LA1"@[0]);
            assert("ME1"@[0] != "LA2"@[0]);
            assert(route_from_raw_name(route_raw_name(p)) == PlatformRoute::ME1);
        },
        PlatformRoute::NA1 => {
            assert("NA1"@[0] != "BR1"@[0]);
            assert("NA1"@.len() != "EUN1"@.len());
            assert("NA1"@.len() != "EUW1"@.len());
            assert("NA1"@[0] != "JP1"@[0]);
            assert("NA1"@.len() != "KR"@.len());
            assert("NA1"@[0] != "LA1"@[0]);
            assert("NA1"@[0] != "LA2"@[0]);
            assert("NA1"@[0] != "ME1"@[0]);
            assert(route_from_raw_name(route_raw_name(p)) == PlatformRoute::NA1);
        },
        PlatformRoute::OC1 => {
            assert("OC1"@[0] != "BR1"@[0]);
            assert("OC1"@.len() != "EUN1"@.len());
            assert("OC1"@.len() != "EUW1"@.len());
            assert("OC1"@[0] != "JP1"@[0]);
            assert("OC1"@.len() != "KR"@.len());
            assert("OC1"@[0] != "LA1"@[0]);
            assert("OC1"@[0] != "LA2"@[0]);
            assert("OC1"@[0] != "ME1"@[0]);
            assert("OC1"@[0] != "NA1"@[0]);
            assert(route_from_raw_name(route_raw_name(p)) == PlatformRoute::OC1);
        },
        PlatformRoute::PH2 => {
            assert("PH2"@[0] != "BR1"@[0]);
            assert("PH2"@.len() != "EUN1"@.len());
            assert("PH2"@.len() != "EUW1"@.len());
            assert("PH2"@[0] != "JP1"@[0]);
            assert("PH2"@.len() != "KR"@.len());
            assert("PH2"@[0] != "LA1"@[0]);
            assert("PH2"@[0] != "LA2"@[0]);
            assert("PH2"@[0] != "ME1"@[0]);
            assert("PH2"@[0] != "NA1"@[0]);
            assert("PH2"@[0] != "OC1"@[0]);
            assert(route_from_raw_name(route_raw_name(p)) == PlatformRoute::PH2);
        },
        PlatformRoute::RU => {
            assert("RU"@.len() != "BR1"@.len());
            assert("RU"@.len() != "EUN1"@.len());
            assert("RU"@.len() != "EUW1"@.len());
            assert("RU"@.len() != "JP1"@.len());
            assert("RU"@[0] != "KR"@[0]);
            assert("RU"@.len() != "LA1"@.len());
            assert("RU"@.len() != "LA2"@.len());
            assert("RU"@.len() != "ME1"@.len());
            assert("RU"@.len() != "NA1"@.len());
            assert("RU"@.len() != "OC1"@.len());
            assert("RU"@.len() != "PH2"@.len());
            assert(route_from_raw_name(route_raw_name(p)) == PlatformRoute::RU);
        },
        PlatformRoute::SG2 => {
            assert("SG2"@[0] != "BR1"@[0]);
            assert("SG2"@.len() != "EUN1"@.len());
            assert("SG2"@.len() != "EUW1"@.len());
            assert("SG2"@[0] != "JP1"@[0]);
            assert("SG2"@.len() != "KR"@.len());
            assert("SG2"@[0] != "LA1"@[0]);
            assert("SG2"@[0] != "LA2"@[0]);
            assert("SG2"@[0] != "ME1"@[0]);
            assert("SG2"@[0] != "NA1"@[0]);
            assert("SG2"@[0] != "OC1"@[0]);
            assert("SG2"@[0] != "PH2"@[0]);
            assert("SG2"@.len() != "RU"@.len());
            assert(route_from_raw_name(route_raw_name(p)) == PlatformRoute::SG2);
        },
        PlatformRoute::TH2 => {
            assert("TH2"@[0] != "BR1"@[0]);
            assert("TH2"@.len() != "EUN1"@.len());
            assert("TH2"@.len() != "EUW1"@.len());
            assert("TH2"@[0] != "JP1"@[0]);
            assert("TH2"@.len() != "KR"@.len());
            assert("TH2"@[0] != "LA1"@[0]);
            assert("TH2"@[0] != "LA2"@[0]);
            assert("TH2"@[0] != "ME1"@[0]);
            assert("TH2"@[0] != "NA1"@[0]);
            assert("TH2"@[0] != "OC1"@[0]);
            assert("TH2"@[0] != "PH2"@[0]);
            assert("TH2"@.len() != "RU"@.len());
            assert("TH2"@[0] != "SG2"@[0]);
            assert(route_from_raw_name(route_raw_name(p)) == PlatformRoute::TH2);
        },
        PlatformRoute::TR1 => {
            assert("TR1"@[0] != "BR1"@[0]);
            assert("TR1"@.len() != "EUN1"@.len());
            assert("TR1"@.len() != "EUW1"@.len());
            assert("TR1"@[0] != "JP1"@[0]);
            assert("TR1"@.len() != "KR"@.len());
            assert("TR1"@[0] != "LA1"@[0]);
            assert("TR1"@[0] != "LA2"@[0]);
            assert("TR1"@[0] != "ME1"@[0]);
            assert("TR1"@[0] != "NA1"@[0]);
            assert("TR1"@[0] != "OC1"@[0]);
            assert("TR1"@[0] != "PH2"@[0]);
            assert("TR1"@.len() != "RU"@.len());
            assert("TR1"@[0] != "SG2"@[0]);
            assert("TR1"@[1] != "TH2"@[1]);
            assert(route_from_raw_name(route_raw_name(p)) == PlatformRoute::TR1);
        },
        PlatformRoute::TW2 => {
            assert("TW2"@[0] != "BR1"@[0]);
            assert("TW2"@.len() != "EUN1"@.len());
            assert("TW2"@.len() != "EUW1"@.len());
            assert("TW2"@[0] != "JP1"@[0]);
            assert("TW2"@.len() != "KR"@.len());
            assert("TW2"@[0] != "LA1"@[0]);
            assert("TW2"@[0] != "LA2"@[0]);
            assert("TW2"@[0] != "ME1"@[0]);
            assert("TW2"@[0] != "NA1"@[0]);
            assert("TW2"@[0] != "OC1"@[0]);
            assert("TW2"@[0] != "PH2"@[0]);
            assert("TW2"@.len() != "RU"@.len());
            assert("TW2"@[0] != "SG2"@[0]);
            assert("TW2"@[1] != "TH2"@[1]);
            assert("TW2"@[1] != "TR1"@[1]);
            assert(route_from_raw_name(route_raw_name(p)) == PlatformRoute::TW2);
        },
        PlatformRoute::VN2 => {
            assert("VN2"@[0] != "BR1"@[0]);
            assert("VN2"@.len() != "EUN1"@.len());
            assert("VN2"@.len() != "EUW1"@.len());
            assert("VN2"@[0] != "JP1"@[0]);
            assert("VN2"@.len() != "KR"@.len());
            assert("VN2"@[0] != "LA1"@[0]);
            assert("VN2"@[0] != "LA2"@[0]);
            assert("VN2"@[0] != "ME1"@[0]);
            assert("VN2"@[0] != "NA1"@[0]);
            assert("VN2"@[0] != "OC1"@[0]);
            assert("VN2"@[0] != "PH2"@[0]);
            assert("VN2"@.len() != "RU"@.len());
            assert("VN2"@[0] != "SG2"@[0]);
            assert("VN2"@[0] != "TH2"@[0]);
            assert("VN2"@[0] != "TR1"@[0]);
            assert("VN2"@[0] != "TW2"@[0]);
            assert(route_from_raw_name(route_raw_name(p)) == PlatformRoute::VN2);
        },
        PlatformRoute::PBE1 => {
            assert("PBE1"@.len() != "BR1"@.len());
            assert("PBE1"@[0] != "EUN1"@[0]);
            assert("PBE1"@[0] != "EUW1"@[0]);
            assert("PBE1"@.len() != "JP1"@.len());
            assert("PBE1"@.len() != "KR"@.len());
            assert("PBE1"@.len() != "LA1"@.len());
            assert("PBE1"@.len() != "LA2"@.len());
            assert("PBE1"@.len() != "ME1"@.len());
            assert("PBE1"@.len() != "NA1"@.len());
            assert("PBE1"@.len() != "OC1"@.len());
            assert("PBE1"@.len() != "PH2"@.len());
            assert("PBE1"@.len() != "RU"@.len());
            assert("PBE1"@.len() != "SG2"@.len());
            assert("PBE1"@.len() != "TH2"@.len());
            assert("PBE1"@.len() != "TR1"@.len());
            assert("PBE1"@.len() != "TW2"@.len());
            assert("PBE1"@.len() != "VN2"@.len());
            assert(route_from_raw_name(route_raw_name(p)) == PlatformRoute::PBE1);
        },
    }
}

} // verus!

verus! {

/// The routes offered to users, in display order: every route but Russia and the beta
/// environment.
pub open spec fn route_options() -> Seq<PlatformRoute> {
    seq![
        PlatformRoute::BR1, PlatformRoute::EUN1, PlatformRoute::EUW1, PlatformRoute::JP1,
        PlatformRoute::KR, PlatformRoute::LA1, PlatformRoute::LA2, PlatformRoute::ME1,
        PlatformRoute::NA1, PlatformRoute::OC1, PlatformRoute::PH2, PlatformRoute::SG2,
        PlatformRoute::TH2, PlatformRoute::TR1, PlatformRoute::TW2, PlatformRoute::VN2,
    ]
}

/// The routes offered to users, in display order.
pub fn platform_route_options() -> (res: Vec<PlatformRoute>)
    ensures
        res@ == route_options(),
{
    let res = vec![
        PlatformRoute::BR1, PlatformRoute::EUN1, PlatformRoute::EUW1, PlatformRoute::JP1,
        PlatformRoute::KR, PlatformRoute::LA1, PlatformRoute::LA2, PlatformRoute::ME1,
        PlatformRoute::NA1, PlatformRoute::OC1, PlatformRoute::PH2, PlatformRoute::SG2,
        PlatformRoute::TH2, PlatformRoute::TR1, PlatformRoute::TW2, PlatformRoute::VN2,
    ];
    assert(res@ =~= route_options());
    res
}

} // verus!
