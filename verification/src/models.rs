use vstd::prelude::*;

use crate::text::str_eq;

verus! {

/// Supported countries for deal filtering (ISO 3166-1 alpha-2 codes).
#[derive(Debug, Clone, Copy, PartialEq, Eq, Structural)]
pub enum Region {
    AT,
    BE,
    BG,
    CH,
    CZ,
    DE,
    DK,
    EE,
    ES,
    FI,
    FR,
    GB,
    GR,
    HR,
    HU,
    IE,
    IT,
    LT,
    LV,
    NL,
    NO,
    PL,
    PT,
    RO,
    SE,
    SK,
    AR,
    BR,
    CA,
    CL,
    CO,
    MX,
    US,
    AU,
    CN,
    HK,
    ID,
    IN,
    JP,
    KR,
    NZ,
    PH,
    SG,
    TH,
    TW,
    AE,
    IL,
    SA,
    TR,
    ZA,
}

impl Region {
    /// The display name of the country.
    pub open spec fn spec_name(&self) -> Seq<char> {
        match self {
            Region::AT => "Austria"@,
            Region::BE => "Belgium"@,
            Region::BG => "Bulgaria"@,
            Region::CH => "Switzerland"@,
            Region::CZ => "Czechia"@,
            Region::DE => "Germany"@,
            Region::DK => "Denmark"@,
            Region::EE => "Estonia"@,
            Region::ES => "Spain"@,
            Region::FI => "Finland"@,
            Region::FR => "France"@,
            Region::GB => "United Kingdom"@,
            Region::GR => "Greece"@,
            Region::HR => "Croatia"@,
            Region::HU => "Hungary"@,
            Region::IE => "Ireland"@,
            Region::IT => "Italy"@,
            Region::LT => "Lithuania"@,
            Region::LV => "Latvia"@,
            Region::NL => "Netherlands"@,
            Region::NO => "Norway"@,
            Region::PL => "Poland"@,
            Region::PT => "Portugal"@,
            Region::RO => "Romania"@,
            Region::SE => "Sweden"@,
            Region::SK => "Slovakia"@,
            Region::AR => "Argentina"@,
            Region::BR => "Brazil"@,
            Region::CA => "Canada"@,
            Region::CL => "Chile"@,
            Region::CO => "Colombia"@,
            Region::MX => "Mexico"@,
            Region::US => "United States"@,
            Region::AU => "Australia"@,
            Region::CN => "China"@,
            Region::HK => "Hong Kong"@,
            Region::ID => "Indonesia"@,
            Region::IN => "India"@,
            Region::JP => "Japan"@,
            Region::KR => "South Korea"@,
            Region::NZ => "New Zealand"@,
            Region::PH => "Philippines"@,
            Region::SG => "Singapore"@,
            Region::TH => "Thailand"@,
            Region::TW => "Taiwan"@,
            Region::AE => "United Arab Emirates"@,
            Region::IL => "Israel"@,
            Region::SA => "Saudi Arabia"@,
            Region::TR => "Turkey"@,
            Region::ZA => "South Africa"@,
        }
    }

    pub fn name(&self) -> (r: &'static str)
        ensures
            r@ == self.spec_name(),
    {
        match self {
            Region::AT => "Austria",
            Region::BE => "Belgium",
            Region::BG => "Bulgaria",
            Region::CH => "Switzerland",
            Region::CZ => "Czechia",
            Region::DE => "Germany",
            Region::DK => "Denmark",
            Region::EE => "Estonia",
            Region::ES => "Spain",
            Region::FI => "Finland",
            Region::FR => "France",
            Region::GB => "United Kingdom",
            Region::GR => "Greece",
            Region::HR => "Croatia",
            Region::HU => "Hungary",
            Region::IE => "Ireland",
            Region::IT => "Italy",
            Region::LT => "Lithuania",
            Region::LV => "Latvia",
            Region::NL => "Netherlands",
            Region::NO => "Norway",
            Region::PL => "Poland",
            Region::PT => "Portugal",
            Region::RO => "Romania",
            Region::SE => "Sweden",
            Region::SK => "Slovakia",
            Region::AR => "Argentina",
            Region::BR => "Brazil",
            Region::CA => "Canada",
            Region::CL => "Chile",
            Region::CO => "Colombia",
            Region::MX => "Mexico",
            Region::US => "United States",
            Region::AU => "Australia",
            Region::CN => "China",
            Region::HK => "Hong Kong",
            Region::ID => "Indonesia",
            Region::IN => "India",
            Region::JP => "Japan",
            Region::KR => "South Korea",
            Region::NZ => "New Zealand",
            Region::PH => "Philippines",
            Region::SG => "Singapore",
            Region::TH => "Thailand",
            Region::TW => "Taiwan",
            Region::AE => "United Arab Emirates",
            Region::IL => "Israel",
            Region::SA => "Saudi Arabia",
            Region::TR => "Turkey",
            Region::ZA => "South Africa",
        }
    }

    /// The ISO 3166-1 alpha-2 code of the country.
    pub open spec fn spec_code(&self) -> Seq<char> {
        match self {
            Region::AT => "AT"@,
            Region::BE => "BE"@,
            Region::BG => "BG"@,
            Region::CH => "CH"@,
            Region::CZ => "CZ"@,
            Region::DE => "DE"@,
            Region::DK => "DK"@,
            Region::EE => "EE"@,
            Region::ES => "ES"@,
            Region::FI => "FI"@,
            Region::FR => "FR"@,
            Region::GB => "GB"@,
            Region::GR => "GR"@,
            Region::HR => "HR"@,
            Region::HU => "HU"@,
            Region::IE => "IE"@,
            Region::IT => "IT"@,
            Region::LT => "LT"@,
            Region::LV => "LV"@,
            Region::NL => "NL"@,
            Region::NO => "NO"@,
            Region::PL => "PL"@,
            Region::PT => "PT"@,
            Region::RO => "RO"@,
            Region::SE => "SE"@,
            Region::SK => "SK"@,
            Region::AR => "AR"@,
            Region::BR => "BR"@,
            Region::CA => "CA"@,
            Region::CL => "CL"@,
            Region::CO => "CO"@,
            Region::MX => "MX"@,
            Region::US => "US"@,
            Region::AU => "AU"@,
            Region::CN => "CN"@,
            Region::HK => "HK"@,
            Region::ID => "ID"@,
            Region::IN => "IN"@,
            Region::JP => "JP"@,
            Region::KR => "KR"@,
            Region::NZ => "NZ"@,
            Region::PH => "PH"@,
            Region::SG => "SG"@,
            Region::TH => "TH"@,
            Region::TW => "TW"@,
            Region::AE => "AE"@,
            Region::IL => "IL"@,
            Region::SA => "SA"@,
            Region::TR => "TR"@,
            Region::ZA => "ZA"@,
        }
    }

    pub fn code(&self) -> (r: &'static str)
        ensures
            r@ == self.spec_code(),
    {
        match self {
            Region::AT => "AT",
            Region::BE => "BE",
            Region::BG => "BG",
            Region::CH => "CH",
            Region::CZ => "CZ",
            Region::DE => "DE",
            Region::DK => "DK",
            Region::EE => "EE",
            Region::ES => "ES",
            Region::FI => "FI",
            Region::FR => "FR",
            Region::GB => "GB",
            Region::GR => "GR",
            Region::HR => "HR",
            Region::HU => "HU",
            Region::IE => "IE",
            Region::IT => "IT",
            Region::LT => "LT",
            Region::LV => "LV",
            Region::NL => "NL",
            Region::NO => "NO",
            Region::PL => "PL",
            Region::PT => "PT",
            Region::RO => "RO",
            Region::SE => "SE",
            Region::SK => "SK",
            Region::AR => "AR",
            Region::BR => "BR",
            Region::CA => "CA",
            Region::CL => "CL",
            Region::CO => "CO",
            Region::MX => "MX",
            Region::US => "US",
            Region::AU => "AU",
            Region::CN => "CN",
            Region::HK => "HK",
            Region::ID => "ID",
            Region::IN => "IN",
            Region::JP => "JP",
            Region::KR => "KR",
            Region::NZ => "NZ",
            Region::PH => "PH",
            Region::SG => "SG",
            Region::TH => "TH",
            Region::TW => "TW",
            Region::AE => "AE",
            Region::IL => "IL",
            Region::SA => "SA",
            Region::TR => "TR",
            Region::ZA => "ZA",
        }
    }

    /// The continent grouping used for UI sectioning.
    pub open spec fn spec_continent(&self) -> Seq<char> {
        match self {
            Region::AT => "Europe"@,
            Region::BE => "Europe"@,
            Region::BG => "Europe"@,
            Region::CH => "Europe"@,
            Region::CZ => "Europe"@,
            Region::DE => "Europe"@,
            Region::DK => "Europe"@,
            Region::EE => "Europe"@,
            Region::ES => "Europe"@,
            Region::FI => "Europe"@,
            Region::FR => "Europe"@,
            Region::GB => "Europe"@,
            Region::GR => "Europe"@,
            Region::HR => "Europe"@,
            Region::HU => "Europe"@,
            Region::IE => "Europe"@,
            Region::IT => "Europe"@,
            Region::LT => "Europe"@,
            Region::LV => "Europe"@,
            Region::NL => "Europe"@,
            Region::NO => "Europe"@,
            Region::PL => "Europe"@,
            Region::PT => "Europe"@,
            Region::RO => "Europe"@,
            Region::SE => "Europe"@,
            Region::SK => "Europe"@,
            Region::AR => "Americas"@,
            Region::BR => "Americas"@,
            Region::CA => "Americas"@,
            Region::CL => "Americas"@,
            Region::CO => "Americas"@,
            Region::MX => "Americas"@,
            Region::US => "Americas"@,
            Region::AU => "Asia-Pacific"@,
            Region::CN => "Asia-Pacific"@,
            Region::HK => "Asia-Pacific"@,
            Region::ID => "Asia-Pacific"@,
            Region::IN => "Asia-Pacific"@,
            Region::JP => "Asia-Pacific"@,
            Region::KR => "Asia-Pacific"@,
            Region::NZ => "Asia-Pacific"@,
            Region::PH => "Asia-Pacific"@,
            Region::SG => "Asia-Pacific"@,
            Region::TH => "Asia-Pacific"@,
            Region::TW => "Asia-Pacific"@,
            Region::AE => "Middle East & Africa"@,
            Region::IL => "Middle East & Africa"@,
            Region::SA => "Middle East & Africa"@,
            Region::TR => "Middle East & Africa"@,
            Region::ZA => "Middle East & Africa"@,
        }
    }

    pub fn continent(&self) -> (r: &'static str)
        ensures
            r@ == self.spec_continent(),
    {
        match self {
            Region::AT => "Europe",
            Region::BE => "Europe",
            Region::BG => "Europe",
            Region::CH => "Europe",
            Region::CZ => "Europe",
            Region::DE => "Europe",
            Region::DK => "Europe",
            Region::EE => "Europe",
            Region::ES => "Europe",
            Region::FI => "Europe",
            Region::FR => "Europe",
            Region::GB => "Europe",
            Region::GR => "Europe",
            Region::HR => "Europe",
            Region::HU => "Europe",
            Region::IE => "Europe",
            Region::IT => "Europe",
            Region::LT => "Europe",
            Region::LV => "Europe",
            Region::NL => "Europe",
            Region::NO => "Europe",
            Region::PL => "Europe",
            Region::PT => "Europe",
            Region::RO => "Europe",
            Region::SE => "Europe",
            Region::SK => "Europe",
            Region::AR => "Americas",
            Region::BR => "Americas",
            Region::CA => "Americas",
            Region::CL => "Americas",
            Region::CO => "Americas",
            Region::MX => "Americas",
            Region::US => "Americas",
            Region::AU => "Asia-Pacific",
            Region::CN => "Asia-Pacific",
            Region::HK => "Asia-Pacific",
            Region::ID => "Asia-Pacific",
            Region::IN => "Asia-Pacific",
            Region::JP => "Asia-Pacific",
            Region::KR => "Asia-Pacific",
            Region::NZ => "Asia-Pacific",
            Region::PH => "Asia-Pacific",
            Region::SG => "Asia-Pacific",
            Region::TH => "Asia-Pacific",
            Region::TW => "Asia-Pacific",
            Region::AE => "Middle East & Africa",
            Region::IL => "Middle East & Africa",
            Region::SA => "Middle East & Africa",
            Region::TR => "Middle East & Africa",
            Region::ZA => "Middle East & Africa",
        }
    }

    /// All regions, ordered by continent then alphabetically by name.
    pub open spec fn spec_all() -> Seq<Region> {
        seq![Region::AT, Region::BE, Region::BG, Region::HR, Region::CZ, Region::DK, Region::EE, Region::FI, Region::FR, Region::DE, Region::GR, Region::HU, Region::IE, Region::IT, Region::LV, Region::LT, Region::NL, Region::NO, Region::PL, Region::PT, Region::RO, Region::SK, Region::ES, Region::SE, Region::CH, Region::GB, Region::AR, Region::BR, Region::CA, Region::CL, Region::CO, Region::MX, Region::US, Region::AU, Region::CN, Region::HK, Region::IN, Region::ID, Region::JP, Region::NZ, Region::PH, Region::SG, Region::KR, Region::TW, Region::TH, Region::AE, Region::IL, Region::SA, Region::ZA, Region::TR]
    }

    /// All regions as a list, in the order of `spec_all`.
    pub fn all() -> (v: Vec<Region>)
        ensures
            v@ == Region::spec_all(),
    {
        let mut v: Vec<Region> = Vec::new();
        v.push(Region::AT);
        v.push(Region::BE);
        v.push(Region::BG);
        v.push(Region::HR);
        v.push(Region::CZ);
        v.push(Region::DK);
        v.push(Region::EE);
        v.push(Region::FI);
        v.push(Region::FR);
        v.push(Region::DE);
        v.push(Region::GR);
        v.push(Region::HU);
        v.push(Region::IE);
        v.push(Region::IT);
        v.push(Region::LV);
        v.push(Region::LT);
        v.push(Region::NL);
        v.push(Region::NO);
        v.push(Region::PL);
        v.push(Region::PT);
        v.push(Region::RO);
        v.push(Region::SK);
        v.push(Region::ES);
        v.push(Region::SE);
        v.push(Region::CH);
        v.push(Region::GB);
        v.push(Region::AR);
        v.push(Region::BR);
        v.push(Region::CA);
        v.push(Region::CL);
        v.push(Region::CO);
        v.push(Region::MX);
        v.push(Region::US);
        v.push(Region::AU);
        v.push(Region::CN);
        v.push(Region::HK);
        v.push(Region::IN);
        v.push(Region::ID);
        v.push(Region::JP);
        v.push(Region::NZ);
        v.push(Region::PH);
        v.push(Region::SG);
        v.push(Region::KR);
        v.push(Region::TW);
        v.push(Region::TH);
        v.push(Region::AE);
        v.push(Region::IL);
        v.push(Region::SA);
        v.push(Region::ZA);
        v.push(Region::TR);
        proof {
            assert(v@ =~= Region::spec_all());
        }
        v
    }

    /// The region that a saved code denotes, accepting three legacy aliases.
    pub open spec fn spec_from_code(s: Seq<char>) -> Option<Region> {
        if s == "AT"@ {
            Some(Region::AT)
        } else if s == "BE"@ {
            Some(Region::BE)
        } else if s == "BG"@ {
            Some(Region::BG)
        } else if s == "CH"@ {
            Some(Region::CH)
        } else if s == "CZ"@ {
            Some(Region::CZ)
        } else if s == "DE"@ {
            Some(Region::DE)
        } else if s == "DK"@ {
            Some(Region::DK)
        } else if s == "EE"@ {
            Some(Region::EE)
        } else if s == "ES"@ {
            Some(Region::ES)
        } else if s == "FI"@ {
            Some(Region::FI)
        } else if s == "FR"@ {
            Some(Region::FR)
        } else if s == "GB"@ {
            Some(Region::GB)
        } else if s == "GR"@ {
            Some(Region::GR)
        } else if s == "HR"@ {
            Some(Region::HR)
        } else if s == "HU"@ {
            Some(Region::HU)
        } else if s == "IE"@ {
            Some(Region::IE)
        } else if s == "IT"@ {
            Some(Region::IT)
        } else if s == "LT"@ {
            Some(Region::LT)
        } else if s == "LV"@ {
            Some(Region::LV)
        } else if s == "NL"@ {
            Some(Region::NL)
        } else if s == "NO"@ {
            Some(Region::NO)
        } else if s == "PL"@ {
            Some(Region::PL)
        } else if s == "PT"@ {
            Some(Region::PT)
        } else if s == "RO"@ {
            Some(Region::RO)
        } else if s == "SE"@ {
            Some(Region::SE)
        } else if s == "SK"@ {
            Some(Region::SK)
        } else if s == "AR"@ {
            Some(Region::AR)
        } else if s == "BR"@ {
            Some(Region::BR)
        } else if s == "CA"@ {
            Some(Region::CA)
        } else if s == "CL"@ {
            Some(Region::CL)
        } else if s == "CO"@ {
            Some(Region::CO)
        } else if s == "MX"@ {
            Some(Region::MX)
        } else if s == "US"@ {
            Some(Region::US)
        } else if s == "AU"@ {
            Some(Region::AU)
        } else if s == "CN"@ {
            Some(Region::CN)
        } else if s == "HK"@ {
            Some(Region::HK)
        } else if s == "ID"@ {
            Some(Region::ID)
        } else if s == "IN"@ {
            Some(Region::IN)
        } else if s == "JP"@ {
            Some(Region::JP)
        } else if s == "KR"@ {
            Some(Region::KR)
        } else if s == "NZ"@ {
            Some(Region::NZ)
        } else if s == "PH"@ {
            Some(Region::PH)
        } else if s == "SG"@ {
            Some(Region::SG)
        } else if s == "TH"@ {
            Some(Region::TH)
        } else if s == "TW"@ {
            Some(Region::TW)
        } else if s == "AE"@ {
            Some(Region::AE)
        } else if s == "IL"@ {
            Some(Region::IL)
        } else if s == "SA"@ {
            Some(Region::SA)
        } else if s == "TR"@ {
            Some(Region::TR)
        } else if s == "ZA"@ {
            Some(Region::ZA)
        } else if s == "EU1"@ {
            Some(Region::FR)
        } else if s == "EU2"@ {
            Some(Region::PL)
        } else if s == "UK"@ {
            Some(Region::GB)
        } else {
            None
        }
    }

    pub fn from_code(code: &str) -> (r: Option<Region>)
        ensures
            r == Region::spec_from_code(code@),
    {
        if crate::text::str_eq(code, "AT") {
            Some(Region::AT)
        } else if crate::text::str_eq(code, "BE") {
            Some(Region::BE)
        } else if crate::text::str_eq(code, "BG") {
            Some(Region::BG)
        } else if crate::text::str_eq(code, "CH") {
            Some(Region::CH)
        } else if crate::text::str_eq(code, "CZ") {
            Some(Region::CZ)
        } else if crate::text::str_eq(code, "DE") {
            Some(Region::DE)
        } else if crate::text::str_eq(code, "DK") {
            Some(Region::DK)
        } else if crate::text::str_eq(code, "EE") {
            Some(Region::EE)
        } else if crate::text::str_eq(code, "ES") {
            Some(Region::ES)
        } else if crate::text::str_eq(code, "FI") {
            Some(Region::FI)
        } else if crate::text::str_eq(code, "FR") {
            Some(Region::FR)
        } else if crate::text::str_eq(code, "GB") {
            Some(Region::GB)
        } else if crate::text::str_eq(code, "GR") {
            Some(Region::GR)
        } else if crate::text::str_eq(code, "HR") {
            Some(Region::HR)
        } else if crate::text::str_eq(code, "HU") {
            Some(Region::HU)
        } else if crate::text::str_eq(code, "IE") {
            Some(Region::IE)
        } else if crate::text::str_eq(code, "IT") {
            Some(Region::IT)
        } else if crate::text::str_eq(code, "LT") {
            Some(Region::LT)
        } else if crate::text::str_eq(code, "LV") {
            Some(Region::LV)
        } else if crate::text::str_eq(code, "NL") {
            Some(Region::NL)
        } else if crate::text::str_eq(code, "NO") {
            Some(Region::NO)
        } else if crate::text::str_eq(code, "PL") {
            Some(Region::PL)
        } else if crate::text::str_eq(code, "PT") {
            Some(Region::PT)
        } else if crate::text::str_eq(code, "RO") {
            Some(Region::RO)
        } else if crate::text::str_eq(code, "SE") {
            Some(Region::SE)
        } else if crate::text::str_eq(code, "SK") {
            Some(Region::SK)
        } else if crate::text::str_eq(code, "AR") {
            Some(Region::AR)
        } else if crate::text::str_eq(code, "BR") {
            Some(Region::BR)
        } else if crate::text::str_eq(code, "CA") {
            Some(Region::CA)
        } else if crate::text::str_eq(code, "CL") {
            Some(Region::CL)
        } else if crate::text::str_eq(code, "CO") {
            Some(Region::CO)
        } else if crate::text::str_eq(code, "MX") {
            Some(Region::MX)
        } else if crate::text::str_eq(code, "US") {
            Some(Region::US)
        } else if crate::text::str_eq(code, "AU") {
            Some(Region::AU)
        } else if crate::text::str_eq(code, "CN") {
            Some(Region::CN)
        } else if crate::text::str_eq(code, "HK") {
            Some(Region::HK)
        } else if crate::text::str_eq(code, "ID") {
            Some(Region::ID)
        } else if crate::text::str_eq(code, "IN") {
            Some(Region::IN)
        } else if crate::text::str_eq(code, "JP") {
            Some(Region::JP)
        } else if crate::text::str_eq(code, "KR") {
            Some(Region::KR)
        } else if crate::text::str_eq(code, "NZ") {
            Some(Region::NZ)
        } else if crate::text::str_eq(code, "PH") {
            Some(Region::PH)
        } else if crate::text::str_eq(code, "SG") {
            Some(Region::SG)
        } else if crate::text::str_eq(code, "TH") {
            Some(Region::TH)
        } else if crate::text::str_eq(code, "TW") {
            Some(Region::TW)
        } else if crate::text::str_eq(code, "AE") {
            Some(Region::AE)
        } else if crate::text::str_eq(code, "IL") {
            Some(Region::IL)
        } else if crate::text::str_eq(code, "SA") {
            Some(Region::SA)
        } else if crate::text::str_eq(code, "TR") {
            Some(Region::TR)
        } else if crate::text::str_eq(code, "ZA") {
            Some(Region::ZA)
        } else if crate::text::str_eq(code, "EU1") {
            Some(Region::FR)
        } else if crate::text::str_eq(code, "EU2") {
            Some(Region::PL)
        } else if crate::text::str_eq(code, "UK") {
            Some(Region::GB)
        } else {
            None
        }
    }
}

impl Default for Region {
    /// France is the default region.
    fn default() -> (r: Self)
        ensures
            r == Region::FR,
    {
        Region::FR
    }
}

/// Storefronts that deals can be filtered to, with `All` meaning no filter.
#[derive(Debug, Clone, Copy, PartialEq, Eq, Structural)]
pub enum Platform {
    All,
    AllYouPlay,
    Blizzard,
    DLGamer,
    Dreamgame,
    EAStore,
    EpicGames,
    Fanatical,
    FireFlower,
    GameBillet,
    GamersGate,
    Gamesload,
    GamesPlanetDE,
    GamesPlanetFR,
    GamesPlanetUK,
    GamesPlanetUS,
    Gog,
    GreenManGaming,
    HumbleStore,
    IndieGala,
    JoyBuggy,
    MacGameStore,
    MicrosoftStore,
    Newegg,
    Nuuvem,
    PlanetPlay,
    PlayerLand,
    Playsum,
    Steam,
    UbisoftStore,
    WinGameStore,
    ZoomPlatform,
}

impl Platform {
    /// The display name of the storefront.
    pub open spec fn spec_name(&self) -> Seq<char> {
        match self {
            Platform::All => "All Platforms"@,
            Platform::AllYouPlay => "AllYouPlay"@,
            Platform::Blizzard => "Blizzard"@,
            Platform::DLGamer => "DLGamer"@,
            Platform::Dreamgame => "Dreamgame"@,
            Platform::EAStore => "EA Store"@,
            Platform::EpicGames => "Epic Game Store"@,
            Platform::Fanatical => "Fanatical"@,
            Platform::FireFlower => "FireFlower"@,
            Platform::GameBillet => "GameBillet"@,
            Platform::GamersGate => "GamersGate"@,
            Platform::Gamesload => "Gamesload"@,
            Platform::GamesPlanetDE => "GamesPlanet DE"@,
            Platform::GamesPlanetFR => "GamesPlanet FR"@,
            Platform::GamesPlanetUK => "GamesPlanet UK"@,
            Platform::GamesPlanetUS => "GamesPlanet US"@,
            Platform::Gog => "GOG"@,
            Platform::GreenManGaming => "GreenManGaming"@,
            Platform::HumbleStore => "Humble Store"@,
            Platform::IndieGala => "IndieGala Store"@,
            Platform::JoyBuggy => "JoyBuggy"@,
            Platform::MacGameStore => "MacGameStore"@,
            Platform::MicrosoftStore => "Microsoft Store"@,
            Platform::Newegg => "Newegg"@,
            Platform::Nuuvem => "Nuuvem"@,
            Platform::PlanetPlay => "PlanetPlay"@,
            Platform::PlayerLand => "PlayerLand"@,
            Platform::Playsum => "Playsum"@,
            Platform::Steam => "Steam"@,
            Platform::UbisoftStore => "Ubisoft Store"@,
            Platform::WinGameStore => "WinGameStore"@,
            Platform::ZoomPlatform => "ZOOM Platform"@,
        }
    }

    pub fn name(&self) -> (r: &'static str)
        ensures
            r@ == self.spec_name(),
    {
        match self {
            Platform::All => "All Platforms",
            Platform::AllYouPlay => "AllYouPlay",
            Platform::Blizzard => "Blizzard",
            Platform::DLGamer => "DLGamer",
            Platform::Dreamgame => "Dreamgame",
            Platform::EAStore => "EA Store",
            Platform::EpicGames => "Epic Game Store",
            Platform::Fanatical => "Fanatical",
            Platform::FireFlower => "FireFlower",
            Platform::GameBillet => "GameBillet",
            Platform::GamersGate => "GamersGate",
            Platform::Gamesload => "Gamesload",
            Platform::GamesPlanetDE => "GamesPlanet DE",
            Platform::GamesPlanetFR => "GamesPlanet FR",
            Platform::GamesPlanetUK => "GamesPlanet UK",
            Platform::GamesPlanetUS => "GamesPlanet US",
            Platform::Gog => "GOG",
            Platform::GreenManGaming => "GreenManGaming",
            Platform::HumbleStore => "Humble Store",
            Platform::IndieGala => "IndieGala Store",
            Platform::JoyBuggy => "JoyBuggy",
            Platform::MacGameStore => "MacGameStore",
            Platform::MicrosoftStore => "Microsoft Store",
            Platform::Newegg => "Newegg",
            Platform::Nuuvem => "Nuuvem",
            Platform::PlanetPlay => "PlanetPlay",
            Platform::PlayerLand => "PlayerLand",
            Platform::Playsum => "Playsum",
            Platform::Steam => "Steam",
            Platform::UbisoftStore => "Ubisoft Store",
            Platform::WinGameStore => "WinGameStore",
            Platform::ZoomPlatform => "ZOOM Platform",
        }
    }

    /// The stable numeric shop id of the storefront, `None` for `All`.
    pub open spec fn spec_shop_id(&self) -> Option<u32> {
        match self {
            Platform::All => None,
            Platform::AllYouPlay => Some(2u32),
            Platform::Blizzard => Some(4u32),
            Platform::DLGamer => Some(13u32),
            Platform::Dreamgame => Some(15u32),
            Platform::EAStore => Some(52u32),
            Platform::EpicGames => Some(16u32),
            Platform::Fanatical => Some(6u32),
            Platform::FireFlower => Some(17u32),
            Platform::GameBillet => Some(20u32),
            Platform::GamersGate => Some(24u32),
            Platform::Gamesload => Some(25u32),
            Platform::GamesPlanetDE => Some(27u32),
            Platform::GamesPlanetFR => Some(28u32),
            Platform::GamesPlanetUK => Some(26u32),
            Platform::GamesPlanetUS => Some(29u32),
            Platform::Gog => Some(35u32),
            Platform::GreenManGaming => Some(36u32),
            Platform::HumbleStore => Some(37u32),
            Platform::IndieGala => Some(42u32),
            Platform::JoyBuggy => Some(65u32),
            Platform::MacGameStore => Some(47u32),
            Platform::MicrosoftStore => Some(48u32),
            Platform::Newegg => Some(49u32),
            Platform::Nuuvem => Some(50u32),
            Platform::PlanetPlay => Some(73u32),
            Platform::PlayerLand => Some(74u32),
            Platform::Playsum => Some(70u32),
            Platform::Steam => Some(61u32),
            Platform::UbisoftStore => Some(62u32),
            Platform::WinGameStore => Some(64u32),
            Platform::ZoomPlatform => Some(72u32),
        }
    }

    pub fn shop_id(&self) -> (r: Option<u32>)
        ensures
            r == self.spec_shop_id(),
    {
        match self {
            Platform::All => None,
            Platform::AllYouPlay => Some(2),
            Platform::Blizzard => Some(4),
            Platform::DLGamer => Some(13),
            Platform::Dreamgame => Some(15),
            Platform::EAStore => Some(52),
            Platform::EpicGames => Some(16),
            Platform::Fanatical => Some(6),
            Platform::FireFlower => Some(17),
            Platform::GameBillet => Some(20),
            Platform::GamersGate => Some(24),
            Platform::Gamesload => Some(25),
            Platform::GamesPlanetDE => Some(27),
            Platform::GamesPlanetFR => Some(28),
            Platform::GamesPlanetUK => Some(26),
            Platform::GamesPlanetUS => Some(29),
            Platform::Gog => Some(35),
            Platform::GreenManGaming => Some(36),
            Platform::HumbleStore => Some(37),
            Platform::IndieGala => Some(42),
            Platform::JoyBuggy => Some(65),
            Platform::MacGameStore => Some(47),
            Platform::MicrosoftStore => Some(48),
            Platform::Newegg => Some(49),
            Platform::Nuuvem => Some(50),
            Platform::PlanetPlay => Some(73),
            Platform::PlayerLand => Some(74),
            Platform::Playsum => Some(70),
            Platform::Steam => Some(61),
            Platform::UbisoftStore => Some(62),
            Platform::WinGameStore => Some(64),
            Platform::ZoomPlatform => Some(72),
        }
    }

    /// All platforms, the `All` sentinel first.
    pub open spec fn spec_all() -> Seq<Platform> {
        seq![Platform::All, Platform::AllYouPlay, Platform::Blizzard, Platform::DLGamer, Platform::Dreamgame, Platform::EAStore, Platform::EpicGames, Platform::Fanatical, Platform::FireFlower, Platform::GameBillet, Platform::GamersGate, Platform::Gamesload, Platform::GamesPlanetDE, Platform::GamesPlanetFR, Platform::GamesPlanetUK, Platform::GamesPlanetUS, Platform::Gog, Platform::GreenManGaming, Platform::HumbleStore, Platform::IndieGala, Platform::JoyBuggy, Platform::MacGameStore, Platform::MicrosoftStore, Platform::Newegg, Platform::Nuuvem, Platform::PlanetPlay, Platform::PlayerLand, Platform::Playsum, Platform::Steam, Platform::UbisoftStore, Platform::WinGameStore, Platform::ZoomPlatform]
    }

    /// All platforms as a list, in the order of `spec_all`.
    pub fn all() -> (v: Vec<Platform>)
        ensures
            v@ == Platform::spec_all(),
    {
        let mut v: Vec<Platform> = Vec::new();
        v.push(Platform::All);
        v.push(Platform::AllYouPlay);
        v.push(Platform::Blizzard);
        v.push(Platform::DLGamer);
        v.push(Platform::Dreamgame);
        v.push(Platform::EAStore);
        v.push(Platform::EpicGames);
        v.push(Platform::Fanatical);
        v.push(Platform::FireFlower);
        v.push(Platform::GameBillet);
        v.push(Platform::GamersGate);
        v.push(Platform::Gamesload);
        v.push(Platform::GamesPlanetDE);
        v.push(Platform::GamesPlanetFR);
        v.push(Platform::GamesPlanetUK);
        v.push(Platform::GamesPlanetUS);
        v.push(Platform::Gog);
        v.push(Platform::GreenManGaming);
        v.push(Platform::HumbleStore);
        v.push(Platform::IndieGala);
        v.push(Platform::JoyBuggy);
        v.push(Platform::MacGameStore);
        v.push(Platform::MicrosoftStore);
        v.push(Platform::Newegg);
        v.push(Platform::Nuuvem);
        v.push(Platform::PlanetPlay);
        v.push(Platform::PlayerLand);
        v.push(Platform::Playsum);
        v.push(Platform::Steam);
        v.push(Platform::UbisoftStore);
        v.push(Platform::WinGameStore);
        v.push(Platform::ZoomPlatform);
        proof {
            assert(v@ =~= Platform::spec_all());
        }
        v
    }
}


/// Store identity attached to a deal. The id is the shop's stable numeric
/// identifier in the remote API.
#[derive(Debug, Clone)]
pub struct Shop {
    pub id: u32,
    pub name: String,
}

impl Default for Shop {
    /// An unidentified shop with an empty name.
    fn default() -> (r: Self)
        ensures
            r.id == 0,
            r.name@ == Seq::<char>::empty(),
    {
        Shop { id: 0, name: String::new() }
    }
}

/// Price information with discount. Amounts are minor currency units
/// (cents), so that price arithmetic and comparisons are exact.
#[derive(Debug, Clone)]
pub struct Price {
    pub amount: u64,
    pub currency: String,
    pub discount: u8,
}

impl Default for Price {
    /// A free price tag in US dollars.
    fn default() -> (r: Self)
        ensures
            r.amount == 0,
            r.currency@ == "USD"@,
            r.discount == 0,
    {
        Price { amount: 0, currency: String::from_str("USD"), discount: 0 }
    }
}

/// A game deal as listed by the remote API. Immutable once fetched.
#[derive(Debug, Clone)]
pub struct Deal {
    pub id: String,
    pub title: String,
    pub shop: Shop,
    pub price: Price,
    /// Regular (undiscounted) price in minor currency units.
    pub regular_price: u64,
    pub url: String,
    /// Lowest price ever recorded, in minor currency units, when known.
    pub history_low: Option<u64>,
}

/// Detailed information for one game, cached per deal id.
#[derive(Debug, Clone)]
pub struct GameInfo {
    pub id: String,
    pub title: String,
    pub release_date: Option<String>,
    pub developers: Vec<String>,
    pub publishers: Vec<String>,
    pub tags: Vec<String>,
}

/// One point of a price history chart. The price is in minor currency units.
#[derive(Debug, Clone)]
pub struct PriceHistoryPoint {
    pub timestamp: i64,
    pub price: u64,
    pub shop_name: String,
}

/// Filter options for deal queries.
#[derive(Debug, Clone)]
pub struct DealFilter {
    pub shop_ids: Option<Vec<String>>,
    pub country: String,
    pub limit: usize,
}

impl Default for DealFilter {
    /// No shop filter, an empty country code, and a zero limit.
    fn default() -> (r: Self)
        ensures
            r.shop_ids is None,
            r.country@ == Seq::<char>::empty(),
            r.limit == 0,
    {
        DealFilter { shop_ids: None, country: String::new(), limit: 0 }
    }
}

/// Renders the symbol shown in front of an amount of money.
pub trait CurrencySymbol {
    /// The symbol as a character sequence.
    spec fn spec_currency_symbol(&self) -> Seq<char>;

    /// The symbol for this value's currency.
    fn currency_symbol<'a>(&'a self) -> (r: &'a str)
        ensures
            r@ == self.spec_currency_symbol(),
    ;
}

impl CurrencySymbol for Price {
    open spec fn spec_currency_symbol(&self) -> Seq<char> {
        if self.currency@ == "USD"@ {
            "$"@
        } else if self.currency@ == "EUR"@ {
            "€"@
        } else if self.currency@ == "GBP"@ {
            "£"@
        } else {
            self.currency@
        }
    }

    fn currency_symbol<'a>(&'a self) -> (r: &'a str)
        ensures
            r@ == self.spec_currency_symbol(),
    {
        if str_eq(self.currency.as_str(), "USD") {
            "$"
        } else if str_eq(self.currency.as_str(), "EUR") {
            "€"
        } else if str_eq(self.currency.as_str(), "GBP") {
            "£"
        } else {
            self.currency.as_str()
        }
    }
}

} // verus!
