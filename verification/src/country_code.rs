//! Countries and their calling codes.
//!
//! The set of countries is closed: a country is a variant of `CountryCode`,
//! and its calling code is a fixed number from 1 to 999. The dial code is
//! that number in decimal behind a `+`.

use crate::text::{decimal, is_digit, push_char, to_digit_char};
use vstd::prelude::*;

verus! {

/// A country that has a calling code.
#[derive(Debug, Clone, Copy, PartialEq, Eq, Structural)]
pub enum CountryCode {
    /// United States
    USA,
    /// United Kingdom
    UK,
    /// India
    IND,
    /// Indonesia
    INA,
    /// China
    CHN,
    /// Japan
    JPN,
    /// South Korea
    KOR,
    /// Germany
    DEU,
    /// Russia
    RUS,
    /// France
    FRA,
    /// Italy
    ITA,
    /// Spain
    ESP,
    /// Australia
    AUS,
    /// Singapore
    SGP,
    /// Argentina
    ARG,
    /// Brazil
    BRA,
    /// Chile
    CHL,
    /// Colombia
    COL,
    /// Venezuela
    VEN,
    /// Malaysia
    MYS,
    /// Philippines
    PHL,
    /// New Zealand
    NZL,
    /// Thailand
    THA,
    /// Vietnam
    VNM,
    /// Turkey
    TUR,
    /// Pakistan
    PAK,
    /// Afghanistan
    AFG,
    /// Sri Lanka
    LKA,
    /// Myanmar (Burma)
    MMR,
    /// Iran
    IRN,
    /// Morocco
    MAR,
    /// Algeria
    DZA,
    /// Tunisia
    TUN,
    /// Libya
    LBY,
    /// Gambia
    GMB,
    /// Senegal
    SEN,
    /// Mauritania
    MRT,
    /// Mali
    MLI,
    /// Guinea
    GIN,
    /// Ivory Coast (Côte d'Ivoire)
    CIV,
    /// Burkina Faso
    BFA,
    /// Niger
    NER,
    /// Togo
    TGO,
    /// Benin
    BEN,
    /// Mauritius
    MUS,
    /// Liberia
    LBR,
    /// Sierra Leone
    SLE,
    /// Ghana
    GHA,
    /// Nigeria
    NGA,
    /// Chad
    TCD,
    /// Central African Republic
    CAF,
    /// Cameroon
    CMR,
    /// Cape Verde
    CPV,
    /// São Tomé and Príncipe
    STP,
    /// Equatorial Guinea
    GNQ,
    /// Gabon
    GAB,
    /// Congo-Brazzaville
    COG,
    /// Democratic Republic of the Congo
    COD,
    /// Angola
    AGO,
    /// Guinea-Bissau
    GNB,
    /// British Indian Ocean Territory
    IOT,
    /// Saint Helena, Ascension and Tristan da Cunha
    SHN,
    /// Seychelles
    SYC,
    /// Sudan
    SDN,
    /// Rwanda
    RWA,
    /// Ethiopia
    ETH,
    /// Somalia
    SOM,
    /// Djibouti
    DJI,
    /// Kenya
    KEN,
    /// Tanzania
    TZA,
    /// Uganda
    UGA,
    /// Burundi
    BDI,
    /// Mozambique
    MOZ,
    /// Zambia
    ZMB,
    /// Madagascar
    MDG,
    /// Réunion
    REU,
    /// Zimbabwe
    ZWE,
    /// Namibia
    NAM,
    /// Malawi
    MWI,
    /// Lesotho
    LSO,
    /// Botswana
    BWA,
    /// Eswatini (Swaziland)
    SWZ,
    /// Comoros
    COM,
    /// Eritrea
    ERI,
    /// Aruba
    ABW,
    /// Faroe Islands
    FRO,
    /// Greenland
    GRL,
    /// Gibraltar
    GIB,
    /// Portugal
    PRT,
    /// Luxembourg
    LUX,
    /// Ireland
    IRL,
    /// Iceland
    ISL,
    /// Albania
    ALB,
    /// Malta
    MLT,
    /// Cyprus
    CYP,
    /// Finland
    FIN,
    /// Bulgaria
    BGR,
    /// Lithuania
    LTU,
    /// Latvia
    LVA,
    /// Estonia
    EST,
    /// Moldova
    MDA,
    /// Armenia
    ARM,
    /// Belarus
    BLR,
    /// Andorra
    AND,
    /// Monaco
    MCO,
    /// San Marino
    SMR,
    /// Vatican City
    VAT,
    /// Ukraine
    UKR,
    /// Serbia
    SRB,
    /// Montenegro
    MNE,
    /// Croatia
    HRV,
    /// Slovenia
    SVN,
    /// Bosnia and Herzegovina
    BIH,
    /// North Macedonia
    MKD,
    /// Czechia (Czech Republic)
    CZE,
    /// Slovakia
    SVK,
    /// Liechtenstein
    LIE,
    /// Falkland Islands
    FLK,
    /// Belize
    BLZ,
    /// Guatemala
    GTM,
    /// El Salvador
    SLV,
    /// Honduras
    HND,
    /// Nicaragua
    NIC,
    /// Costa Rica
    CRI,
    /// Panama
    PAN,
    /// Saint Pierre and Miquelon
    SPM,
    /// Haiti
    HTI,
    /// Guadeloupe
    GLP,
    /// Bolivia
    BOL,
    /// Guyana
    GUY,
    /// Ecuador
    ECU,
    /// Mayotte
    MYT,
    /// Paraguay
    PRY,
    /// Martinique
    MTQ,
    /// Suriname
    SUR,
    /// Uruguay
    URY,
    /// Caribbean Netherlands
    ANT,
    /// Timor-Leste (East Timor)
    TLS,
    /// Antarctica
    ATA,
    /// Brunei
    BRN,
    /// Nauru
    NRU,
    /// Papua New Guinea
    PNG,
    /// Tonga
    TON,
    /// Solomon Islands
    SLB,
    /// Vanuatu
    VUT,
    /// Fiji
    FJI,
    /// Palau
    PLW,
    /// Wallis and Futuna
    WLF,
    /// Cook Islands
    COK,
    /// Niue
    NIU,
    /// Samoa
    WSM,
    /// Kiribati
    KIR,
    /// New Caledonia
    NCL,
    /// Tuvalu
    TUV,
    /// French Polynesia
    PYF,
    /// Tokelau
    TKL,
    /// Federated States of Micronesia
    FSM,
    /// Marshall Islands
    MHL,
    /// North Korea
    PRK,
    /// Hong Kong
    HKG,
    /// Macao
    MAC,
    /// Cambodia
    KHM,
    /// Laos
    LAO,
    /// Bangladesh
    BGD,
    /// Taiwan
    TWN,
    /// Maldives
    MDV,
    /// Lebanon
    LBN,
    /// Jordan
    JOR,
    /// Syria
    SYR,
    /// Iraq
    IRQ,
    /// Kuwait
    KWT,
    /// Saudi Arabia
    SAU,
    /// Yemen
    YEM,
    /// Oman
    OMN,
    /// Palestine
    PSE,
    /// United Arab Emirates
    ARE,
    /// Israel
    ISR,
    /// Bahrain
    BHR,
    /// Qatar
    QAT,
    /// Bhutan
    BTN,
    /// Mongolia
    MNG,
    /// Nepal
    NPL,
    /// Tajikistan
    TJK,
    /// Turkmenistan
    TKM,
    /// Azerbaijan
    AZE,
    /// Georgia
    GEO,
    /// Kyrgyzstan
    KGZ,
    /// Uzbekistan
    UZB,
}

impl CountryCode {
    /// The calling code of the country, as a number.
    pub open spec fn calling_code_spec(self) -> nat {
        match self {
            CountryCode::USA => 1,
            CountryCode::UK => 44,
            CountryCode::IND => 91,
            CountryCode::INA => 62,
            CountryCode::CHN => 86,
            CountryCode::JPN => 81,
            CountryCode::KOR => 82,
            CountryCode::DEU => 49,
            CountryCode::RUS => 7,
            CountryCode::FRA => 33,
            CountryCode::ITA => 39,
            CountryCode::ESP => 34,
            CountryCode::AUS => 61,
            CountryCode::SGP => 65,
            CountryCode::ARG => 54,
            CountryCode::BRA => 55,
            CountryCode::CHL => 56,
            CountryCode::COL => 57,
            CountryCode::VEN => 58,
            CountryCode::MYS => 60,
            CountryCode::PHL => 63,
            CountryCode::NZL => 64,
            CountryCode::THA => 66,
            CountryCode::VNM => 84,
            CountryCode::TUR => 90,
            CountryCode::PAK => 92,
            CountryCode::AFG => 93,
            CountryCode::LKA => 94,
            CountryCode::MMR => 95,
            CountryCode::IRN => 98,
            CountryCode::MAR => 212,
            CountryCode::DZA => 213,
            CountryCode::TUN => 216,
            CountryCode::LBY => 218,
            CountryCode::GMB => 220,
            CountryCode::SEN => 221,
            CountryCode::MRT => 222,
            CountryCode::MLI => 223,
            CountryCode::GIN => 224,
            CountryCode::CIV => 225,
            CountryCode::BFA => 226,
            CountryCode::NER => 227,
            CountryCode::TGO => 228,
            CountryCode::BEN => 229,
            CountryCode::MUS => 230,
            CountryCode::LBR => 231,
            CountryCode::SLE => 232,
            CountryCode::GHA => 233,
            CountryCode::NGA => 234,
            CountryCode::TCD => 235,
            CountryCode::CAF => 236,
            CountryCode::CMR => 237,
            CountryCode::CPV => 238,
            CountryCode::STP => 239,
            CountryCode::GNQ => 240,
            CountryCode::GAB => 241,
            CountryCode::COG => 242,
            CountryCode::COD => 243,
            CountryCode::AGO => 244,
            CountryCode::GNB => 245,
            CountryCode::IOT => 246,
            CountryCode::SHN => 247,
            CountryCode::SYC => 248,
            CountryCode::SDN => 249,
            CountryCode::RWA => 250,
            CountryCode::ETH => 251,
            CountryCode::SOM => 252,
            CountryCode::DJI => 253,
            CountryCode::KEN => 254,
            CountryCode::TZA => 255,
            CountryCode::UGA => 256,
            CountryCode::BDI => 257,
            CountryCode::MOZ => 258,
            CountryCode::ZMB => 260,
            CountryCode::MDG => 261,
            CountryCode::REU => 262,
            CountryCode::ZWE => 263,
            CountryCode::NAM => 264,
            CountryCode::MWI => 265,
            CountryCode::LSO => 266,
            CountryCode::BWA => 267,
            CountryCode::SWZ => 268,
            CountryCode::COM => 269,
            CountryCode::ERI => 291,
            CountryCode::ABW => 297,
            CountryCode::FRO => 298,
            CountryCode::GRL => 299,
            CountryCode::GIB => 350,
            CountryCode::PRT => 351,
            CountryCode::LUX => 352,
            CountryCode::IRL => 353,
            CountryCode::ISL => 354,
            CountryCode::ALB => 355,
            CountryCode::MLT => 356,
            CountryCode::CYP => 357,
            CountryCode::FIN => 358,
            CountryCode::BGR => 359,
            CountryCode::LTU => 370,
            CountryCode::LVA => 371,
            CountryCode::EST => 372,
            CountryCode::MDA => 373,
            CountryCode::ARM => 374,
            CountryCode::BLR => 375,
            CountryCode::AND => 376,
            CountryCode::MCO => 377,
            CountryCode::SMR => 378,
            CountryCode::VAT => 379,
            CountryCode::UKR => 380,
            CountryCode::SRB => 381,
            CountryCode::MNE => 382,
            CountryCode::HRV => 385,
            CountryCode::SVN => 386,
            CountryCode::BIH => 387,
            CountryCode::MKD => 389,
            CountryCode::CZE => 420,
            CountryCode::SVK => 421,
            CountryCode::LIE => 423,
            CountryCode::FLK => 500,
            CountryCode::BLZ => 501,
            CountryCode::GTM => 502,
            CountryCode::SLV => 503,
            CountryCode::HND => 504,
            CountryCode::NIC => 505,
            CountryCode::CRI => 506,
            CountryCode::PAN => 507,
            CountryCode::SPM => 508,
            CountryCode::HTI => 509,
            CountryCode::GLP => 590,
            CountryCode::BOL => 591,
            CountryCode::GUY => 592,
            CountryCode::ECU => 593,
            CountryCode::MYT => 594,
            CountryCode::PRY => 595,
            CountryCode::MTQ => 596,
            CountryCode::SUR => 597,
            CountryCode::URY => 598,
            CountryCode::ANT => 599,
            CountryCode::TLS => 670,
            CountryCode::ATA => 672,
            CountryCode::BRN => 673,
            CountryCode::NRU => 674,
            CountryCode::PNG => 675,
            CountryCode::TON => 676,
            CountryCode::SLB => 677,
            CountryCode::VUT => 678,
            CountryCode::FJI => 679,
            CountryCode::PLW => 680,
            CountryCode::WLF => 681,
            CountryCode::COK => 682,
            CountryCode::NIU => 683,
            CountryCode::WSM => 685,
            CountryCode::KIR => 686,
            CountryCode::NCL => 687,
            CountryCode::TUV => 688,
            CountryCode::PYF => 689,
            CountryCode::TKL => 690,
            CountryCode::FSM => 691,
            CountryCode::MHL => 692,
            CountryCode::PRK => 850,
            CountryCode::HKG => 852,
            CountryCode::MAC => 853,
            CountryCode::KHM => 855,
            CountryCode::LAO => 856,
            CountryCode::BGD => 880,
            CountryCode::TWN => 886,
            CountryCode::MDV => 960,
            CountryCode::LBN => 961,
            CountryCode::JOR => 962,
            CountryCode::SYR => 963,
            CountryCode::IRQ => 964,
            CountryCode::KWT => 965,
            CountryCode::SAU => 966,
            CountryCode::YEM => 967,
            CountryCode::OMN => 968,
            CountryCode::PSE => 970,
            CountryCode::ARE => 971,
            CountryCode::ISR => 972,
            CountryCode::BHR => 973,
            CountryCode::QAT => 974,
            CountryCode::BTN => 975,
            CountryCode::MNG => 976,
            CountryCode::NPL => 977,
            CountryCode::TJK => 992,
            CountryCode::TKM => 993,
            CountryCode::AZE => 994,
            CountryCode::GEO => 995,
            CountryCode::KGZ => 996,
            CountryCode::UZB => 998,
        }
    }

    /// The dial code of the country: `+` and the calling code in decimal.
    pub open spec fn dial_code_spec(self) -> Seq<char> {
        seq!['+'] + decimal(self.calling_code_spec())
    }

    /// The calling code of the country, as a number.
    pub fn calling_code(self) -> (code: u16)
        ensures
            code == self.calling_code_spec(),
            1 <= code <= 999,
    {
        match self {
            CountryCode::USA => 1,
            CountryCode::UK => 44,
            CountryCode::IND => 91,
            CountryCode::INA => 62,
            CountryCode::CHN => 86,
            CountryCode::JPN => 81,
            CountryCode::KOR => 82,
            CountryCode::DEU => 49,
            CountryCode::RUS => 7,
            CountryCode::FRA => 33,
            CountryCode::ITA => 39,
            CountryCode::ESP => 34,
            CountryCode::AUS => 61,
            CountryCode::SGP => 65,
            CountryCode::ARG => 54,
            CountryCode::BRA => 55,
            CountryCode::CHL => 56,
            CountryCode::COL => 57,
            CountryCode::VEN => 58,
            CountryCode::MYS => 60,
            CountryCode::PHL => 63,
            CountryCode::NZL => 64,
            CountryCode::THA => 66,
            CountryCode::VNM => 84,
            CountryCode::TUR => 90,
            CountryCode::PAK => 92,
            CountryCode::AFG => 93,
            CountryCode::LKA => 94,
            CountryCode::MMR => 95,
            CountryCode::IRN => 98,
            CountryCode::MAR => 212,
            CountryCode::DZA => 213,
            CountryCode::TUN => 216,
            CountryCode::LBY => 218,
            CountryCode::GMB => 220,
            CountryCode::SEN => 221,
            CountryCode::MRT => 222,
            CountryCode::MLI => 223,
            CountryCode::GIN => 224,
            CountryCode::CIV => 225,
            CountryCode::BFA => 226,
            CountryCode::NER => 227,
            CountryCode::TGO => 228,
            CountryCode::BEN => 229,
            CountryCode::MUS => 230,
            CountryCode::LBR => 231,
            CountryCode::SLE => 232,
            CountryCode::GHA => 233,
            CountryCode::NGA => 234,
            CountryCode::TCD => 235,
            CountryCode::CAF => 236,
            CountryCode::CMR => 237,
            CountryCode::CPV => 238,
            CountryCode::STP => 239,
            CountryCode::GNQ => 240,
            CountryCode::GAB => 241,
            CountryCode::COG => 242,
            CountryCode::COD => 243,
            CountryCode::AGO => 244,
            CountryCode::GNB => 245,
            CountryCode::IOT => 246,
            CountryCode::SHN => 247,
            CountryCode::SYC => 248,
            CountryCode::SDN => 249,
            CountryCode::RWA => 250,
            CountryCode::ETH => 251,
            CountryCode::SOM => 252,
            CountryCode::DJI => 253,
            CountryCode::KEN => 254,
            CountryCode::TZA => 255,
            CountryCode::UGA => 256,
            CountryCode::BDI => 257,
            CountryCode::MOZ => 258,
            CountryCode::ZMB => 260,
            CountryCode::MDG => 261,
            CountryCode::REU => 262,
            CountryCode::ZWE => 263,
            CountryCode::NAM => 264,
            CountryCode::MWI => 265,
            CountryCode::LSO => 266,
            CountryCode::BWA => 267,
            CountryCode::SWZ => 268,
            CountryCode::COM => 269,
            CountryCode::ERI => 291,
            CountryCode::ABW => 297,
            CountryCode::FRO => 298,
            CountryCode::GRL => 299,
            CountryCode::GIB => 350,
            CountryCode::PRT => 351,
            CountryCode::LUX => 352,
            CountryCode::IRL => 353,
            CountryCode::ISL => 354,
            CountryCode::ALB => 355,
            CountryCode::MLT => 356,
            CountryCode::CYP => 357,
            CountryCode::FIN => 358,
            CountryCode::BGR => 359,
            CountryCode::LTU => 370,
            CountryCode::LVA => 371,
            CountryCode::EST => 372,
            CountryCode::MDA => 373,
            CountryCode::ARM => 374,
            CountryCode::BLR => 375,
            CountryCode::AND => 376,
            CountryCode::MCO => 377,
            CountryCode::SMR => 378,
            CountryCode::VAT => 379,
            CountryCode::UKR => 380,
            CountryCode::SRB => 381,
            CountryCode::MNE => 382,
            CountryCode::HRV => 385,
            CountryCode::SVN => 386,
            CountryCode::BIH => 387,
            CountryCode::MKD => 389,
            CountryCode::CZE => 420,
            CountryCode::SVK => 421,
            CountryCode::LIE => 423,
            CountryCode::FLK => 500,
            CountryCode::BLZ => 501,
            CountryCode::GTM => 502,
            CountryCode::SLV => 503,
            CountryCode::HND => 504,
            CountryCode::NIC => 505,
            CountryCode::CRI => 506,
            CountryCode::PAN => 507,
            CountryCode::SPM => 508,
            CountryCode::HTI => 509,
            CountryCode::GLP => 590,
            CountryCode::BOL => 591,
            CountryCode::GUY => 592,
            CountryCode::ECU => 593,
            CountryCode::MYT => 594,
            CountryCode::PRY => 595,
            CountryCode::MTQ => 596,
            CountryCode::SUR => 597,
            CountryCode::URY => 598,
            CountryCode::ANT => 599,
            CountryCode::TLS => 670,
            CountryCode::ATA => 672,
            CountryCode::BRN => 673,
            CountryCode::NRU => 674,
            CountryCode::PNG => 675,
            CountryCode::TON => 676,
            CountryCode::SLB => 677,
            CountryCode::VUT => 678,
            CountryCode::FJI => 679,
            CountryCode::PLW => 680,
            CountryCode::WLF => 681,
            CountryCode::COK => 682,
            CountryCode::NIU => 683,
            CountryCode::WSM => 685,
            CountryCode::KIR => 686,
            CountryCode::NCL => 687,
            CountryCode::TUV => 688,
            CountryCode::PYF => 689,
            CountryCode::TKL => 690,
            CountryCode::FSM => 691,
            CountryCode::MHL => 692,
            CountryCode::PRK => 850,
            CountryCode::HKG => 852,
            CountryCode::MAC => 853,
            CountryCode::KHM => 855,
            CountryCode::LAO => 856,
            CountryCode::BGD => 880,
            CountryCode::TWN => 886,
            CountryCode::MDV => 960,
            CountryCode::LBN => 961,
            CountryCode::JOR => 962,
            CountryCode::SYR => 963,
            CountryCode::IRQ => 964,
            CountryCode::KWT => 965,
            CountryCode::SAU => 966,
            CountryCode::YEM => 967,
            CountryCode::OMN => 968,
            CountryCode::PSE => 970,
            CountryCode::ARE => 971,
            CountryCode::ISR => 972,
            CountryCode::BHR => 973,
            CountryCode::QAT => 974,
            CountryCode::BTN => 975,
            CountryCode::MNG => 976,
            CountryCode::NPL => 977,
            CountryCode::TJK => 992,
            CountryCode::TKM => 993,
            CountryCode::AZE => 994,
            CountryCode::GEO => 995,
            CountryCode::KGZ => 996,
            CountryCode::UZB => 998,
        }
    }

    /// The dial code of the country: `+` and the calling code in decimal.
    pub fn dial_code(self) -> (text: String)
        ensures
            text@ == self.dial_code_spec(),
            2 <= text@.len() <= 4,
            text@[0] == '+',
            forall|i: int| 1 <= i < text@.len() ==> is_digit(#[trigger] text@[i]),
    {
        let code = self.calling_code();
        let mut text = String::new();
        push_char(&mut text, '+');
        if code >= 100 {
            push_char(&mut text, to_digit_char((code / 100) as u8));
        }
        if code >= 10 {
            push_char(&mut text, to_digit_char(((code / 10) % 10) as u8));
        }
        push_char(&mut text, to_digit_char((code % 10) as u8));
        proof {
            reveal_with_fuel(decimal, 3);
            assert(text@ =~= self.dial_code_spec());
        }
        text
    }

    /// Renders the country: its dial code.
    pub fn to_string(self) -> (text: String)
        ensures
            text@ == self.dial_code_spec(),
    {
        self.dial_code()
    }
}

/// Every country has a dial code: a `+` and then one to three digits.
pub proof fn lemma_dial_code_shape(country: CountryCode)
    ensures
        1 <= country.calling_code_spec() <= 999,
        2 <= country.dial_code_spec().len() <= 4,
        country.dial_code_spec()[0] == '+',
        forall|i: int|
            1 <= i < country.dial_code_spec().len() ==> is_digit(
                #[trigger] country.dial_code_spec()[i],
            ),
{
    reveal_with_fuel(decimal, 3);
}

} // verus!
