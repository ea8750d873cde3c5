//! ISO 3166-1 alpha-2 country codes and ISIN country-prefix rules.
//!
//! An ISIN prefix is usually an ISO 3166-1 country code, but the ISIN
//! standard also admits a small set of substitute prefixes (`XS`, `EU`, ...)
//! for securities with no single national home. [`is_iso_country`] and
//! [`is_isin_prefix`] keep the two questions apart. The table holds all 249
//! officially assigned ISO 3166-1 alpha-2 codes (snapshot of 2026-05).
use vstd::prelude::*;
use crate::charset::is_upper_char;

verus! {

/// The English short name of the ISO 3166-1 alpha-2 code `ab`, if assigned.
pub open spec fn iso_country_name(a: char, b: char) -> Option<&'static str> {
    match (a, b) {
        ('A', 'D') => Some("Andorra"),
        ('A', 'E') => Some("United Arab Emirates"),
        ('A', 'F') => Some("Afghanistan"),
        ('A', 'G') => Some("Antigua and Barbuda"),
        ('A', 'I') => Some("Anguilla"),
        ('A', 'L') => Some("Albania"),
        ('A', 'M') => Some("Armenia"),
        ('A', 'O') => Some("Angola"),
        ('A', 'Q') => Some("Antarctica"),
        ('A', 'R') => Some("Argentina"),
        ('A', 'S') => Some("American Samoa"),
        ('A', 'T') => Some("Austria"),
        ('A', 'U') => Some("Australia"),
        ('A', 'W') => Some("Aruba"),
        ('A', 'X') => Some("Åland Islands"),
        ('A', 'Z') => Some("Azerbaijan"),
        ('B', 'A') => Some("Bosnia and Herzegovina"),
        ('B', 'B') => Some("Barbados"),
        ('B', 'D') => Some("Bangladesh"),
        ('B', 'E') => Some("Belgium"),
        ('B', 'F') => Some("Burkina Faso"),
        ('B', 'G') => Some("Bulgaria"),
        ('B', 'H') => Some("Bahrain"),
        ('B', 'I') => Some("Burundi"),
        ('B', 'J') => Some("Benin"),
        ('B', 'L') => Some("Saint Barthélemy"),
        ('B', 'M') => Some("Bermuda"),
        ('B', 'N') => Some("Brunei Darussalam"),
        ('B', 'O') => Some("Bolivia, Plurinational State of"),
        ('B', 'Q') => Some("Bonaire, Sint Eustatius and Saba"),
        ('B', 'R') => Some("Brazil"),
        ('B', 'S') => Some("Bahamas"),
        ('B', 'T') => Some("Bhutan"),
        ('B', 'V') => Some("Bouvet Island"),
        ('B', 'W') => Some("Botswana"),
        ('B', 'Y') => Some("Belarus"),
        ('B', 'Z') => Some("Belize"),
        ('C', 'A') => Some("Canada"),
        ('C', 'C') => Some("Cocos (Keeling) Islands"),
        ('C', 'D') => Some("Congo, Democratic Republic of the"),
        ('C', 'F') => Some("Central African Republic"),
        ('C', 'G') => Some("Congo"),
        ('C', 'H') => Some("Switzerland"),
        ('C', 'I') => Some("Côte d'Ivoire"),
        ('C', 'K') => Some("Cook Islands"),
        ('C', 'L') => Some("Chile"),
        ('C', 'M') => Some("Cameroon"),
        ('C', 'N') => Some("China"),
        ('C', 'O') => Some("Colombia"),
        ('C', 'R') => Some("Costa Rica"),
        ('C', 'U') => Some("Cuba"),
        ('C', 'V') => Some("Cabo Verde"),
        ('C', 'W') => Some("Curaçao"),
        ('C', 'X') => Some("Christmas Island"),
        ('C', 'Y') => Some("Cyprus"),
        ('C', 'Z') => Some("Czechia"),
        ('D', 'E') => Some("Germany"),
        ('D', 'J') => Some("Djibouti"),
        ('D', 'K') => Some("Denmark"),
        ('D', 'M') => Some("Dominica"),
        ('D', 'O') => Some("Dominican Republic"),
        ('D', 'Z') => Some("Algeria"),
        ('E', 'C') => Some("Ecuador"),
        ('E', 'E') => Some("Estonia"),
        ('E', 'G') => Some("Egypt"),
        ('E', 'H') => Some("Western Sahara"),
        ('E', 'R') => Some("Eritrea"),
        ('E', 'S') => Some("Spain"),
        ('E', 'T') => Some("Ethiopia"),
        ('F', 'I') => Some("Finland"),
        ('F', 'J') => Some("Fiji"),
        ('F', 'K') => Some("Falkland Islands (Malvinas)"),
        ('F', 'M') => Some("Micronesia, Federated States of"),
        ('F', 'O') => Some("Faroe Islands"),
        ('F', 'R') => Some("France"),
        ('G', 'A') => Some("Gabon"),
        ('G', 'B') => Some("United Kingdom of Great Britain and Northern Ireland"),
        ('G', 'D') => Some("Grenada"),
        ('G', 'E') => Some("Georgia"),
        ('G', 'F') => Some("French Guiana"),
        ('G', 'G') => Some("Guernsey"),
        ('G', 'H') => Some("Ghana"),
        ('G', 'I') => Some("Gibraltar"),
        ('G', 'L') => Some("Greenland"),
        ('G', 'M') => Some("Gambia"),
        ('G', 'N') => Some("Guinea"),
        ('G', 'P') => Some("Guadeloupe"),
        ('G', 'Q') => Some("Equatorial Guinea"),
        ('G', 'R') => Some("Greece"),
        ('G', 'S') => Some("South Georgia and the South Sandwich Islands"),
        ('G', 'T') => Some("Guatemala"),
        ('G', 'U') => Some("Guam"),
        ('G', 'W') => Some("Guinea-Bissau"),
        ('G', 'Y') => Some("Guyana"),
        ('H', 'K') => Some("Hong Kong"),
        ('H', 'M') => Some("Heard Island and McDonald Islands"),
        ('H', 'N') => Some("Honduras"),
        ('H', 'R') => Some("Croatia"),
        ('H', 'T') => Some("Haiti"),
        ('H', 'U') => Some("Hungary"),
        ('I', 'D') => Some("Indonesia"),
        ('I', 'E') => Some("Ireland"),
        ('I', 'L') => Some("Israel"),
        ('I', 'M') => Some("Isle of Man"),
        ('I', 'N') => Some("India"),
        ('I', 'O') => Some("British Indian Ocean Territory"),
        ('I', 'Q') => Some("Iraq"),
        ('I', 'R') => Some("Iran, Islamic Republic of"),
        ('I', 'S') => Some("Iceland"),
        ('I', 'T') => Some("Italy"),
        ('J', 'E') => Some("Jersey"),
        ('J', 'M') => Some("Jamaica"),
        ('J', 'O') => Some("Jordan"),
        ('J', 'P') => Some("Japan"),
        ('K', 'E') => Some("Kenya"),
        ('K', 'G') => Some("Kyrgyzstan"),
        ('K', 'H') => Some("Cambodia"),
        ('K', 'I') => Some("Kiribati"),
        ('K', 'M') => Some("Comoros"),
        ('K', 'N') => Some("Saint Kitts and Nevis"),
        ('K', 'P') => Some("Korea, Democratic People's Republic of"),
        ('K', 'R') => Some("Korea, Republic of"),
        ('K', 'W') => Some("Kuwait"),
        ('K', 'Y') => Some("Cayman Islands"),
        ('K', 'Z') => Some("Kazakhstan"),
        ('L', 'A') => Some("Lao People's Democratic Republic"),
        ('L', 'B') => Some("Lebanon"),
        ('L', 'C') => Some("Saint Lucia"),
        ('L', 'I') => Some("Liechtenstein"),
        ('L', 'K') => Some("Sri Lanka"),
        ('L', 'R') => Some("Liberia"),
        ('L', 'S') => Some("Lesotho"),
        ('L', 'T') => Some("Lithuania"),
        ('L', 'U') => Some("Luxembourg"),
        ('L', 'V') => Some("Latvia"),
        ('L', 'Y') => Some("Libya"),
        ('M', 'A') => Some("Morocco"),
        ('M', 'C') => Some("Monaco"),
        ('M', 'D') => Some("Moldova, Republic of"),
        ('M', 'E') => Some("Montenegro"),
        ('M', 'F') => Some("Saint Martin (French part)"),
        ('M', 'G') => Some("Madagascar"),
        ('M', 'H') => Some("Marshall Islands"),
        ('M', 'K') => Some("North Macedonia"),
        ('M', 'L') => Some("Mali"),
        ('M', 'M') => Some("Myanmar"),
        ('M', 'N') => Some("Mongolia"),
        ('M', 'O') => Some("Macao"),
        ('M', 'P') => Some("Northern Mariana Islands"),
        ('M', 'Q') => Some("Martinique"),
        ('M', 'R') => Some("Mauritania"),
        ('M', 'S') => Some("Montserrat"),
        ('M', 'T') => Some("Malta"),
        ('M', 'U') => Some("Mauritius"),
        ('M', 'V') => Some("Maldives"),
        ('M', 'W') => Some("Malawi"),
        ('M', 'X') => Some("Mexico"),
        ('M', 'Y') => Some("Malaysia"),
        ('M', 'Z') => Some("Mozambique"),
        ('N', 'A') => Some("Namibia"),
        ('N', 'C') => Some("New Caledonia"),
        ('N', 'E') => Some("Niger"),
        ('N', 'F') => Some("Norfolk Island"),
        ('N', 'G') => Some("Nigeria"),
        ('N', 'I') => Some("Nicaragua"),
        ('N', 'L') => Some("Netherlands, Kingdom of the"),
        ('N', 'O') => Some("Norway"),
        ('N', 'P') => Some("Nepal"),
        ('N', 'R') => Some("Nauru"),
        ('N', 'U') => Some("Niue"),
        ('N', 'Z') => Some("New Zealand"),
        ('O', 'M') => Some("Oman"),
        ('P', 'A') => Some("Panama"),
        ('P', 'E') => Some("Peru"),
        ('P', 'F') => Some("French Polynesia"),
        ('P', 'G') => Some("Papua New Guinea"),
        ('P', 'H') => Some("Philippines"),
        ('P', 'K') => Some("Pakistan"),
        ('P', 'L') => Some("Poland"),
        ('P', 'M') => Some("Saint Pierre and Miquelon"),
        ('P', 'N') => Some("Pitcairn"),
        ('P', 'R') => Some("Puerto Rico"),
        ('P', 'S') => Some("Palestine, State of"),
        ('P', 'T') => Some("Portugal"),
        ('P', 'W') => Some("Palau"),
        ('P', 'Y') => Some("Paraguay"),
        ('Q', 'A') => Some("Qatar"),
        ('R', 'E') => Some("Réunion"),
        ('R', 'O') => Some("Romania"),
        ('R', 'S') => Some("Serbia"),
        ('R', 'U') => Some("Russian Federation"),
        ('R', 'W') => Some("Rwanda"),
        ('S', 'A') => Some("Saudi Arabia"),
        ('S', 'B') => Some("Solomon Islands"),
        ('S', 'C') => Some("Seychelles"),
        ('S', 'D') => Some("Sudan"),
        ('S', 'E') => Some("Sweden"),
        ('S', 'G') => Some("Singapore"),
        ('S', 'H') => Some("Saint Helena, Ascension and Tristan da Cunha"),
        ('S', 'I') => Some("Slovenia"),
        ('S', 'J') => Some("Svalbard and Jan Mayen"),
        ('S', 'K') => Some("Slovakia"),
        ('S', 'L') => Some("Sierra Leone"),
        ('S', 'M') => Some("San Marino"),
        ('S', 'N') => Some("Senegal"),
        ('S', 'O') => Some("Somalia"),
        ('S', 'R') => Some("Suriname"),
        ('S', 'S') => Some("South Sudan"),
        ('S', 'T') => Some("Sao Tome and Principe"),
        ('S', 'V') => Some("El Salvador"),
        ('S', 'X') => Some("Sint Maarten (Dutch part)"),
        ('S', 'Y') => Some("Syrian Arab Republic"),
        ('S', 'Z') => Some("Eswatini"),
        ('T', 'C') => Some("Turks and Caicos Islands"),
        ('T', 'D') => Some("Chad"),
        ('T', 'F') => Some("French Southern Territories"),
        ('T', 'G') => Some("Togo"),
        ('T', 'H') => Some("Thailand"),
        ('T', 'J') => Some("Tajikistan"),
        ('T', 'K') => Some("Tokelau"),
        ('T', 'L') => Some("Timor-Leste"),
        ('T', 'M') => Some("Turkmenistan"),
        ('T', 'N') => Some("Tunisia"),
        ('T', 'O') => Some("Tonga"),
        ('T', 'R') => Some("Türkiye"),
        ('T', 'T') => Some("Trinidad and Tobago"),
        ('T', 'V') => Some("Tuvalu"),
        ('T', 'W') => Some("Taiwan, Province of China"),
        ('T', 'Z') => Some("Tanzania, United Republic of"),
        ('U', 'A') => Some("Ukraine"),
        ('U', 'G') => Some("Uganda"),
        ('U', 'M') => Some("United States Minor Outlying Islands"),
        ('U', 'S') => Some("United States of America"),
        ('U', 'Y') => Some("Uruguay"),
        ('U', 'Z') => Some("Uzbekistan"),
        ('V', 'A') => Some("Holy See"),
        ('V', 'C') => Some("Saint Vincent and the Grenadines"),
        ('V', 'E') => Some("Venezuela, Bolivarian Republic of"),
        ('V', 'G') => Some("Virgin Islands (British)"),
        ('V', 'I') => Some("Virgin Islands (U.S.)"),
        ('V', 'N') => Some("Viet Nam"),
        ('V', 'U') => Some("Vanuatu"),
        ('W', 'F') => Some("Wallis and Futuna"),
        ('W', 'S') => Some("Samoa"),
        ('Y', 'E') => Some("Yemen"),
        ('Y', 'T') => Some("Mayotte"),
        ('Z', 'A') => Some("South Africa"),
        ('Z', 'M') => Some("Zambia"),
        ('Z', 'W') => Some("Zimbabwe"),
        _ => None,
    }
}

/// The English short name of a country code, if `code` is an assigned
/// ISO 3166-1 alpha-2 code.
pub open spec fn spec_country_name(code: Seq<char>) -> Option<&'static str> {
    if code.len() == 2 {
        iso_country_name(code[0], code[1])
    } else {
        None
    }
}

/// `code` is a current ISO 3166-1 alpha-2 country code.
pub open spec fn spec_is_iso_country(code: Seq<char>) -> bool {
    spec_country_name(code) is Some
}

/// The description of an ISIN substitute prefix `ab` — a code admissible as
/// an ISIN prefix that is not an ISO 3166-1 country code.
pub open spec fn substitute_prefix_name(a: char, b: char) -> Option<&'static str> {
    match (a, b) {
        ('X', 'S') => Some("Internationally cleared securities"),
        ('E', 'U') => Some("European Union institutions"),
        ('X', 'K') => Some("Kosovo"),
        ('X', 'A') | ('X', 'B') | ('X', 'C') | ('X', 'D') | ('X', 'F') | ('Q', 'S') | ('Q', 'T') => Some(
            "ISIN substitute prefix",
        ),
        _ => None,
    }
}

/// `code` is one of the ISIN substitute prefixes
/// `EU QS QT XA XB XC XD XF XK XS`.
pub open spec fn spec_is_isin_substitute(code: Seq<char>) -> bool {
    code.len() == 2 && substitute_prefix_name(code[0], code[1]) is Some
}

/// `code` is admissible as the two-letter prefix of an ISIN: an ISO country
/// code or an ISIN substitute prefix.
pub open spec fn spec_is_isin_prefix(code: Seq<char>) -> bool {
    spec_is_iso_country(code) || spec_is_isin_substitute(code)
}

/// Every admissible ISIN prefix is two upper-case ASCII letters.
pub proof fn lemma_isin_prefix_letters(code: Seq<char>)
    requires
        spec_is_isin_prefix(code),
    ensures
        code.len() == 2,
        is_upper_char(code[0]),
        is_upper_char(code[1]),
{
}

/// The description of a valid ISIN prefix: the country's name for an ISO
/// code, otherwise the substitute prefix's description.
pub open spec fn spec_isin_prefix_name(code: Seq<char>) -> Option<&'static str> {
    match spec_country_name(code) {
        Some(name) => Some(name),
        None => if code.len() == 2 {
            substitute_prefix_name(code[0], code[1])
        } else {
            None
        },
    }
}

fn country_name_of(a: char, b: char) -> (r: Option<&'static str>)
    ensures
        r == iso_country_name(a, b),
{
    match (a, b) {
        ('A', 'D') => Some("Andorra"),
        ('A', 'E') => Some("United Arab Emirates"),
        ('A', 'F') => Some("Afghanistan"),
        ('A', 'G') => Some("Antigua and Barbuda"),
        ('A', 'I') => Some("Anguilla"),
        ('A', 'L') => Some("Albania"),
        ('A', 'M') => Some("Armenia"),
        ('A', 'O') => Some("Angola"),
        ('A', 'Q') => Some("Antarctica"),
        ('A', 'R') => Some("Argentina"),
        ('A', 'S') => Some("American Samoa"),
        ('A', 'T') => Some("Austria"),
        ('A', 'U') => Some("Australia"),
        ('A', 'W') => Some("Aruba"),
        ('A', 'X') => Some("Åland Islands"),
        ('A', 'Z') => Some("Azerbaijan"),
        ('B', 'A') => Some("Bosnia and Herzegovina"),
        ('B', 'B') => Some("Barbados"),
        ('B', 'D') => Some("Bangladesh"),
        ('B', 'E') => Some("Belgium"),
        ('B', 'F') => Some("Burkina Faso"),
        ('B', 'G') => Some("Bulgaria"),
        ('B', 'H') => Some("Bahrain"),
        ('B', 'I') => Some("Burundi"),
        ('B', 'J') => Some("Benin"),
        ('B', 'L') => Some("Saint Barthélemy"),
        ('B', 'M') => Some("Bermuda"),
        ('B', 'N') => Some("Brunei Darussalam"),
        ('B', 'O') => Some("Bolivia, Plurinational State of"),
        ('B', 'Q') => Some("Bonaire, Sint Eustatius and Saba"),
        ('B', 'R') => Some("Brazil"),
        ('B', 'S') => Some("Bahamas"),
        ('B', 'T') => Some("Bhutan"),
        ('B', 'V') => Some("Bouvet Island"),
        ('B', 'W') => Some("Botswana"),
        ('B', 'Y') => Some("Belarus"),
        ('B', 'Z') => Some("Belize"),
        ('C', 'A') => Some("Canada"),
        ('C', 'C') => Some("Cocos (Keeling) Islands"),
        ('C', 'D') => Some("Congo, Democratic Republic of the"),
        ('C', 'F') => Some("Central African Republic"),
        ('C', 'G') => Some("Congo"),
        ('C', 'H') => Some("Switzerland"),
        ('C', 'I') => Some("Côte d'Ivoire"),
        ('C', 'K') => Some("Cook Islands"),
        ('C', 'L') => Some("Chile"),
        ('C', 'M') => Some("Cameroon"),
        ('C', 'N') => Some("China"),
        ('C', 'O') => Some("Colombia"),
        ('C', 'R') => Some("Costa Rica"),
        ('C', 'U') => Some("Cuba"),
        ('C', 'V') => Some("Cabo Verde"),
        ('C', 'W') => Some("Curaçao"),
        ('C', 'X') => Some("Christmas Island"),
        ('C', 'Y') => Some("Cyprus"),
        ('C', 'Z') => Some("Czechia"),
        ('D', 'E') => Some("Germany"),
        ('D', 'J') => Some("Djibouti"),
        ('D', 'K') => Some("Denmark"),
        ('D', 'M') => Some("Dominica"),
        ('D', 'O') => Some("Dominican Republic"),
        ('D', 'Z') => Some("Algeria"),
        ('E', 'C') => Some("Ecuador"),
        ('E', 'E') => Some("Estonia"),
        ('E', 'G') => Some("Egypt"),
        ('E', 'H') => Some("Western Sahara"),
        ('E', 'R') => Some("Eritrea"),
        ('E', 'S') => Some("Spain"),
        ('E', 'T') => Some("Ethiopia"),
        ('F', 'I') => Some("Finland"),
        ('F', 'J') => Some("Fiji"),
        ('F', 'K') => Some("Falkland Islands (Malvinas)"),
        ('F', 'M') => Some("Micronesia, Federated States of"),
        ('F', 'O') => Some("Faroe Islands"),
        ('F', 'R') => Some("France"),
        ('G', 'A') => Some("Gabon"),
        ('G', 'B') => Some("United Kingdom of Great Britain and Northern Ireland"),
        ('G', 'D') => Some("Grenada"),
        ('G', 'E') => Some("Georgia"),
        ('G', 'F') => Some("French Guiana"),
        ('G', 'G') => Some("Guernsey"),
        ('G', 'H') => Some("Ghana"),
        ('G', 'I') => Some("Gibraltar"),
        ('G', 'L') => Some("Greenland"),
        ('G', 'M') => Some("Gambia"),
        ('G', 'N') => Some("Guinea"),
        ('G', 'P') => Some("Guadeloupe"),
        ('G', 'Q') => Some("Equatorial Guinea"),
        ('G', 'R') => Some("Greece"),
        ('G', 'S') => Some("South Georgia and the South Sandwich Islands"),
        ('G', 'T') => Some("Guatemala"),
        ('G', 'U') => Some("Guam"),
        ('G', 'W') => Some("Guinea-Bissau"),
        ('G', 'Y') => Some("Guyana"),
        ('H', 'K') => Some("Hong Kong"),
        ('H', 'M') => Some("Heard Island and McDonald Islands"),
        ('H', 'N') => Some("Honduras"),
        ('H', 'R') => Some("Croatia"),
        ('H', 'T') => Some("Haiti"),
        ('H', 'U') => Some("Hungary"),
        ('I', 'D') => Some("Indonesia"),
        ('I', 'E') => Some("Ireland"),
        ('I', 'L') => Some("Israel"),
        ('I', 'M') => Some("Isle of Man"),
        ('I', 'N') => Some("India"),
        ('I', 'O') => Some("British Indian Ocean Territory"),
        ('I', 'Q') => Some("Iraq"),
        ('I', 'R') => Some("Iran, Islamic Republic of"),
        ('I', 'S') => Some("Iceland"),
        ('I', 'T') => Some("Italy"),
        ('J', 'E') => Some("Jersey"),
        ('J', 'M') => Some("Jamaica"),
        ('J', 'O') => Some("Jordan"),
        ('J', 'P') => Some("Japan"),
        ('K', 'E') => Some("Kenya"),
        ('K', 'G') => Some("Kyrgyzstan"),
        ('K', 'H') => Some("Cambodia"),
        ('K', 'I') => Some("Kiribati"),
        ('K', 'M') => Some("Comoros"),
        ('K', 'N') => Some("Saint Kitts and Nevis"),
        ('K', 'P') => Some("Korea, Democratic People's Republic of"),
        ('K', 'R') => Some("Korea, Republic of"),
        ('K', 'W') => Some("Kuwait"),
        ('K', 'Y') => Some("Cayman Islands"),
        ('K', 'Z') => Some("Kazakhstan"),
        ('L', 'A') => Some("Lao People's Democratic Republic"),
        ('L', 'B') => Some("Lebanon"),
        ('L', 'C') => Some("Saint Lucia"),
        ('L', 'I') => Some("Liechtenstein"),
        ('L', 'K') => Some("Sri Lanka"),
        ('L', 'R') => Some("Liberia"),
        ('L', 'S') => Some("Lesotho"),
        ('L', 'T') => Some("Lithuania"),
        ('L', 'U') => Some("Luxembourg"),
        ('L', 'V') => Some("Latvia"),
        ('L', 'Y') => Some("Libya"),
        ('M', 'A') => Some("Morocco"),
        ('M', 'C') => Some("Monaco"),
        ('M', 'D') => Some("Moldova, Republic of"),
        ('M', 'E') => Some("Montenegro"),
        ('M', 'F') => Some("Saint Martin (French part)"),
        ('M', 'G') => Some("Madagascar"),
        ('M', 'H') => Some("Marshall Islands"),
        ('M', 'K') => Some("North Macedonia"),
        ('M', 'L') => Some("Mali"),
        ('M', 'M') => Some("Myanmar"),
        ('M', 'N') => Some("Mongolia"),
        ('M', 'O') => Some("Macao"),
        ('M', 'P') => Some("Northern Mariana Islands"),
        ('M', 'Q') => Some("Martinique"),
        ('M', 'R') => Some("Mauritania"),
        ('M', 'S') => Some("Montserrat"),
        ('M', 'T') => Some("Malta"),
        ('M', 'U') => Some("Mauritius"),
        ('M', 'V') => Some("Maldives"),
        ('M', 'W') => Some("Malawi"),
        ('M', 'X') => Some("Mexico"),
        ('M', 'Y') => Some("Malaysia"),
        ('M', 'Z') => Some("Mozambique"),
        ('N', 'A') => Some("Namibia"),
        ('N', 'C') => Some("New Caledonia"),
        ('N', 'E') => Some("Niger"),
        ('N', 'F') => Some("Norfolk Island"),
        ('N', 'G') => Some("Nigeria"),
        ('N', 'I') => Some("Nicaragua"),
        ('N', 'L') => Some("Netherlands, Kingdom of the"),
        ('N', 'O') => Some("Norway"),
        ('N', 'P') => Some("Nepal"),
        ('N', 'R') => Some("Nauru"),
        ('N', 'U') => Some("Niue"),
        ('N', 'Z') => Some("New Zealand"),
        ('O', 'M') => Some("Oman"),
        ('P', 'A') => Some("Panama"),
        ('P', 'E') => Some("Peru"),
        ('P', 'F') => Some("French Polynesia"),
        ('P', 'G') => Some("Papua New Guinea"),
        ('P', 'H') => Some("Philippines"),
        ('P', 'K') => Some("Pakistan"),
        ('P', 'L') => Some("Poland"),
        ('P', 'M') => Some("Saint Pierre and Miquelon"),
        ('P', 'N') => Some("Pitcairn"),
        ('P', 'R') => Some("Puerto Rico"),
        ('P', 'S') => Some("Palestine, State of"),
        ('P', 'T') => Some("Portugal"),
        ('P', 'W') => Some("Palau"),
        ('P', 'Y') => Some("Paraguay"),
        ('Q', 'A') => Some("Qatar"),
        ('R', 'E') => Some("Réunion"),
        ('R', 'O') => Some("Romania"),
        ('R', 'S') => Some("Serbia"),
        ('R', 'U') => Some("Russian Federation"),
        ('R', 'W') => Some("Rwanda"),
        ('S', 'A') => Some("Saudi Arabia"),
        ('S', 'B') => Some("Solomon Islands"),
        ('S', 'C') => Some("Seychelles"),
        ('S', 'D') => Some("Sudan"),
        ('S', 'E') => Some("Sweden"),
        ('S', 'G') => Some("Singapore"),
        ('S', 'H') => Some("Saint Helena, Ascension and Tristan da Cunha"),
        ('S', 'I') => Some("Slovenia"),
        ('S', 'J') => Some("Svalbard and Jan Mayen"),
        ('S', 'K') => Some("Slovakia"),
        ('S', 'L') => Some("Sierra Leone"),
        ('S', 'M') => Some("San Marino"),
        ('S', 'N') => Some("Senegal"),
        ('S', 'O') => Some("Somalia"),
        ('S', 'R') => Some("Suriname"),
        ('S', 'S') => Some("South Sudan"),
        ('S', 'T') => Some("Sao Tome and Principe"),
        ('S', 'V') => Some("El Salvador"),
        ('S', 'X') => Some("Sint Maarten (Dutch part)"),
        ('S', 'Y') => Some("Syrian Arab Republic"),
        ('S', 'Z') => Some("Eswatini"),
        ('T', 'C') => Some("Turks and Caicos Islands"),
        ('T', 'D') => Some("Chad"),
        ('T', 'F') => Some("French Southern Territories"),
        ('T', 'G') => Some("Togo"),
        ('T', 'H') => Some("Thailand"),
        ('T', 'J') => Some("Tajikistan"),
        ('T', 'K') => Some("Tokelau"),
        ('T', 'L') => Some("Timor-Leste"),
        ('T', 'M') => Some("Turkmenistan"),
        ('T', 'N') => Some("Tunisia"),
        ('T', 'O') => Some("Tonga"),
        ('T', 'R') => Some("Türkiye"),
        ('T', 'T') => Some("Trinidad and Tobago"),
        ('T', 'V') => Some("Tuvalu"),
        ('T', 'W') => Some("Taiwan, Province of China"),
        ('T', 'Z') => Some("Tanzania, United Republic of"),
        ('U', 'A') => Some("Ukraine"),
        ('U', 'G') => Some("Uganda"),
        ('U', 'M') => Some("United States Minor Outlying Islands"),
        ('U', 'S') => Some("United States of America"),
        ('U', 'Y') => Some("Uruguay"),
        ('U', 'Z') => Some("Uzbekistan"),
        ('V', 'A') => Some("Holy See"),
        ('V', 'C') => Some("Saint Vincent and the Grenadines"),
        ('V', 'E') => Some("Venezuela, Bolivarian Republic of"),
        ('V', 'G') => Some("Virgin Islands (British)"),
        ('V', 'I') => Some("Virgin Islands (U.S.)"),
        ('V', 'N') => Some("Viet Nam"),
        ('V', 'U') => Some("Vanuatu"),
        ('W', 'F') => Some("Wallis and Futuna"),
        ('W', 'S') => Some("Samoa"),
        ('Y', 'E') => Some("Yemen"),
        ('Y', 'T') => Some("Mayotte"),
        ('Z', 'A') => Some("South Africa"),
        ('Z', 'M') => Some("Zambia"),
        ('Z', 'W') => Some("Zimbabwe"),
        _ => None,
    }
}

fn substitute_name_of(a: char, b: char) -> (r: Option<&'static str>)
    ensures
        r == substitute_prefix_name(a, b),
{
    match (a, b) {
        ('X', 'S') => Some("Internationally cleared securities"),
        ('E', 'U') => Some("European Union institutions"),
        ('X', 'K') => Some("Kosovo"),
        ('X', 'A') | ('X', 'B') | ('X', 'C') | ('X', 'D') | ('X', 'F') | ('Q', 'S') | ('Q', 'T') => Some(
            "ISIN substitute prefix",
        ),
        _ => None,
    }
}

/// Returns the English short name of an ISO 3166-1 alpha-2 country code,
/// or `None` if `code` is not an assigned code. The match is exact and
/// case-sensitive.
pub fn country_name(code: &str) -> (r: Option<&'static str>)
    ensures
        r == spec_country_name(code@),
{
    if code.unicode_len() != 2 {
        return None;
    }
    country_name_of(code.get_char(0), code.get_char(1))
}

/// Returns `true` if `code` is a current ISO 3166-1 alpha-2 country code
/// (exact, case-sensitive match).
pub fn is_iso_country(code: &str) -> (r: bool)
    ensures
        r == spec_is_iso_country(code@),
{
    country_name(code).is_some()
}

/// Returns `true` if `code` is admissible as the two-letter prefix of an
/// ISIN: every ISO 3166-1 country code, and each ISIN substitute prefix.
pub fn is_isin_prefix(code: &str) -> (r: bool)
    ensures
        r == spec_is_isin_prefix(code@),
{
    if is_iso_country(code) {
        return true;
    }
    if code.unicode_len() != 2 {
        return false;
    }
    substitute_name_of(code.get_char(0), code.get_char(1)).is_some()
}

/// Returns the English description of a valid ISIN country prefix, or
/// `None` if `code` is not admissible as an ISIN prefix.
pub fn isin_prefix_name(code: &str) -> (r: Option<&'static str>)
    ensures
        r == spec_isin_prefix_name(code@),
        r is Some <==> spec_is_isin_prefix(code@),
{
    if let Some(name) = country_name(code) {
        return Some(name);
    }
    if code.unicode_len() != 2 {
        return None;
    }
    substitute_name_of(code.get_char(0), code.get_char(1))
}

/// The assigned ISO 3166-1 alpha-2 codes are exactly these 249, listed
/// letter by letter; every other pair of characters is no country code.
pub proof fn law_iso_country_codes(a: char, b: char)
    ensures
        spec_is_iso_country(seq![a, b]) <==> {
            ||| (a == 'A' && (b == 'D' || b == 'E' || b == 'F' || b == 'G' || b == 'I' || b == 'L' || b == 'M' || b == 'O' || b == 'Q' || b == 'R' || b == 'S' || b == 'T' || b == 'U' || b == 'W' || b == 'X' || b == 'Z'))
            ||| (a == 'B' && (b == 'A' || b == 'B' || b == 'D' || b == 'E' || b == 'F' || b == 'G' || b == 'H' || b == 'I' || b == 'J' || b == 'L' || b == 'M' || b == 'N' || b == 'O' || b == 'Q' || b == 'R' || b == 'S' || b == 'T' || b == 'V' || b == 'W' || b == 'Y' || b == 'Z'))
            ||| (a == 'C' && (b == 'A' || b == 'C' || b == 'D' || b == 'F' || b == 'G' || b == 'H' || b == 'I' || b == 'K' || b == 'L' || b == 'M' || b == 'N' || b == 'O' || b == 'R' || b == 'U' || b == 'V' || b == 'W' || b == 'X' || b == 'Y' || b == 'Z'))
            ||| (a == 'D' && (b == 'E' || b == 'J' || b == 'K' || b == 'M' || b == 'O' || b == 'Z'))
            ||| (a == 'E' && (b == 'C' || b == 'E' || b == 'G' || b == 'H' || b == 'R' || b == 'S' || b == 'T'))
            ||| (a == 'F' && (b == 'I' || b == 'J' || b == 'K' || b == 'M' || b == 'O' || b == 'R'))
            ||| (a == 'G' && (b == 'A' || b == 'B' || b == 'D' || b == 'E' || b == 'F' || b == 'G' || b == 'H' || b == 'I' || b == 'L' || b == 'M' || b == 'N' || b == 'P' || b == 'Q' || b == 'R' || b == 'S' || b == 'T' || b == 'U' || b == 'W' || b == 'Y'))
            ||| (a == 'H' && (b == 'K' || b == 'M' || b == 'N' || b == 'R' || b == 'T' || b == 'U'))
            ||| (a == 'I' && (b == 'D' || b == 'E' || b == 'L' || b == 'M' || b == 'N' || b == 'O' || b == 'Q' || b == 'R' || b == 'S' || b == 'T'))
            ||| (a == 'J' && (b == 'E' || b == 'M' || b == 'O' || b == 'P'))
            ||| (a == 'K' && (b == 'E' || b == 'G' || b == 'H' || b == 'I' || b == 'M' || b == 'N' || b == 'P' || b == 'R' || b == 'W' || b == 'Y' || b == 'Z'))
            ||| (a == 'L' && (b == 'A' || b == 'B' || b == 'C' || b == 'I' || b == 'K' || b == 'R' || b == 'S' || b == 'T' || b == 'U' || b == 'V' || b == 'Y'))
            ||| (a == 'M' && (b == 'A' || b == 'C' || b == 'D' || b == 'E' || b == 'F' || b == 'G' || b == 'H' || b == 'K' || b == 'L' || b == 'M' || b == 'N' || b == 'O' || b == 'P' || b == 'Q' || b == 'R' || b == 'S' || b == 'T' || b == 'U' || b == 'V' || b == 'W' || b == 'X' || b == 'Y' || b == 'Z'))
            ||| (a == 'N' && (b == 'A' || b == 'C' || b == 'E' || b == 'F' || b == 'G' || b == 'I' || b == 'L' || b == 'O' || b == 'P' || b == 'R' || b == 'U' || b == 'Z'))
            ||| (a == 'O' && (b == 'M'))
            ||| (a == 'P' && (b == 'A' || b == 'E' || b == 'F' || b == 'G' || b == 'H' || b == 'K' || b == 'L' || b == 'M' || b == 'N' || b == 'R' || b == 'S' || b == 'T' || b == 'W' || b == 'Y'))
            ||| (a == 'Q' && (b == 'A'))
            ||| (a == 'R' && (b == 'E' || b == 'O' || b == 'S' || b == 'U' || b == 'W'))
            ||| (a == 'S' && (b == 'A' || b == 'B' || b == 'C' || b == 'D' || b == 'E' || b == 'G' || b == 'H' || b == 'I' || b == 'J' || b == 'K' || b == 'L' || b == 'M' || b == 'N' || b == 'O' || b == 'R' || b == 'S' || b == 'T' || b == 'V' || b == 'X' || b == 'Y' || b == 'Z'))
            ||| (a == 'T' && (b == 'C' || b == 'D' || b == 'F' || b == 'G' || b == 'H' || b == 'J' || b == 'K' || b == 'L' || b == 'M' || b == 'N' || b == 'O' || b == 'R' || b == 'T' || b == 'V' || b == 'W' || b == 'Z'))
            ||| (a == 'U' && (b == 'A' || b == 'G' || b == 'M' || b == 'S' || b == 'Y' || b == 'Z'))
            ||| (a == 'V' && (b == 'A' || b == 'C' || b == 'E' || b == 'G' || b == 'I' || b == 'N' || b == 'U'))
            ||| (a == 'W' && (b == 'F' || b == 'S'))
            ||| (a == 'Y' && (b == 'E' || b == 'T'))
            ||| (a == 'Z' && (b == 'A' || b == 'M' || b == 'W'))
        },
{
}

/// The English short name of each assigned ISO 3166-1 alpha-2 code.
pub proof fn law_iso_country_names()
    ensures
        iso_country_name('A', 'D') == Some("Andorra"),
        iso_country_name('A', 'E') == Some("United Arab Emirates"),
        iso_country_name('A', 'F') == Some("Afghanistan"),
        iso_country_name('A', 'G') == Some("Antigua and Barbuda"),
        iso_country_name('A', 'I') == Some("Anguilla"),
        iso_country_name('A', 'L') == Some("Albania"),
        iso_country_name('A', 'M') == Some("Armenia"),
        iso_country_name('A', 'O') == Some("Angola"),
        iso_country_name('A', 'Q') == Some("Antarctica"),
        iso_country_name('A', 'R') == Some("Argentina"),
        iso_country_name('A', 'S') == Some("American Samoa"),
        iso_country_name('A', 'T') == Some("Austria"),
        iso_country_name('A', 'U') == Some("Australia"),
        iso_country_name('A', 'W') == Some("Aruba"),
        iso_country_name('A', 'X') == Some("Åland Islands"),
        iso_country_name('A', 'Z') == Some("Azerbaijan"),
        iso_country_name('B', 'A') == Some("Bosnia and Herzegovina"),
        iso_country_name('B', 'B') == Some("Barbados"),
        iso_country_name('B', 'D') == Some("Bangladesh"),
        iso_country_name('B', 'E') == Some("Belgium"),
        iso_country_name('B', 'F') == Some("Burkina Faso"),
        iso_country_name('B', 'G') == Some("Bulgaria"),
        iso_country_name('B', 'H') == Some("Bahrain"),
        iso_country_name('B', 'I') == Some("Burundi"),
        iso_country_name('B', 'J') == Some("Benin"),
        iso_country_name('B', 'L') == Some("Saint Barthélemy"),
        iso_country_name('B', 'M') == Some("Bermuda"),
        iso_country_name('B', 'N') == Some("Brunei Darussalam"),
        iso_country_name('B', 'O') == Some("Bolivia, Plurinational State of"),
        iso_country_name('B', 'Q') == Some("Bonaire, Sint Eustatius and Saba"),
        iso_country_name('B', 'R') == Some("Brazil"),
        iso_country_name('B', 'S') == Some("Bahamas"),
        iso_country_name('B', 'T') == Some("Bhutan"),
        iso_country_name('B', 'V') == Some("Bouvet Island"),
        iso_country_name('B', 'W') == Some("Botswana"),
        iso_country_name('B', 'Y') == Some("Belarus"),
        iso_country_name('B', 'Z') == Some("Belize"),
        iso_country_name('C', 'A') == Some("Canada"),
        iso_country_name('C', 'C') == Some("Cocos (Keeling) Islands"),
        iso_country_name('C', 'D') == Some("Congo, Democratic Republic of the"),
        iso_country_name('C', 'F') == Some("Central African Republic"),
        iso_country_name('C', 'G') == Some("Congo"),
        iso_country_name('C', 'H') == Some("Switzerland"),
        iso_country_name('C', 'I') == Some("Côte d'Ivoire"),
        iso_country_name('C', 'K') == Some("Cook Islands"),
        iso_country_name('C', 'L') == Some("Chile"),
        iso_country_name('C', 'M') == Some("Cameroon"),
        iso_country_name('C', 'N') == Some("China"),
        iso_country_name('C', 'O') == Some("Colombia"),
        iso_country_name('C', 'R') == Some("Costa Rica"),
        iso_country_name('C', 'U') == Some("Cuba"),
        iso_country_name('C', 'V') == Some("Cabo Verde"),
        iso_country_name('C', 'W') == Some("Curaçao"),
        iso_country_name('C', 'X') == Some("Christmas Island"),
        iso_country_name('C', 'Y') == Some("Cyprus"),
        iso_country_name('C', 'Z') == Some("Czechia"),
        iso_country_name('D', 'E') == Some("Germany"),
        iso_country_name('D', 'J') == Some("Djibouti"),
        iso_country_name('D', 'K') == Some("Denmark"),
        iso_country_name('D', 'M') == Some("Dominica"),
        iso_country_name('D', 'O') == Some("Dominican Republic"),
        iso_country_name('D', 'Z') == Some("Algeria"),
        iso_country_name('E', 'C') == Some("Ecuador"),
        iso_country_name('E', 'E') == Some("Estonia"),
        iso_country_name('E', 'G') == Some("Egypt"),
        iso_country_name('E', 'H') == Some("Western Sahara"),
        iso_country_name('E', 'R') == Some("Eritrea"),
        iso_country_name('E', 'S') == Some("Spain"),
        iso_country_name('E', 'T') == Some("Ethiopia"),
        iso_country_name('F', 'I') == Some("Finland"),
        iso_country_name('F', 'J') == Some("Fiji"),
        iso_country_name('F', 'K') == Some("Falkland Islands (Malvinas)"),
        iso_country_name('F', 'M') == Some("Micronesia, Federated States of"),
        iso_country_name('F', 'O') == Some("Faroe Islands"),
        iso_country_name('F', 'R') == Some("France"),
        iso_country_name('G', 'A') == Some("Gabon"),
        iso_country_name('G', 'B') == Some("United Kingdom of Great Britain and Northern Ireland"),
        iso_country_name('G', 'D') == Some("Grenada"),
        iso_country_name('G', 'E') == Some("Georgia"),
        iso_country_name('G', 'F') == Some("French Guiana"),
        iso_country_name('G', 'G') == Some("Guernsey"),
        iso_country_name('G', 'H') == Some("Ghana"),
        iso_country_name('G', 'I') == Some("Gibraltar"),
        iso_country_name('G', 'L') == Some("Greenland"),
        iso_country_name('G', 'M') == Some("Gambia"),
        iso_country_name('G', 'N') == Some("Guinea"),
        iso_country_name('G', 'P') == Some("Guadeloupe"),
        iso_country_name('G', 'Q') == Some("Equatorial Guinea"),
        iso_country_name('G', 'R') == Some("Greece"),
        iso_country_name('G', 'S') == Some("South Georgia and the South Sandwich Islands"),
        iso_country_name('G', 'T') == Some("Guatemala"),
        iso_country_name('G', 'U') == Some("Guam"),
        iso_country_name('G', 'W') == Some("Guinea-Bissau"),
        iso_country_name('G', 'Y') == Some("Guyana"),
        iso_country_name('H', 'K') == Some("Hong Kong"),
        iso_country_name('H', 'M') == Some("Heard Island and McDonald Islands"),
        iso_country_name('H', 'N') == Some("Honduras"),
        iso_country_name('H', 'R') == Some("Croatia"),
        iso_country_name('H', 'T') == Some("Haiti"),
        iso_country_name('H', 'U') == Some("Hungary"),
        iso_country_name('I', 'D') == Some("Indonesia"),
        iso_country_name('I', 'E') == Some("Ireland"),
        iso_country_name('I', 'L') == Some("Israel"),
        iso_country_name('I', 'M') == Some("Isle of Man"),
        iso_country_name('I', 'N') == Some("India"),
        iso_country_name('I', 'O') == Some("British Indian Ocean Territory"),
        iso_country_name('I', 'Q') == Some("Iraq"),
        iso_country_name('I', 'R') == Some("Iran, Islamic Republic of"),
        iso_country_name('I', 'S') == Some("Iceland"),
        iso_country_name('I', 'T') == Some("Italy"),
        iso_country_name('J', 'E') == Some("Jersey"),
        iso_country_name('J', 'M') == Some("Jamaica"),
        iso_country_name('J', 'O') == Some("Jordan"),
        iso_country_name('J', 'P') == Some("Japan"),
        iso_country_name('K', 'E') == Some("Kenya"),
        iso_country_name('K', 'G') == Some("Kyrgyzstan"),
        iso_country_name('K', 'H') == Some("Cambodia"),
        iso_country_name('K', 'I') == Some("Kiribati"),
        iso_country_name('K', 'M') == Some("Comoros"),
        iso_country_name('K', 'N') == Some("Saint Kitts and Nevis"),
        iso_country_name('K', 'P') == Some("Korea, Democratic People's Republic of"),
        iso_country_name('K', 'R') == Some("Korea, Republic of"),
        iso_country_name('K', 'W') == Some("Kuwait"),
        iso_country_name('K', 'Y') == Some("Cayman Islands"),
        iso_country_name('K', 'Z') == Some("Kazakhstan"),
        iso_country_name('L', 'A') == Some("Lao People's Democratic Republic"),
        iso_country_name('L', 'B') == Some("Lebanon"),
        iso_country_name('L', 'C') == Some("Saint Lucia"),
        iso_country_name('L', 'I') == Some("Liechtenstein"),
        iso_country_name('L', 'K') == Some("Sri Lanka"),
        iso_country_name('L', 'R') == Some("Liberia"),
        iso_country_name('L', 'S') == Some("Lesotho"),
        iso_country_name('L', 'T') == Some("Lithuania"),
        iso_country_name('L', 'U') == Some("Luxembourg"),
        iso_country_name('L', 'V') == Some("Latvia"),
        iso_country_name('L', 'Y') == Some("Libya"),
        iso_country_name('M', 'A') == Some("Morocco"),
        iso_country_name('M', 'C') == Some("Monaco"),
        iso_country_name('M', 'D') == Some("Moldova, Republic of"),
        iso_country_name('M', 'E') == Some("Montenegro"),
        iso_country_name('M', 'F') == Some("Saint Martin (French part)"),
        iso_country_name('M', 'G') == Some("Madagascar"),
        iso_country_name('M', 'H') == Some("Marshall Islands"),
        iso_country_name('M', 'K') == Some("North Macedonia"),
        iso_country_name('M', 'L') == Some("Mali"),
        iso_country_name('M', 'M') == Some("Myanmar"),
        iso_country_name('M', 'N') == Some("Mongolia"),
        iso_country_name('M', 'O') == Some("Macao"),
        iso_country_name('M', 'P') == Some("Northern Mariana Islands"),
        iso_country_name('M', 'Q') == Some("Martinique"),
        iso_country_name('M', 'R') == Some("Mauritania"),
        iso_country_name('M', 'S') == Some("Montserrat"),
        iso_country_name('M', 'T') == Some("Malta"),
        iso_country_name('M', 'U') == Some("Mauritius"),
        iso_country_name('M', 'V') == Some("Maldives"),
        iso_country_name('M', 'W') == Some("Malawi"),
        iso_country_name('M', 'X') == Some("Mexico"),
        iso_country_name('M', 'Y') == Some("Malaysia"),
        iso_country_name('M', 'Z') == Some("Mozambique"),
        iso_country_name('N', 'A') == Some("Namibia"),
        iso_country_name('N', 'C') == Some("New Caledonia"),
        iso_country_name('N', 'E') == Some("Niger"),
        iso_country_name('N', 'F') == Some("Norfolk Island"),
        iso_country_name('N', 'G') == Some("Nigeria"),
        iso_country_name('N', 'I') == Some("Nicaragua"),
        iso_country_name('N', 'L') == Some("Netherlands, Kingdom of the"),
        iso_country_name('N', 'O') == Some("Norway"),
        iso_country_name('N', 'P') == Some("Nepal"),
        iso_country_name('N', 'R') == Some("Nauru"),
        iso_country_name('N', 'U') == Some("Niue"),
        iso_country_name('N', 'Z') == Some("New Zealand"),
        iso_country_name('O', 'M') == Some("Oman"),
        iso_country_name('P', 'A') == Some("Panama"),
        iso_country_name('P', 'E') == Some("Peru"),
        iso_country_name('P', 'F') == Some("French Polynesia"),
        iso_country_name('P', 'G') == Some("Papua New Guinea"),
        iso_country_name('P', 'H') == Some("Philippines"),
        iso_country_name('P', 'K') == Some("Pakistan"),
        iso_country_name('P', 'L') == Some("Poland"),
        iso_country_name('P', 'M') == Some("Saint Pierre and Miquelon"),
        iso_country_name('P', 'N') == Some("Pitcairn"),
        iso_country_name('P', 'R') == Some("Puerto Rico"),
        iso_country_name('P', 'S') == Some("Palestine, State of"),
        iso_country_name('P', 'T') == Some("Portugal"),
        iso_country_name('P', 'W') == Some("Palau"),
        iso_country_name('P', 'Y') == Some("Paraguay"),
        iso_country_name('Q', 'A') == Some("Qatar"),
        iso_country_name('R', 'E') == Some("Réunion"),
        iso_country_name('R', 'O') == Some("Romania"),
        iso_country_name('R', 'S') == Some("Serbia"),
        iso_country_name('R', 'U') == Some("Russian Federation"),
        iso_country_name('R', 'W') == Some("Rwanda"),
        iso_country_name('S', 'A') == Some("Saudi Arabia"),
        iso_country_name('S', 'B') == Some("Solomon Islands"),
        iso_country_name('S', 'C') == Some("Seychelles"),
        iso_country_name('S', 'D') == Some("Sudan"),
        iso_country_name('S', 'E') == Some("Sweden"),
        iso_country_name('S', 'G') == Some("Singapore"),
        iso_country_name('S', 'H') == Some("Saint Helena, Ascension and Tristan da Cunha"),
        iso_country_name('S', 'I') == Some("Slovenia"),
        iso_country_name('S', 'J') == Some("Svalbard and Jan Mayen"),
        iso_country_name('S', 'K') == Some("Slovakia"),
        iso_country_name('S', 'L') == Some("Sierra Leone"),
        iso_country_name('S', 'M') == Some("San Marino"),
        iso_country_name('S', 'N') == Some("Senegal"),
        iso_country_name('S', 'O') == Some("Somalia"),
        iso_country_name('S', 'R') == Some("Suriname"),
        iso_country_name('S', 'S') == Some("South Sudan"),
        iso_country_name('S', 'T') == Some("Sao Tome and Principe"),
        iso_country_name('S', 'V') == Some("El Salvador"),
        iso_country_name('S', 'X') == Some("Sint Maarten (Dutch part)"),
        iso_country_name('S', 'Y') == Some("Syrian Arab Republic"),
        iso_country_name('S', 'Z') == Some("Eswatini"),
        iso_country_name('T', 'C') == Some("Turks and Caicos Islands"),
        iso_country_name('T', 'D') == Some("Chad"),
        iso_country_name('T', 'F') == Some("French Southern Territories"),
        iso_country_name('T', 'G') == Some("Togo"),
        iso_country_name('T', 'H') == Some("Thailand"),
        iso_country_name('T', 'J') == Some("Tajikistan"),
        iso_country_name('T', 'K') == Some("Tokelau"),
        iso_country_name('T', 'L') == Some("Timor-Leste"),
        iso_country_name('T', 'M') == Some("Turkmenistan"),
        iso_country_name('T', 'N') == Some("Tunisia"),
        iso_country_name('T', 'O') == Some("Tonga"),
        iso_country_name('T', 'R') == Some("Türkiye"),
        iso_country_name('T', 'T') == Some("Trinidad and Tobago"),
        iso_country_name('T', 'V') == Some("Tuvalu"),
        iso_country_name('T', 'W') == Some("Taiwan, Province of China"),
        iso_country_name('T', 'Z') == Some("Tanzania, United Republic of"),
        iso_country_name('U', 'A') == Some("Ukraine"),
        iso_country_name('U', 'G') == Some("Uganda"),
        iso_country_name('U', 'M') == Some("United States Minor Outlying Islands"),
        iso_country_name('U', 'S') == Some("United States of America"),
        iso_country_name('U', 'Y') == Some("Uruguay"),
        iso_country_name('U', 'Z') == Some("Uzbekistan"),
        iso_country_name('V', 'A') == Some("Holy See"),
        iso_country_name('V', 'C') == Some("Saint Vincent and the Grenadines"),
        iso_country_name('V', 'E') == Some("Venezuela, Bolivarian Republic of"),
        iso_country_name('V', 'G') == Some("Virgin Islands (British)"),
        iso_country_name('V', 'I') == Some("Virgin Islands (U.S.)"),
        iso_country_name('V', 'N') == Some("Viet Nam"),
        iso_country_name('V', 'U') == Some("Vanuatu"),
        iso_country_name('W', 'F') == Some("Wallis and Futuna"),
        iso_country_name('W', 'S') == Some("Samoa"),
        iso_country_name('Y', 'E') == Some("Yemen"),
        iso_country_name('Y', 'T') == Some("Mayotte"),
        iso_country_name('Z', 'A') == Some("South Africa"),
        iso_country_name('Z', 'M') == Some("Zambia"),
        iso_country_name('Z', 'W') == Some("Zimbabwe"),
{
}

/// The ISIN substitute prefixes are exactly `EU QS QT XA XB XC XD XF XK XS`,
/// and an ISIN prefix is an assigned country code or one of them.
pub proof fn law_isin_substitute_prefixes(a: char, b: char)
    ensures
        spec_is_isin_substitute(seq![a, b]) <==> {
            ||| (a == 'E' && b == 'U')
            ||| (a == 'Q' && (b == 'S' || b == 'T'))
            ||| (a == 'X' && (b == 'A' || b == 'B' || b == 'C' || b == 'D' || b == 'F' || b == 'K' || b == 'S'))
        },
        spec_is_isin_prefix(seq![a, b]) <==> spec_is_iso_country(seq![a, b]) || spec_is_isin_substitute(seq![a, b]),
{
}

} // verus!
