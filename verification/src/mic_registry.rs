//! An embedded snapshot of the ISO 10383 Market Identifier Code registry.
//!
//! A structurally valid MIC need not name a market: `ZZZZ` is well formed
//! and identifies nothing. Membership in the registry is what makes a MIC
//! real. This snapshot holds the 31 operating and segment MICs of the
//! major exchanges listed below, each with its operating MIC, operator name,
//! city, ISO 3166-1 country and status; a code absent from it is reported
//! as unregistered. The registry is revised continually, so a report of MIC
//! validity should cite [`SNAPSHOT_DATE`].
use vstd::prelude::*;

verus! {

/// The edition of the ISO 10383 registry whose entries this snapshot holds.
pub const SNAPSHOT_DATE: &'static str = "2026-05-22";

/// The status of a registry entry.
#[derive(Debug, Clone, Copy, PartialEq, Eq, Hash)]
pub enum MicStatus {
    /// The code is in use.
    Active,
    /// The entry has been modified since it was first published.
    Updated,
    /// The code has been withdrawn.
    Expired,
}

/// One entry of the ISO 10383 registry.
#[derive(Debug, Clone, Copy, PartialEq, Eq, Hash)]
pub struct MicEntry {
    /// The market identifier code itself.
    pub mic: &'static str,
    /// The operating MIC of the market operator this code belongs to.
    pub operating_mic: &'static str,
    /// The name of the market or its operator.
    pub name: &'static str,
    /// The city where the market is located.
    pub city: &'static str,
    /// The ISO 3166-1 alpha-2 country code of the market.
    pub country: &'static str,
    /// Whether this is an operating MIC rather than a segment MIC.
    pub is_operating: bool,
    /// The entry's status.
    pub status: MicStatus,
}

/// The registry entry of the code `abcd`, if the snapshot holds one.
pub open spec fn registry_entry(a: char, b: char, c: char, d: char) -> Option<MicEntry> {
    match (a, b, c, d) {
        ('X', 'A', 'M', 'S') => Some(MicEntry {
            mic: "XAMS",
            operating_mic: "XAMS",
            name: "EURONEXT - EURONEXT AMSTERDAM",
            city: "AMSTERDAM",
            country: "NL",
            is_operating: true,
            status: MicStatus::Active,
        }),
        ('X', 'A', 'S', 'X') => Some(MicEntry {
            mic: "XASX",
            operating_mic: "XASX",
            name: "ASX - ALL MARKETS",
            city: "SYDNEY",
            country: "AU",
            is_operating: true,
            status: MicStatus::Active,
        }),
        ('X', 'B', 'O', 'M') => Some(MicEntry {
            mic: "XBOM",
            operating_mic: "XBOM",
            name: "BSE LTD",
            city: "MUMBAI",
            country: "IN",
            is_operating: true,
            status: MicStatus::Active,
        }),
        ('X', 'B', 'R', 'U') => Some(MicEntry {
            mic: "XBRU",
            operating_mic: "XBRU",
            name: "EURONEXT - EURONEXT BRUSSELS",
            city: "BRUSSELS",
            country: "BE",
            is_operating: true,
            status: MicStatus::Active,
        }),
        ('X', 'C', 'S', 'E') => Some(MicEntry {
            mic: "XCSE",
            operating_mic: "XCSE",
            name: "NASDAQ COPENHAGEN A/S",
            city: "COPENHAGEN",
            country: "DK",
            is_operating: true,
            status: MicStatus::Active,
        }),
        ('X', 'D', 'U', 'B') => Some(MicEntry {
            mic: "XDUB",
            operating_mic: "XDUB",
            name: "EURONEXT DUBLIN",
            city: "DUBLIN",
            country: "IE",
            is_operating: true,
            status: MicStatus::Active,
        }),
        ('X', 'F', 'R', 'A') => Some(MicEntry {
            mic: "XFRA",
            operating_mic: "XFRA",
            name: "DEUTSCHE BOERSE AG",
            city: "FRANKFURT",
            country: "DE",
            is_operating: true,
            status: MicStatus::Active,
        }),
        ('X', 'H', 'E', 'L') => Some(MicEntry {
            mic: "XHEL",
            operating_mic: "XHEL",
            name: "NASDAQ HELSINKI LTD",
            city: "HELSINKI",
            country: "FI",
            is_operating: true,
            status: MicStatus::Active,
        }),
        ('X', 'H', 'K', 'G') => Some(MicEntry {
            mic: "XHKG",
            operating_mic: "XHKG",
            name: "HONG KONG EXCHANGES AND CLEARING LTD",
            city: "HONG KONG",
            country: "HK",
            is_operating: true,
            status: MicStatus::Active,
        }),
        ('X', 'J', 'S', 'E') => Some(MicEntry {
            mic: "XJSE",
            operating_mic: "XJSE",
            name: "JOHANNESBURG STOCK EXCHANGE",
            city: "JOHANNESBURG",
            country: "ZA",
            is_operating: true,
            status: MicStatus::Active,
        }),
        ('X', 'K', 'R', 'X') => Some(MicEntry {
            mic: "XKRX",
            operating_mic: "XKRX",
            name: "KOREA EXCHANGE",
            city: "SEOUL",
            country: "KR",
            is_operating: true,
            status: MicStatus::Active,
        }),
        ('X', 'L', 'I', 'S') => Some(MicEntry {
            mic: "XLIS",
            operating_mic: "XLIS",
            name: "EURONEXT - EURONEXT LISBON",
            city: "LISBON",
            country: "PT",
            is_operating: true,
            status: MicStatus::Active,
        }),
        ('X', 'L', 'O', 'N') => Some(MicEntry {
            mic: "XLON",
            operating_mic: "XLON",
            name: "LONDON STOCK EXCHANGE",
            city: "LONDON",
            country: "GB",
            is_operating: true,
            status: MicStatus::Active,
        }),
        ('X', 'L', 'U', 'X') => Some(MicEntry {
            mic: "XLUX",
            operating_mic: "XLUX",
            name: "LUXEMBOURG STOCK EXCHANGE",
            city: "LUXEMBOURG",
            country: "LU",
            is_operating: true,
            status: MicStatus::Active,
        }),
        ('X', 'M', 'I', 'L') => Some(MicEntry {
            mic: "XMIL",
            operating_mic: "XMIL",
            name: "EURONEXT MILAN",
            city: "MILANO",
            country: "IT",
            is_operating: true,
            status: MicStatus::Active,
        }),
        ('X', 'N', 'A', 'S') => Some(MicEntry {
            mic: "XNAS",
            operating_mic: "XNAS",
            name: "NASDAQ - ALL MARKETS",
            city: "NEW YORK",
            country: "US",
            is_operating: true,
            status: MicStatus::Active,
        }),
        ('X', 'N', 'C', 'M') => Some(MicEntry {
            mic: "XNCM",
            operating_mic: "XNAS",
            name: "NASDAQ CAPITAL MARKET",
            city: "NEW YORK",
            country: "US",
            is_operating: false,
            status: MicStatus::Active,
        }),
        ('X', 'N', 'G', 'S') => Some(MicEntry {
            mic: "XNGS",
            operating_mic: "XNAS",
            name: "NASDAQ/NGS (GLOBAL SELECT MARKET)",
            city: "NEW YORK",
            country: "US",
            is_operating: false,
            status: MicStatus::Active,
        }),
        ('X', 'N', 'M', 'S') => Some(MicEntry {
            mic: "XNMS",
            operating_mic: "XNAS",
            name: "NASDAQ/NMS (GLOBAL MARKET)",
            city: "NEW YORK",
            country: "US",
            is_operating: false,
            status: MicStatus::Active,
        }),
        ('X', 'N', 'S', 'E') => Some(MicEntry {
            mic: "XNSE",
            operating_mic: "XNSE",
            name: "NATIONAL STOCK EXCHANGE OF INDIA",
            city: "MUMBAI",
            country: "IN",
            is_operating: true,
            status: MicStatus::Active,
        }),
        ('X', 'N', 'Y', 'S') => Some(MicEntry {
            mic: "XNYS",
            operating_mic: "XNYS",
            name: "NEW YORK STOCK EXCHANGE, INC.",
            city: "NEW YORK",
            country: "US",
            is_operating: true,
            status: MicStatus::Active,
        }),
        ('X', 'O', 'S', 'L') => Some(MicEntry {
            mic: "XOSL",
            operating_mic: "XOSL",
            name: "OSLO BORS ASA",
            city: "OSLO",
            country: "NO",
            is_operating: true,
            status: MicStatus::Active,
        }),
        ('X', 'P', 'A', 'R') => Some(MicEntry {
            mic: "XPAR",
            operating_mic: "XPAR",
            name: "EURONEXT - EURONEXT PARIS",
            city: "PARIS",
            country: "FR",
            is_operating: true,
            status: MicStatus::Active,
        }),
        ('X', 'S', 'E', 'S') => Some(MicEntry {
            mic: "XSES",
            operating_mic: "XSES",
            name: "SINGAPORE EXCHANGE",
            city: "SINGAPORE",
            country: "SG",
            is_operating: true,
            status: MicStatus::Active,
        }),
        ('X', 'S', 'H', 'E') => Some(MicEntry {
            mic: "XSHE",
            operating_mic: "XSHE",
            name: "SHENZHEN STOCK EXCHANGE",
            city: "SHENZHEN",
            country: "CN",
            is_operating: true,
            status: MicStatus::Active,
        }),
        ('X', 'S', 'H', 'G') => Some(MicEntry {
            mic: "XSHG",
            operating_mic: "XSHG",
            name: "SHANGHAI STOCK EXCHANGE",
            city: "SHANGHAI",
            country: "CN",
            is_operating: true,
            status: MicStatus::Active,
        }),
        ('X', 'S', 'T', 'O') => Some(MicEntry {
            mic: "XSTO",
            operating_mic: "XSTO",
            name: "NASDAQ STOCKHOLM AB",
            city: "STOCKHOLM",
            country: "SE",
            is_operating: true,
            status: MicStatus::Active,
        }),
        ('X', 'S', 'W', 'X') => Some(MicEntry {
            mic: "XSWX",
            operating_mic: "XSWX",
            name: "SIX SWISS EXCHANGE",
            city: "ZURICH",
            country: "CH",
            is_operating: true,
            status: MicStatus::Active,
        }),
        ('X', 'T', 'S', 'E') => Some(MicEntry {
            mic: "XTSE",
            operating_mic: "XTSE",
            name: "TORONTO STOCK EXCHANGE",
            city: "TORONTO",
            country: "CA",
            is_operating: true,
            status: MicStatus::Active,
        }),
        ('X', 'W', 'A', 'R') => Some(MicEntry {
            mic: "XWAR",
            operating_mic: "XWAR",
            name: "WARSAW STOCK EXCHANGE",
            city: "WARSZAWA",
            country: "PL",
            is_operating: true,
            status: MicStatus::Active,
        }),
        ('X', 'W', 'B', 'O') => Some(MicEntry {
            mic: "XWBO",
            operating_mic: "XWBO",
            name: "WIENER BOERSE AG",
            city: "WIEN",
            country: "AT",
            is_operating: true,
            status: MicStatus::Active,
        }),
        _ => None,
    }
}

/// The registry entry of `code`, if it is a four-character code the
/// snapshot holds.
pub open spec fn spec_registry_lookup(code: Seq<char>) -> Option<MicEntry> {
    if code.len() == 4 {
        registry_entry(code[0], code[1], code[2], code[3])
    } else {
        None
    }
}

fn entry_of(a: char, b: char, c: char, d: char) -> (r: Option<MicEntry>)
    ensures
        r == registry_entry(a, b, c, d),
{
    match (a, b, c, d) {
        ('X', 'A', 'M', 'S') => Some(MicEntry {
            mic: "XAMS",
            operating_mic: "XAMS",
            name: "EURONEXT - EURONEXT AMSTERDAM",
            city: "AMSTERDAM",
            country: "NL",
            is_operating: true,
            status: MicStatus::Active,
        }),
        ('X', 'A', 'S', 'X') => Some(MicEntry {
            mic: "XASX",
            operating_mic: "XASX",
            name: "ASX - ALL MARKETS",
            city: "SYDNEY",
            country: "AU",
            is_operating: true,
            status: MicStatus::Active,
        }),
        ('X', 'B', 'O', 'M') => Some(MicEntry {
            mic: "XBOM",
            operating_mic: "XBOM",
            name: "BSE LTD",
            city: "MUMBAI",
            country: "IN",
            is_operating: true,
            status: MicStatus::Active,
        }),
        ('X', 'B', 'R', 'U') => Some(MicEntry {
            mic: "XBRU",
            operating_mic: "XBRU",
            name: "EURONEXT - EURONEXT BRUSSELS",
            city: "BRUSSELS",
            country: "BE",
            is_operating: true,
            status: MicStatus::Active,
        }),
        ('X', 'C', 'S', 'E') => Some(MicEntry {
            mic: "XCSE",
            operating_mic: "XCSE",
            name: "NASDAQ COPENHAGEN A/S",
            city: "COPENHAGEN",
            country: "DK",
            is_operating: true,
            status: MicStatus::Active,
        }),
        ('X', 'D', 'U', 'B') => Some(MicEntry {
            mic: "XDUB",
            operating_mic: "XDUB",
            name: "EURONEXT DUBLIN",
            city: "DUBLIN",
            country: "IE",
            is_operating: true,
            status: MicStatus::Active,
        }),
        ('X', 'F', 'R', 'A') => Some(MicEntry {
            mic: "XFRA",
            operating_mic: "XFRA",
            name: "DEUTSCHE BOERSE AG",
            city: "FRANKFURT",
            country: "DE",
            is_operating: true,
            status: MicStatus::Active,
        }),
        ('X', 'H', 'E', 'L') => Some(MicEntry {
            mic: "XHEL",
            operating_mic: "XHEL",
            name: "NASDAQ HELSINKI LTD",
            city: "HELSINKI",
            country: "FI",
            is_operating: true,
            status: MicStatus::Active,
        }),
        ('X', 'H', 'K', 'G') => Some(MicEntry {
            mic: "XHKG",
            operating_mic: "XHKG",
            name: "HONG KONG EXCHANGES AND CLEARING LTD",
            city: "HONG KONG",
            country: "HK",
            is_operating: true,
            status: MicStatus::Active,
        }),
        ('X', 'J', 'S', 'E') => Some(MicEntry {
            mic: "XJSE",
            operating_mic: "XJSE",
            name: "JOHANNESBURG STOCK EXCHANGE",
            city: "JOHANNESBURG",
            country: "ZA",
            is_operating: true,
            status: MicStatus::Active,
        }),
        ('X', 'K', 'R', 'X') => Some(MicEntry {
            mic: "XKRX",
            operating_mic: "XKRX",
            name: "KOREA EXCHANGE",
            city: "SEOUL",
            country: "KR",
            is_operating: true,
            status: MicStatus::Active,
        }),
        ('X', 'L', 'I', 'S') => Some(MicEntry {
            mic: "XLIS",
            operating_mic: "XLIS",
            name: "EURONEXT - EURONEXT LISBON",
            city: "LISBON",
            country: "PT",
            is_operating: true,
            status: MicStatus::Active,
        }),
        ('X', 'L', 'O', 'N') => Some(MicEntry {
            mic: "XLON",
            operating_mic: "XLON",
            name: "LONDON STOCK EXCHANGE",
            city: "LONDON",
            country: "GB",
            is_operating: true,
            status: MicStatus::Active,
        }),
        ('X', 'L', 'U', 'X') => Some(MicEntry {
            mic: "XLUX",
            operating_mic: "XLUX",
            name: "LUXEMBOURG STOCK EXCHANGE",
            city: "LUXEMBOURG",
            country: "LU",
            is_operating: true,
            status: MicStatus::Active,
        }),
        ('X', 'M', 'I', 'L') => Some(MicEntry {
            mic: "XMIL",
            operating_mic: "XMIL",
            name: "EURONEXT MILAN",
            city: "MILANO",
            country: "IT",
            is_operating: true,
            status: MicStatus::Active,
        }),
        ('X', 'N', 'A', 'S') => Some(MicEntry {
            mic: "XNAS",
            operating_mic: "XNAS",
            name: "NASDAQ - ALL MARKETS",
            city: "NEW YORK",
            country: "US",
            is_operating: true,
            status: MicStatus::Active,
        }),
        ('X', 'N', 'C', 'M') => Some(MicEntry {
            mic: "XNCM",
            operating_mic: "XNAS",
            name: "NASDAQ CAPITAL MARKET",
            city: "NEW YORK",
            country: "US",
            is_operating: false,
            status: MicStatus::Active,
        }),
        ('X', 'N', 'G', 'S') => Some(MicEntry {
            mic: "XNGS",
            operating_mic: "XNAS",
            name: "NASDAQ/NGS (GLOBAL SELECT MARKET)",
            city: "NEW YORK",
            country: "US",
            is_operating: false,
            status: MicStatus::Active,
        }),
        ('X', 'N', 'M', 'S') => Some(MicEntry {
            mic: "XNMS",
            operating_mic: "XNAS",
            name: "NASDAQ/NMS (GLOBAL MARKET)",
            city: "NEW YORK",
            country: "US",
            is_operating: false,
            status: MicStatus::Active,
        }),
        ('X', 'N', 'S', 'E') => Some(MicEntry {
            mic: "XNSE",
            operating_mic: "XNSE",
            name: "NATIONAL STOCK EXCHANGE OF INDIA",
            city: "MUMBAI",
            country: "IN",
            is_operating: true,
            status: MicStatus::Active,
        }),
        ('X', 'N', 'Y', 'S') => Some(MicEntry {
            mic: "XNYS",
            operating_mic: "XNYS",
            name: "NEW YORK STOCK EXCHANGE, INC.",
            city: "NEW YORK",
            country: "US",
            is_operating: true,
            status: MicStatus::Active,
        }),
        ('X', 'O', 'S', 'L') => Some(MicEntry {
            mic: "XOSL",
            operating_mic: "XOSL",
            name: "OSLO BORS ASA",
            city: "OSLO",
            country: "NO",
            is_operating: true,
            status: MicStatus::Active,
        }),
        ('X', 'P', 'A', 'R') => Some(MicEntry {
            mic: "XPAR",
            operating_mic: "XPAR",
            name: "EURONEXT - EURONEXT PARIS",
            city: "PARIS",
            country: "FR",
            is_operating: true,
            status: MicStatus::Active,
        }),
        ('X', 'S', 'E', 'S') => Some(MicEntry {
            mic: "XSES",
            operating_mic: "XSES",
            name: "SINGAPORE EXCHANGE",
            city: "SINGAPORE",
            country: "SG",
            is_operating: true,
            status: MicStatus::Active,
        }),
        ('X', 'S', 'H', 'E') => Some(MicEntry {
            mic: "XSHE",
            operating_mic: "XSHE",
            name: "SHENZHEN STOCK EXCHANGE",
            city: "SHENZHEN",
            country: "CN",
            is_operating: true,
            status: MicStatus::Active,
        }),
        ('X', 'S', 'H', 'G') => Some(MicEntry {
            mic: "XSHG",
            operating_mic: "XSHG",
            name: "SHANGHAI STOCK EXCHANGE",
            city: "SHANGHAI",
            country: "CN",
            is_operating: true,
            status: MicStatus::Active,
        }),
        ('X', 'S', 'T', 'O') => Some(MicEntry {
            mic: "XSTO",
            operating_mic: "XSTO",
            name: "NASDAQ STOCKHOLM AB",
            city: "STOCKHOLM",
            country: "SE",
            is_operating: true,
            status: MicStatus::Active,
        }),
        ('X', 'S', 'W', 'X') => Some(MicEntry {
            mic: "XSWX",
            operating_mic: "XSWX",
            name: "SIX SWISS EXCHANGE",
            city: "ZURICH",
            country: "CH",
            is_operating: true,
            status: MicStatus::Active,
        }),
        ('X', 'T', 'S', 'E') => Some(MicEntry {
            mic: "XTSE",
            operating_mic: "XTSE",
            name: "TORONTO STOCK EXCHANGE",
            city: "TORONTO",
            country: "CA",
            is_operating: true,
            status: MicStatus::Active,
        }),
        ('X', 'W', 'A', 'R') => Some(MicEntry {
            mic: "XWAR",
            operating_mic: "XWAR",
            name: "WARSAW STOCK EXCHANGE",
            city: "WARSZAWA",
            country: "PL",
            is_operating: true,
            status: MicStatus::Active,
        }),
        ('X', 'W', 'B', 'O') => Some(MicEntry {
            mic: "XWBO",
            operating_mic: "XWBO",
            name: "WIENER BOERSE AG",
            city: "WIEN",
            country: "AT",
            is_operating: true,
            status: MicStatus::Active,
        }),
        _ => None,
    }
}

/// Looks `code` up in the snapshot: its entry, or `None` when `code` is not
/// a registered MIC. The match is exact and case-sensitive.
pub fn lookup(code: &str) -> (r: Option<MicEntry>)
    ensures
        r == spec_registry_lookup(code@),
{
    if code.unicode_len() != 4 {
        return None;
    }
    entry_of(code.get_char(0), code.get_char(1), code.get_char(2), code.get_char(3))
}

} // verus!
