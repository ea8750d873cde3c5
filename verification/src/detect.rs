//! Auto-detection: recognising which kind of identifier a raw string is.
//!
//! Detection is checksum-strength first. The candidate kinds are tried in a
//! fixed order — LEI, ISIN, FIGI, CUSIP, SEDOL, BIC, MIC — and the first whose
//! strict `parse` accepts the input wins, so a kind is reported only when
//! the input is fully valid for it, check digit included. ISIN is tried
//! before FIGI, so a 12-character string valid as both is an ISIN.
//!
//! A MIC has no check digit, so it is tried last and reported only when it
//! is a registered market in the embedded ISO 10383 snapshot. The
//! structural-only kinds CFI, WKN and VALOR are never detected: they carry
//! no check digit and overlap too heavily to tell apart.
use vstd::prelude::*;
use crate::bic::{is_valid_bic, stored_text_bytes, zero_bytes, Bic};
use crate::cfi::Cfi;
use crate::cusip::{is_valid_cusip, Cusip};
use crate::figi::{is_valid_figi, Figi};
use crate::isin::{is_valid_isin, Isin};
use crate::lei::{is_valid_lei, Lei};
use crate::mic::{is_registered_mic, Mic};
use crate::sedol::{is_valid_sedol, Sedol};
use crate::text::{ascii_bytes, utf8_text};
use crate::valor::Valor;
use crate::wkn::Wkn;

verus! {

/// The kind of a securities identifier: its type tag, with no payload.
#[derive(Debug, Clone, Copy, PartialEq, Eq)]
pub enum IdentifierKind {
    /// An International Securities Identification Number (ISO 6166).
    Isin,
    /// A CUSIP / CINS number (ANSI X9.6).
    Cusip,
    /// A Stock Exchange Daily Official List number (SEDOL).
    Sedol,
    /// A Legal Entity Identifier (ISO 17442).
    Lei,
    /// A Financial Instrument Global Identifier (ANSI X9.145).
    Figi,
    /// A Business Identifier Code (ISO 9362).
    Bic,
    /// A Market Identifier Code (ISO 10383).
    Mic,
    /// A Classification of Financial Instruments code (ISO 10962).
    Cfi,
    /// A Wertpapierkennnummer (German national number).
    Wkn,
    /// A Valorennummer (Swiss national number).
    Valor,
}

/// Any one validated securities identifier, tagged by its kind.
#[derive(Debug, Clone, Copy, PartialEq, Eq)]
pub enum SecurityId {
    /// A validated ISIN.
    Isin(Isin),
    /// A validated CUSIP / CINS number.
    Cusip(Cusip),
    /// A validated SEDOL.
    Sedol(Sedol),
    /// A validated LEI.
    Lei(Lei),
    /// A validated FIGI.
    Figi(Figi),
    /// A validated BIC.
    Bic(Bic),
    /// A validated MIC.
    Mic(Mic),
    /// A validated CFI code.
    Cfi(Cfi),
    /// A validated WKN.
    Wkn(Wkn),
    /// A validated VALOR.
    Valor(Valor),
}

/// The kind that [`SecurityId::detect`] reports for `s`: the first of LEI,
/// ISIN, FIGI, CUSIP, SEDOL and BIC that `s` is valid as, else a MIC when
/// `s` is a registered one, if any.
pub open spec fn spec_detect_kind(s: Seq<char>) -> Option<IdentifierKind> {
    if is_valid_lei(s) {
        Some(IdentifierKind::Lei)
    } else if is_valid_isin(s) {
        Some(IdentifierKind::Isin)
    } else if is_valid_figi(s) {
        Some(IdentifierKind::Figi)
    } else if is_valid_cusip(s) {
        Some(IdentifierKind::Cusip)
    } else if is_valid_sedol(s) {
        Some(IdentifierKind::Sedol)
    } else if is_valid_bic(s) {
        Some(IdentifierKind::Bic)
    } else if is_registered_mic(s) {
        Some(IdentifierKind::Mic)
    } else {
        None
    }
}

/// The kind tag of an identifier.
pub open spec fn kind_of(id: SecurityId) -> IdentifierKind {
    match id {
        SecurityId::Isin(_) => IdentifierKind::Isin,
        SecurityId::Cusip(_) => IdentifierKind::Cusip,
        SecurityId::Sedol(_) => IdentifierKind::Sedol,
        SecurityId::Lei(_) => IdentifierKind::Lei,
        SecurityId::Figi(_) => IdentifierKind::Figi,
        SecurityId::Bic(_) => IdentifierKind::Bic,
        SecurityId::Mic(_) => IdentifierKind::Mic,
        SecurityId::Cfi(_) => IdentifierKind::Cfi,
        SecurityId::Wkn(_) => IdentifierKind::Wkn,
        SecurityId::Valor(_) => IdentifierKind::Valor,
    }
}

/// The text of the wrapped identifier.
pub open spec fn id_text(id: SecurityId) -> Seq<char> {
    match id {
        SecurityId::Isin(v) => utf8_text(v@),
        SecurityId::Cusip(v) => utf8_text(v@),
        SecurityId::Sedol(v) => utf8_text(v@),
        SecurityId::Lei(v) => utf8_text(v@),
        SecurityId::Figi(v) => utf8_text(v@),
        SecurityId::Bic(v) => utf8_text(stored_text_bytes(v@.0, v@.1)),
        SecurityId::Mic(v) => utf8_text(v@),
        SecurityId::Cfi(v) => utf8_text(v@),
        SecurityId::Wkn(v) => utf8_text(v@),
        SecurityId::Valor(v) => utf8_text(stored_text_bytes(v@.0, v@.1)),
    }
}

/// The wrapped identifier stores the text `s` exactly as its own `parse`
/// stores it.
pub open spec fn stores_text(id: SecurityId, s: Seq<char>) -> bool {
    match id {
        SecurityId::Bic(v) => v@.0 == ascii_bytes(s) + zero_bytes((11 - s.len()) as nat) && v@.1 == s.len(),
        SecurityId::Valor(v) => v@.0 == ascii_bytes(s) + zero_bytes((9 - s.len()) as nat) && v@.1 == s.len(),
        SecurityId::Isin(v) => v@ == ascii_bytes(s),
        SecurityId::Cusip(v) => v@ == ascii_bytes(s),
        SecurityId::Sedol(v) => v@ == ascii_bytes(s),
        SecurityId::Lei(v) => v@ == ascii_bytes(s),
        SecurityId::Figi(v) => v@ == ascii_bytes(s),
        SecurityId::Mic(v) => v@ == ascii_bytes(s),
        SecurityId::Cfi(v) => v@ == ascii_bytes(s),
        SecurityId::Wkn(v) => v@ == ascii_bytes(s),
    }
}

impl SecurityId {
    /// Auto-detects which kind of identifier a raw string is: the first of
    /// LEI, ISIN, FIGI, CUSIP, SEDOL and BIC whose strict `parse` accepts
    /// it, then a MIC registered in the embedded snapshot, or `None`. The
    /// detected identifier's text is the input.
    pub fn detect(s: &str) -> (r: Option<Self>)
        ensures
            match r {
                Some(id) => {
                    &&& spec_detect_kind(s@) == Some(kind_of(id))
                    &&& stores_text(id, s@)
                    &&& id_text(id) == s@
                },
                None => spec_detect_kind(s@) is None,
            },
    {
        if let Ok(lei) = Lei::parse(s) {
            return Some(SecurityId::Lei(lei));
        }
        // ISIN before FIGI: both are 12 characters, and a string valid as
        // both is reported as an ISIN.
        if let Ok(isin) = Isin::parse(s) {
            return Some(SecurityId::Isin(isin));
        }
        if let Ok(figi) = Figi::parse(s) {
            return Some(SecurityId::Figi(figi));
        }
        if let Ok(cusip) = Cusip::parse(s) {
            return Some(SecurityId::Cusip(cusip));
        }
        if let Ok(sedol) = Sedol::parse(s) {
            return Some(SecurityId::Sedol(sedol));
        }
        if let Ok(bic) = Bic::parse(s) {
            return Some(SecurityId::Bic(bic));
        }
        // A MIC carries no check digit: report it only when it names a
        // market in the registry snapshot.
        if let Ok(mic) = Mic::parse_registered(s) {
            return Some(SecurityId::Mic(mic));
        }
        None
    }

    /// The kind tag of this identifier.
    pub fn kind(&self) -> (r: IdentifierKind)
        ensures
            r == kind_of(*self),
    {
        match self {
            SecurityId::Isin(_) => IdentifierKind::Isin,
            SecurityId::Cusip(_) => IdentifierKind::Cusip,
            SecurityId::Sedol(_) => IdentifierKind::Sedol,
            SecurityId::Lei(_) => IdentifierKind::Lei,
            SecurityId::Figi(_) => IdentifierKind::Figi,
            SecurityId::Bic(_) => IdentifierKind::Bic,
            SecurityId::Mic(_) => IdentifierKind::Mic,
            SecurityId::Cfi(_) => IdentifierKind::Cfi,
            SecurityId::Wkn(_) => IdentifierKind::Wkn,
            SecurityId::Valor(_) => IdentifierKind::Valor,
        }
    }

    /// The wrapped identifier as a string slice, exactly as its own
    /// `as_str` renders it.
    pub fn as_str(&self) -> (r: &str)
        ensures
            r@ == id_text(*self),
    {
        match self {
            SecurityId::Isin(v) => v.as_str(),
            SecurityId::Cusip(v) => v.as_str(),
            SecurityId::Sedol(v) => v.as_str(),
            SecurityId::Lei(v) => v.as_str(),
            SecurityId::Figi(v) => v.as_str(),
            SecurityId::Bic(v) => v.as_str(),
            SecurityId::Mic(v) => v.as_str(),
            SecurityId::Cfi(v) => v.as_str(),
            SecurityId::Wkn(v) => v.as_str(),
            SecurityId::Valor(v) => v.as_str(),
        }
    }
}

} // verus!
