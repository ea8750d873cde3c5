//! Verified parsing, validation and conversion of securities identifiers:
//! ISIN, CUSIP / CINS, SEDOL, LEI, FIGI, BIC, MIC, CFI, and the national
//! numbers WKN and VALOR.
//!
//! Every identifier that carries a check digit has it recomputed from its
//! governing standard and compared; structural rules are enforced exactly.
//! Each parser's contract states, over the input text, precisely when it
//! succeeds and which error it reports otherwise.
//!
//! ```text
//! errors       typed errors — ValidationError, ConversionError
//! charset      ASCII alphabet primitives and the character scan
//! checkdigit   check-digit algorithms — ISIN, CUSIP, SEDOL, LEI, FIGI
//! country      ISO 3166-1 alpha-2 codes and ISIN prefix rules
//! text         stored ASCII bytes read back as text
//!
//! isin  cusip  sedol  lei  figi  bic  mic  cfi  wkn  valor
//! mic_registry embedded ISO 10383 registry snapshot
//!
//! convert      ISIN ⇄ CUSIP / SEDOL / VALOR
//! detect       SecurityId — unified type and auto-detection
//! ```
pub mod bic;
pub mod cfi;
pub mod charset;
pub mod checkdigit;
pub mod convert;
pub mod country;
pub mod cusip;
pub mod detect;
pub mod errors;
pub mod figi;
pub mod isin;
pub mod lei;
pub mod mic;
pub mod mic_registry;
pub mod sedol;
pub mod text;
pub mod valor;
pub mod wkn;

pub use bic::Bic;
pub use cfi::Cfi;
pub use cusip::Cusip;
pub use detect::{IdentifierKind, SecurityId};
pub use errors::{ConversionError, ValidationError};
pub use figi::Figi;
pub use isin::Isin;
pub use lei::Lei;
pub use mic::{Mic, MicEntry, MicStatus};
pub use sedol::Sedol;
pub use valor::Valor;
pub use wkn::Wkn;
