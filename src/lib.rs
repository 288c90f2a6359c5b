//! Validation and registry verification of VAT identification numbers.
//!
//! A raw string is validated offline against the syntax of the regime that its
//! two-letter prefix selects (`TaxId::new`). The resulting `TaxId` builds the request
//! for its regime's registry (`TaxId::make_request`); a transport sends it, and the
//! registry's answer is decoded into one `Verification` (`TaxId::parse_response`).
pub mod ch_vat;
pub mod errors;
pub mod eu_vat;
pub mod gb_vat;
pub mod json;
pub mod no_vat;
pub mod registry;
pub mod tax_id;
pub mod text;
pub mod verification;
pub mod xml;

pub use errors::{ValidationError, VerificationError};
pub use json::Json;
pub use registry::Verifier;
pub use tax_id::{TaxId, TaxIdType};
pub use verification::{
    HttpMethod, UnavailableReason, Verification, VerificationRequest, VerificationResponse,
    VerificationStatus,
};
