//! Standardized JSON response envelopes, file and redirect responses, and a
//! validated, attribute-driven conversion from error enums into envelopes.

use vstd::prelude::*;

pub mod config;
pub mod file;
pub mod generation;
pub mod headers;
pub mod json;
pub mod laws;
pub mod named;
pub mod redirect;
pub mod status;
pub mod template;

pub use config::{AttrItem, AttrValue, ConfigError, HttpErrorConfig, MessageValue, VariantDecl, VariantFields};
pub use file::{ContentDisposition, File};
pub use generation::{EnumDecl, ErrorConversion, ErrorInstance, FieldValue, GenerationError, Payload};
pub use json::{JsonResponse, JsonResponseBody};
pub use redirect::Redirect;

verus! {

/// The envelope builder under the name handlers usually give it.
pub type HttpResponse = JsonResponse;

} // verus!
