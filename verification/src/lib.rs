//! Client-side core of an online dictionary lookup library.
//!
//! The library decodes the service's JSON response envelope into typed
//! `Definition` entries, builds the request URLs, and classifies failures
//! into a single error type. The network transport itself stays outside:
//! callers issue the GET requests and hand the raw response bodies to the
//! parsing functions here.

pub mod date;
pub mod json;
pub mod model;
pub mod ops;
pub mod urls;

pub use date::Date;
pub use model::{Defid, Definition};
pub use ops::{UrbanError, parse_defid_response, parse_list_response};
pub use urls::{define_defid_url, define_term_url, random_url};
