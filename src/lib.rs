//! Search resolution for a title-lookup proxy: validating an inbound title,
//! building the upstream filter query, classifying what the upstream service
//! answered and deciding on the single colon-truncation fallback.
//!
//! Title length is measured in characters (Unicode scalar values), the unit
//! in which the library views strings.

pub mod failure;
pub mod query;
pub mod resolver;
pub mod text;

pub use failure::{Failure, BAD_GATEWAY, BAD_REQUEST};
pub use query::{build_query, UpstreamQuery};
pub use text::{find_first_colon, strip_commas};
pub use resolver::{
    after_first, begin_search, is_success_status, settle, validate_title, FirstStep,
    SearchResult, UpstreamOutcome, MAX_TITLE_CHARS,
};
