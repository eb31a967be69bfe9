//! A minimal client for the Esplora blockchain-explorer HTTP API.
//!
//! The client owns a base URL and builds each request target by concatenating
//! the base URL, a separating slash, and a caller-supplied path suffix. The
//! interpretation of a response is strict: status 200 is the only success,
//! any other status becomes an error carrying that exact status code together
//! with the response body as diagnostic text, and a success body may further
//! be decoded as JSON, where a malformed body becomes a parse error that is
//! distinct from any HTTP status error.
//!
//! The blocking network exchange itself (driving a configured transport
//! handle and collecting the response) is left to the embedding program; this
//! library builds the configured handle and decides what every observed
//! response means.

mod client;
mod error;
mod json;
mod response;
mod text;

pub use client::full_url;
pub use client::has_nul;
pub use client::payload_of;
pub use client::target_of;
pub use client::EsploraAPI;
pub use error::ApiError;
pub use json::is_json;
pub use json::json_error_message;
pub use json::json_value_of;
pub use json::parse_json;
pub use response::check_status;
pub use response::decode_json_response;
pub use response::lemma_error_status_reported;
pub use response::lemma_get_idempotent;
pub use response::strict_outcome;
pub use text::lossy_text;
