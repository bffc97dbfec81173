//! Validated HTTP(S) fetch pipeline: URI and header validation against the
//! HTTP grammar, and transcoding of a transport response into a plain
//! string-keyed envelope.

mod error;
mod grammar;
mod headers;
mod orchestrate;
mod transcode;
mod uri;

pub use error::Error;
pub use error::ErrorKind;
pub use headers::check_header_value;
pub use headers::eq_case_insensitive;
pub use headers::headers_model;
pub use headers::lemma_header_round_trip;
pub use headers::lemma_lower_char_props;
pub use headers::lemma_lower_seq_idempotent;
pub use headers::lemma_trim_start_idempotent;
pub use headers::lemma_two_headers_preserved;
pub use headers::normalized_pair;
pub use headers::pair_valid;
pub use headers::pairs_view;
pub use headers::parse_headers;
pub use headers::trim_start_str;
pub use headers::validate_header_name;
pub use headers::ValidatedHeaders;
pub use orchestrate::headers_all_valid;
pub use orchestrate::validate_request;
pub use transcode::ascii_str_of;
pub use transcode::base64_of;
pub use transcode::byte_pairs_view;
pub use transcode::check_text_bytes;
pub use transcode::is_text_byte;
pub use transcode::stringfy_headers;
pub use transcode::stringfy_model;
pub use transcode::text_bytes;
pub use transcode::transcode_response;
pub use transcode::HTTPResponse;
pub use uri::parse_uri;
pub use uri::uri_acceptable;
pub use uri::uri_parse_of;
pub use uri::UriParts;
pub use uri::ValidatedUri;
pub use grammar::check_token_char;
pub use grammar::check_value_char;
pub use grammar::check_ws_char;
pub use grammar::is_token_char;
pub use grammar::is_value_char;
pub use grammar::is_ws_char;
pub use grammar::lower_char;
pub use grammar::lower_seq;
pub use grammar::to_lower_char;
pub use grammar::trim_start_seq;
pub use grammar::valid_header_name;
pub use grammar::valid_header_value;
