//! The `latest` endpoint: the request for the latest rates, and what its
//! response holds.

pub mod request;
pub mod response;

pub use request::{
    base_part, lemma_few_codes_fit, lemma_known_currencies_fit, lemma_three_letter_codes_fit, lemma_joined_chars, lemma_url_is_ascii, lemma_url_len, lemma_url_without_base, occurs, is_list_char,
    url_spec, Builder, Request, API_KEY_HEADER,
};
pub use response::{
    check_status, entries_spec, fill, filled, filled_behind, is_rate, is_success,
    lemma_filled_completes, lemma_filled_grows, lemma_filled_step, lemma_filled_truncates, object_of, parses_to,
    payload_spec, read_entries, read_payload, status_spec, timestamp_text, took, value_text, Metadata,
    Payload, RawResponse,
};
