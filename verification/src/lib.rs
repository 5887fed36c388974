//! Exchange rates of currencies: currency codes, a bounded table of rates,
//! the request for the latest rates and the decoding of its response.
//!
//! A fetch goes in three steps. [`latest::Builder`] makes the
//! [`latest::Request`]: a URL and a token. Whoever carries the request out
//! hands back a [`latest::RawResponse`]. Its
//! [`decode`](latest::RawResponse::decode) reads the rates into a [`Rates`]
//! table, which then answers [`get`](Rates::get) and
//! [`convert`](Rates::convert).

pub mod currency;
pub mod error;
pub mod json;
pub mod latest;
pub mod rate_limit;
pub mod rates;
pub mod scientific;
pub mod text;
pub mod url;

pub use currency::{CurrencyCode, Error as CurrencyError};
pub use error::Error;
pub use rate_limit::{RateLimit, RateLimitIgnore};
pub use rates::Rates;
pub use scientific::FromScientific;
