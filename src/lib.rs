//! Fetch-and-validate core of a tunnel-routed HTTP fetcher: URL normalization into
//! tunnel form, the response-acceptance pipeline, and the classification of outcomes.
pub mod outcome;
pub mod text;
pub mod url;
pub mod validate;
