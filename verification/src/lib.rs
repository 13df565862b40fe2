//! Public-address discovery and GeoIP enrichment: the rules that pick a
//! resolver, classify a DNS answer, merge the two database records into one
//! flat record and render it as aligned text or as a JSON document.

pub mod text;
pub mod dns_error;
pub mod db_error;
pub mod fields;
pub mod json;
pub mod paint;
pub mod records;
pub mod formatter;
pub mod output;
pub mod ip;
pub mod resolver;
pub mod geoip;
pub mod argparser;
pub mod pipeline;
